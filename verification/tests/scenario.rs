use stakeup::{
    deposit, distribute_reward, initialize_pool, withdraw, Account, Address, CustomError, Deposit,
    DistributeReward, InitializePool, Lookup, Pool, UserStake, Wallet, Withdraw,
};

fn address(byte: u8) -> Address {
    Address::new([byte; 32])
}

fn found<T>(lookup: Lookup<T>) -> T {
    match lookup {
        Lookup::Found(record) => record,
        Lookup::NotFound => panic!("no record"),
    }
}

fn record<T: Copy>(slot: Account<Lookup<T>>) -> Account<T> {
    Account { key: slot.key, lamports: slot.lamports, data: found(slot.data) }
}

fn slot<T: Copy>(account: Account<T>) -> Account<Lookup<T>> {
    Account { key: account.key, lamports: account.lamports, data: Lookup::Found(account.data) }
}

#[test]
fn two_depositors_a_withdrawal_and_a_reward() {
    let a = address(1);
    let u = address(2);
    let v = address(3);
    let w = address(4);

    let mut create = InitializePool {
        pool: Account { key: address(10), lamports: 0, data: Lookup::NotFound },
        authority: a,
    };
    assert_eq!(initialize_pool(&mut create, 255), Ok(address(10)));
    let pool = record(create.pool);
    assert_eq!(pool.data, Pool { authority: a, total_stake: 0, bump: 255 });

    let mut first = Deposit {
        pool,
        user_stake: Account { key: address(11), lamports: 0, data: Lookup::NotFound },
        user_stake_bump: 254,
        user: Wallet { key: u, lamports: 500 },
    };
    assert_eq!(deposit(&mut first, 100), Ok(()));

    let mut second = Deposit {
        pool: first.pool,
        user_stake: Account { key: address(12), lamports: 0, data: Lookup::NotFound },
        user_stake_bump: 253,
        user: Wallet { key: v, lamports: 50 },
    };
    assert_eq!(deposit(&mut second, 50), Ok(()));

    assert_eq!(second.pool.data.total_stake, 150);
    assert_eq!(second.pool.lamports, 150);
    assert_eq!(found(first.user_stake.data), UserStake { user: u, amount: 100, bump: 254 });
    assert_eq!(found(second.user_stake.data), UserStake { user: v, amount: 50, bump: 253 });
    assert_eq!(first.user.lamports, 400);
    assert_eq!(second.user.lamports, 0);

    let mut back =
        Withdraw { pool: second.pool, user_stake: record(first.user_stake), user: first.user };
    assert_eq!(withdraw(&mut back, 30), Ok(()));
    assert_eq!(back.user_stake.data.amount, 70);
    assert_eq!(back.pool.data.total_stake, 120);
    assert_eq!(back.pool.lamports, 120);
    assert_eq!(back.user.lamports, 430);

    let mut reward = DistributeReward {
        pool: back.pool,
        winner: Wallet { key: w, lamports: 7 },
        authority: a,
    };
    assert_eq!(distribute_reward(&mut reward, 120), Ok(()));
    assert_eq!(reward.pool.data.total_stake, 0);
    assert_eq!(reward.pool.lamports, 0);
    assert_eq!(reward.winner.lamports, 127);
    assert_eq!(back.user_stake.data.amount, 70);
    assert_eq!(found(second.user_stake.data).amount, 50);

    // The stakes now add up to more than the pool holds: the owner of a
    // stake of 70 cannot get it back, nor any part of it.
    let mut late = Withdraw { pool: reward.pool, user_stake: back.user_stake, user: back.user };
    let before = late;
    assert_eq!(withdraw(&mut late, 70), Err(CustomError::NotEnoughInPool));
    assert_eq!(late, before);
    assert_eq!(withdraw(&mut late, 1), Err(CustomError::NotEnoughInPool));
    assert_eq!(late, before);
    assert_eq!(withdraw(&mut late, 0), Ok(()));
    assert_eq!(late, before);
}

#[test]
fn a_depositor_who_withdrew_everything_keeps_the_record() {
    let u = address(2);
    let mut first = Deposit {
        pool: Account {
            key: address(10),
            lamports: 0,
            data: Pool { authority: address(1), total_stake: 0, bump: 255 },
        },
        user_stake: Account { key: address(11), lamports: 0, data: Lookup::NotFound },
        user_stake_bump: 254,
        user: Wallet { key: u, lamports: 40 },
    };
    assert_eq!(deposit(&mut first, 40), Ok(()));
    let mut all =
        Withdraw { pool: first.pool, user_stake: record(first.user_stake), user: first.user };
    assert_eq!(withdraw(&mut all, 40), Ok(()));
    assert_eq!(all.user_stake.data, UserStake { user: u, amount: 0, bump: 254 });

    let mut again = Deposit {
        pool: all.pool,
        user_stake: slot(all.user_stake),
        user_stake_bump: 254,
        user: all.user,
    };
    assert_eq!(deposit(&mut again, 15), Ok(()));
    assert_eq!(found(again.user_stake.data), UserStake { user: u, amount: 15, bump: 254 });
    assert_eq!(again.pool.data.total_stake, 15);
    assert_eq!(again.user.lamports, 25);
}
