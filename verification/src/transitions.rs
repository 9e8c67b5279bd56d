use crate::accounts::{Deposit, DistributeReward, InitializePool, Withdraw};
use crate::address::Address;
use crate::error::CustomError;
use crate::state::{staked, Account, Lookup, Pool, UserStake, Wallet};
use vstd::prelude::*;

verus! {

/// `Ok` where the condition holds, the given error where it does not.
pub fn require(condition: bool, error: CustomError) -> (r: Result<(), CustomError>)
    ensures
        r == (if condition {
            Ok::<(), CustomError>(())
        } else {
            Err::<(), CustomError>(error)
        }),
{
    if condition {
        Ok(())
    } else {
        Err(error)
    }
}

/// Whether a pool can be created, and its address where it can.
pub open spec fn initialize_pool_result(pre: InitializePool) -> Result<Address, CustomError> {
    match pre.pool.data {
        Lookup::Found(_) => Err(CustomError::AlreadyExists),
        Lookup::NotFound => Ok(pre.pool.key),
    }
}

/// What creating a pool with `bump` does: the address holds a pool record
/// with no stake, whose authority is the signer.
pub open spec fn initialize_pool_effect(pre: InitializePool, bump: u8) -> InitializePool {
    InitializePool {
        pool: Account {
            data: Lookup::Found(Pool { authority: pre.authority, total_stake: 0, bump }),
            ..pre.pool
        },
        ..pre
    }
}

/// The accounts after `initialize_pool`, whether it created the pool or not.
pub open spec fn after_initialize_pool(pre: InitializePool, bump: u8) -> InitializePool {
    if initialize_pool_result(pre) is Ok {
        initialize_pool_effect(pre, bump)
    } else {
        pre
    }
}

/// Creates the signer's pool at the address that was looked up, and returns
/// that address. Fails with `AlreadyExists` where a pool is already there.
pub fn initialize_pool(ctx: &mut InitializePool, bump: u8) -> (r: Result<Address, CustomError>)
    ensures
        r == initialize_pool_result(*old(ctx)),
        *final(ctx) == after_initialize_pool(*old(ctx), bump),
        r is Err ==> *final(ctx) == *old(ctx),
{
    match ctx.pool.data {
        Lookup::Found(_) => Err(CustomError::AlreadyExists),
        Lookup::NotFound => {
            ctx.pool.data = Lookup::Found(Pool { authority: ctx.authority, total_stake: 0, bump });
            Ok(ctx.pool.key)
        },
    }
}

/// Whether a deposit of `amount` is accepted, and why not where it is not:
/// `InsufficientFunds` where the wallet holds less than the amount, else
/// `ArithmeticOverflow` where the pool's total, the depositor's stake or the
/// pool's custody would leave the range of a `u64`.
pub open spec fn deposit_result(pre: Deposit, amount: u64) -> Result<(), CustomError> {
    if amount > pre.user.lamports {
        Err(CustomError::InsufficientFunds)
    } else if pre.pool.data.total_stake + amount > u64::MAX || staked(pre.user_stake.data) + amount
        > u64::MAX || pre.pool.lamports + amount > u64::MAX {
        Err(CustomError::ArithmeticOverflow)
    } else {
        Ok(())
    }
}

/// What an accepted deposit of `amount` does: the amount moves from the
/// depositor's wallet into the pool's custody, and both the pool's total and
/// the depositor's stake grow by it.
pub open spec fn deposit_effect(pre: Deposit, amount: u64) -> Deposit {
    Deposit {
        pool: Account {
            lamports: (pre.pool.lamports + amount) as u64,
            data: Pool { total_stake: (pre.pool.data.total_stake + amount) as u64, ..pre.pool.data },
            ..pre.pool
        },
        user_stake: Account {
            data: Lookup::Found(
                UserStake {
                    user: pre.user.key,
                    amount: (staked(pre.user_stake.data) + amount) as u64,
                    bump: pre.user_stake_bump,
                },
            ),
            ..pre.user_stake
        },
        user: Wallet { lamports: (pre.user.lamports - amount) as u64, ..pre.user },
        ..pre
    }
}

/// The accounts after `deposit`, whether it was accepted or not.
pub open spec fn after_deposit(pre: Deposit, amount: u64) -> Deposit {
    if deposit_result(pre, amount) is Ok {
        deposit_effect(pre, amount)
    } else {
        pre
    }
}

/// Deposits `amount` from the signer's wallet into the pool. The stake
/// record is created with a zero balance where the lookup found none.
pub fn deposit(ctx: &mut Deposit, amount: u64) -> (r: Result<(), CustomError>)
    requires
        old(ctx).wf(),
    ensures
        r == deposit_result(*old(ctx), amount),
        *final(ctx) == after_deposit(*old(ctx), amount),
        r is Err ==> *final(ctx) == *old(ctx),
        final(ctx).wf(),
{
    require(amount <= ctx.user.lamports, CustomError::InsufficientFunds)?;
    let mut stake = match ctx.user_stake.data {
        Lookup::Found(stake) => stake,
        Lookup::NotFound => UserStake { user: ctx.user.key, amount: 0, bump: ctx.user_stake_bump },
    };
    let total_stake = match ctx.pool.data.total_stake.checked_add(amount) {
        Some(sum) => sum,
        None => return Err(CustomError::ArithmeticOverflow),
    };
    let stake_amount = match stake.amount.checked_add(amount) {
        Some(sum) => sum,
        None => return Err(CustomError::ArithmeticOverflow),
    };
    let custody = match ctx.pool.lamports.checked_add(amount) {
        Some(sum) => sum,
        None => return Err(CustomError::ArithmeticOverflow),
    };
    ctx.user.lamports -= amount;
    ctx.pool.lamports = custody;
    ctx.pool.data.total_stake = total_stake;
    stake.user = ctx.user.key;
    stake.amount = stake_amount;
    stake.bump = ctx.user_stake_bump;
    ctx.user_stake.data = Lookup::Found(stake);
    Ok(())
}

/// Whether a withdrawal of `amount` is accepted, and why not where it is
/// not: `Unauthorized` where the signer does not own the stake, else
/// `InsufficientStake` where the amount exceeds the stake, else
/// `NotEnoughInPool` where it exceeds the pool's total (a pool whose
/// authority has distributed stake away cannot pay every depositor), else
/// `ArithmeticOverflow` where the wallet cannot hold the amount.
pub open spec fn withdraw_result(pre: Withdraw, amount: u64) -> Result<(), CustomError> {
    if pre.user.key != pre.user_stake.data.user {
        Err(CustomError::Unauthorized)
    } else if amount > pre.user_stake.data.amount {
        Err(CustomError::InsufficientStake)
    } else if amount > pre.pool.data.total_stake {
        Err(CustomError::NotEnoughInPool)
    } else if pre.user.lamports + amount > u64::MAX {
        Err(CustomError::ArithmeticOverflow)
    } else {
        Ok(())
    }
}

/// What an accepted withdrawal of `amount` does: both the pool's total and
/// the depositor's stake shrink by it, and the amount moves from the pool's
/// custody into the depositor's wallet.
pub open spec fn withdraw_effect(pre: Withdraw, amount: u64) -> Withdraw {
    Withdraw {
        pool: Account {
            lamports: (pre.pool.lamports - amount) as u64,
            data: Pool { total_stake: (pre.pool.data.total_stake - amount) as u64, ..pre.pool.data },
            ..pre.pool
        },
        user_stake: Account {
            data: UserStake {
                amount: (pre.user_stake.data.amount - amount) as u64,
                ..pre.user_stake.data
            },
            ..pre.user_stake
        },
        user: Wallet { lamports: (pre.user.lamports + amount) as u64, ..pre.user },
    }
}

/// The accounts after `withdraw`, whether it was accepted or not.
pub open spec fn after_withdraw(pre: Withdraw, amount: u64) -> Withdraw {
    if withdraw_result(pre, amount) is Ok {
        withdraw_effect(pre, amount)
    } else {
        pre
    }
}

/// Withdraws `amount` of the signer's own stake into the signer's wallet.
/// A request for more than the stake is rejected, never clamped.
pub fn withdraw(ctx: &mut Withdraw, amount: u64) -> (r: Result<(), CustomError>)
    requires
        old(ctx).wf(),
    ensures
        r == withdraw_result(*old(ctx), amount),
        *final(ctx) == after_withdraw(*old(ctx), amount),
        r is Err ==> *final(ctx) == *old(ctx),
        final(ctx).wf(),
{
    ctx.user_stake.data.require_owner(&ctx.user.key)?;
    require(ctx.user_stake.data.amount >= amount, CustomError::InsufficientStake)?;
    require(ctx.pool.data.total_stake >= amount, CustomError::NotEnoughInPool)?;
    let wallet = match ctx.user.lamports.checked_add(amount) {
        Some(sum) => sum,
        None => return Err(CustomError::ArithmeticOverflow),
    };
    ctx.pool.data.total_stake -= amount;
    ctx.user_stake.data.amount -= amount;
    ctx.pool.lamports -= amount;
    ctx.user.lamports = wallet;
    Ok(())
}

/// Whether a distribution of `amount` is accepted, and why not where it is
/// not: `Unauthorized` where the signer is not the pool's authority,
/// whatever the amount, else `NotEnoughInPool` where the amount exceeds the
/// pool's total, else `ArithmeticOverflow` where the winner's wallet cannot
/// hold the amount.
pub open spec fn distribute_reward_result(pre: DistributeReward, amount: u64) -> Result<
    (),
    CustomError,
> {
    if pre.authority != pre.pool.data.authority {
        Err(CustomError::Unauthorized)
    } else if amount > pre.pool.data.total_stake {
        Err(CustomError::NotEnoughInPool)
    } else if pre.winner.lamports + amount > u64::MAX {
        Err(CustomError::ArithmeticOverflow)
    } else {
        Ok(())
    }
}

/// What an accepted distribution of `amount` does: the pool's total shrinks
/// by it, and the amount moves from the pool's custody into the winner's
/// wallet. No stake record is involved.
pub open spec fn distribute_reward_effect(pre: DistributeReward, amount: u64) -> DistributeReward {
    DistributeReward {
        pool: Account {
            lamports: (pre.pool.lamports - amount) as u64,
            data: Pool { total_stake: (pre.pool.data.total_stake - amount) as u64, ..pre.pool.data },
            ..pre.pool
        },
        winner: Wallet { lamports: (pre.winner.lamports + amount) as u64, ..pre.winner },
        ..pre
    }
}

/// The accounts after `distribute_reward`, whether it was accepted or not.
pub open spec fn after_distribute_reward(pre: DistributeReward, amount: u64) -> DistributeReward {
    if distribute_reward_result(pre, amount) is Ok {
        distribute_reward_effect(pre, amount)
    } else {
        pre
    }
}

/// Pays `amount` out of the pool's aggregate balance to the winner, on the
/// authority's word. It draws on the pool as a whole and lowers no
/// depositor's stake: afterwards the stakes may add up to more than the pool
/// holds, and a depositor may find the pool unable to pay the stake back.
pub fn distribute_reward(ctx: &mut DistributeReward, amount: u64) -> (r: Result<(), CustomError>)
    requires
        old(ctx).wf(),
    ensures
        r == distribute_reward_result(*old(ctx), amount),
        *final(ctx) == after_distribute_reward(*old(ctx), amount),
        r is Err ==> *final(ctx) == *old(ctx),
        final(ctx).wf(),
{
    ctx.pool.data.require_authority(&ctx.authority)?;
    require(ctx.pool.data.total_stake >= amount, CustomError::NotEnoughInPool)?;
    let wallet = match ctx.winner.lamports.checked_add(amount) {
        Some(sum) => sum,
        None => return Err(CustomError::ArithmeticOverflow),
    };
    ctx.pool.data.total_stake -= amount;
    ctx.winner.lamports = wallet;
    ctx.pool.lamports -= amount;
    Ok(())
}

} // verus!
