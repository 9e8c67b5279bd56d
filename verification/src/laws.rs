use crate::accounts::{Deposit, DistributeReward, InitializePool, Withdraw};
use crate::error::CustomError;
use crate::state::{staked, Lookup};
use crate::transitions::{
    after_deposit, after_distribute_reward, after_initialize_pool, after_withdraw, deposit_result,
    distribute_reward_result, initialize_pool_result, withdraw_result,
};
use vstd::prelude::*;

verus! {

/// A pool starts with no stake, under the signer's authority, and its
/// custody is left as it was found.
pub proof fn lemma_new_pool_is_empty(pre: InitializePool, bump: u8)
    requires
        initialize_pool_result(pre) is Ok,
    ensures
        after_initialize_pool(pre, bump).pool.data matches Lookup::Found(pool)
            && pool.total_stake == 0
            && pool.authority == pre.authority
            && pool.bump == bump,
        after_initialize_pool(pre, bump).pool.lamports == pre.pool.lamports,
        after_initialize_pool(pre, bump).pool.key == pre.pool.key,
{
}

/// Depositing an amount and withdrawing it at once puts the stake and the
/// pool's total back where they were before the deposit, and with them the
/// pool's custody and the depositor's wallet.
pub proof fn lemma_deposit_then_withdraw_round_trip(d: Deposit, amount: u64, w: Withdraw)
    requires
        deposit_result(d, amount) is Ok,
        w.pool == after_deposit(d, amount).pool,
        Lookup::Found(w.user_stake.data) == after_deposit(d, amount).user_stake.data,
        w.user == after_deposit(d, amount).user,
    ensures
        withdraw_result(w, amount) is Ok,
        after_withdraw(w, amount).user_stake.data.amount == staked(d.user_stake.data),
        after_withdraw(w, amount).pool.data.total_stake == d.pool.data.total_stake,
        after_withdraw(w, amount).pool == d.pool,
        after_withdraw(w, amount).user == d.user,
{
}

/// The owner may withdraw the whole stake, which leaves a stake of zero.
/// This needs a pool that still holds that much, which a pool that has
/// distributed rewards may not, and a wallet that can hold it.
pub proof fn lemma_withdraw_whole_stake(w: Withdraw)
    requires
        w.user.key == w.user_stake.data.user,
        w.user_stake.data.amount <= w.pool.data.total_stake,
        w.user.lamports + w.user_stake.data.amount <= u64::MAX,
    ensures
        withdraw_result(w, w.user_stake.data.amount) is Ok,
        after_withdraw(w, w.user_stake.data.amount).user_stake.data.amount == 0,
{
}

/// One unit more than the stake, and any larger amount, is rejected with
/// `InsufficientStake`, and nothing changes: a withdrawal is never clamped.
pub proof fn lemma_withdraw_more_than_stake(w: Withdraw, amount: u64)
    requires
        w.user.key == w.user_stake.data.user,
        amount > w.user_stake.data.amount,
    ensures
        withdraw_result(w, amount) == Err::<(), CustomError>(CustomError::InsufficientStake),
        after_withdraw(w, amount) == w,
{
}

/// Nobody but the owner of a stake withdraws from it, whatever the amount.
pub proof fn lemma_withdraw_needs_owner(w: Withdraw, amount: u64)
    requires
        w.user.key != w.user_stake.data.user,
    ensures
        withdraw_result(w, amount) == Err::<(), CustomError>(CustomError::Unauthorized),
        after_withdraw(w, amount) == w,
{
}

/// Nobody but the pool's authority distributes a reward: any other signer
/// is rejected with `Unauthorized` and the pool's total stays as it was,
/// whether the pool could have paid the amount or not.
pub proof fn lemma_distribute_reward_needs_authority(x: DistributeReward, amount: u64)
    requires
        x.authority != x.pool.data.authority,
    ensures
        distribute_reward_result(x, amount) == Err::<(), CustomError>(CustomError::Unauthorized),
        after_distribute_reward(x, amount) == x,
        after_distribute_reward(x, amount).pool.data.total_stake == x.pool.data.total_stake,
{
}

/// A deposit and a withdrawal change the depositor's stake and the pool's
/// total by the same amount.
pub proof fn lemma_stake_and_total_move_together(d: Deposit, w: Withdraw, amount: u64)
    ensures
        after_deposit(d, amount).pool.data.total_stake - d.pool.data.total_stake
            == staked(after_deposit(d, amount).user_stake.data) - staked(d.user_stake.data),
        after_withdraw(w, amount).pool.data.total_stake - w.pool.data.total_stake
            == after_withdraw(w, amount).user_stake.data.amount - w.user_stake.data.amount,
{
}

/// A deposit never lowers the pool's total or the depositor's stake; a
/// withdrawal never raises them; a distribution never raises the total.
pub proof fn lemma_direction_of_change(d: Deposit, w: Withdraw, x: DistributeReward, amount: u64)
    ensures
        after_deposit(d, amount).pool.data.total_stake >= d.pool.data.total_stake,
        staked(after_deposit(d, amount).user_stake.data) >= staked(d.user_stake.data),
        after_withdraw(w, amount).pool.data.total_stake <= w.pool.data.total_stake,
        after_withdraw(w, amount).user_stake.data.amount <= w.user_stake.data.amount,
        after_distribute_reward(x, amount).pool.data.total_stake <= x.pool.data.total_stake,
{
}

/// Every change of a pool's total comes with an equal transfer into or out
/// of its custody: what the custody holds beyond the total never changes,
/// so a custody that equals the total goes on to equal it.
pub proof fn lemma_custody_follows_total(d: Deposit, w: Withdraw, x: DistributeReward, amount: u64)
    requires
        w.wf(),
        x.wf(),
    ensures
        after_deposit(d, amount).pool.reserve() == d.pool.reserve(),
        after_withdraw(w, amount).pool.reserve() == w.pool.reserve(),
        after_distribute_reward(x, amount).pool.reserve() == x.pool.reserve(),
{
}

/// No transition creates or destroys value: what leaves a wallet enters the
/// pool's custody, and what leaves the custody enters a wallet.
pub proof fn lemma_value_is_conserved(d: Deposit, w: Withdraw, x: DistributeReward, amount: u64)
    requires
        w.wf(),
        x.wf(),
    ensures
        after_deposit(d, amount).pool.lamports + after_deposit(d, amount).user.lamports
            == d.pool.lamports + d.user.lamports,
        after_withdraw(w, amount).pool.lamports + after_withdraw(w, amount).user.lamports
            == w.pool.lamports + w.user.lamports,
        after_distribute_reward(x, amount).pool.lamports
            + after_distribute_reward(x, amount).winner.lamports
            == x.pool.lamports + x.winner.lamports,
{
}

/// No transition changes the authority of a pool or the owner of a stake
/// record.
pub proof fn lemma_identities_never_change(
    d: Deposit,
    w: Withdraw,
    x: DistributeReward,
    amount: u64,
)
    requires
        d.wf(),
    ensures
        after_deposit(d, amount).pool.data.authority == d.pool.data.authority,
        d.user_stake.data matches Lookup::Found(stake) ==> (after_deposit(d, amount).user_stake.data
            matches Lookup::Found(after) && after.user == stake.user),
        after_withdraw(w, amount).pool.data.authority == w.pool.data.authority,
        after_withdraw(w, amount).user_stake.data.user == w.user_stake.data.user,
        after_distribute_reward(x, amount).pool.data.authority == x.pool.data.authority,
{
}

} // verus!
