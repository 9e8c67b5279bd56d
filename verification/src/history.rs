use crate::accounts::{Deposit, DistributeReward, Withdraw};
use crate::state::{staked, Account, Lookup, Pool, UserStake};
use crate::transitions::{
    after_deposit, after_distribute_reward, after_withdraw, deposit_result,
    distribute_reward_result, withdraw_result,
};
use vstd::prelude::*;

verus! {

/// One requested transition: the accounts it was given, and the amount.
pub enum Transition {
    Deposit(Deposit, u64),
    Withdraw(Withdraw, u64),
    DistributeReward(DistributeReward, u64),
}

impl Transition {
    /// Whether the transition is accepted. A rejected one changes nothing.
    pub open spec fn accepted(self) -> bool {
        match self {
            Transition::Deposit(accounts, amount) => deposit_result(accounts, amount) is Ok,
            Transition::Withdraw(accounts, amount) => withdraw_result(accounts, amount) is Ok,
            Transition::DistributeReward(accounts, amount) => {
                distribute_reward_result(accounts, amount) is Ok
            },
        }
    }

    /// The pool as the transition finds it.
    pub open spec fn pool_before(self) -> Account<Pool> {
        match self {
            Transition::Deposit(accounts, _) => accounts.pool,
            Transition::Withdraw(accounts, _) => accounts.pool,
            Transition::DistributeReward(accounts, _) => accounts.pool,
        }
    }

    /// The pool as the transition leaves it.
    pub open spec fn pool_after(self) -> Account<Pool> {
        match self {
            Transition::Deposit(accounts, amount) => after_deposit(accounts, amount).pool,
            Transition::Withdraw(accounts, amount) => after_withdraw(accounts, amount).pool,
            Transition::DistributeReward(accounts, amount) => {
                after_distribute_reward(accounts, amount).pool
            },
        }
    }

    /// The depositor's stake record as a deposit or a withdrawal finds it.
    /// A distribution sees none.
    pub open spec fn stake_before(self) -> Lookup<UserStake> {
        match self {
            Transition::Deposit(accounts, _) => accounts.user_stake.data,
            Transition::Withdraw(accounts, _) => Lookup::Found(accounts.user_stake.data),
            Transition::DistributeReward(..) => Lookup::NotFound,
        }
    }

    /// The depositor's stake record as a deposit or a withdrawal leaves it.
    pub open spec fn stake_after(self) -> Lookup<UserStake> {
        match self {
            Transition::Deposit(accounts, amount) => after_deposit(accounts, amount).user_stake.data,
            Transition::Withdraw(accounts, amount) => {
                Lookup::Found(after_withdraw(accounts, amount).user_stake.data)
            },
            Transition::DistributeReward(..) => Lookup::NotFound,
        }
    }

    /// By how much the transition changes the stake record that it was given.
    pub open spec fn stake_change(self) -> int {
        staked(self.stake_after()) - staked(self.stake_before())
    }

    /// What the transition deposits: the amount of an accepted deposit.
    pub open spec fn deposited(self) -> int {
        match self {
            Transition::Deposit(_, amount) if self.accepted() => amount as int,
            _ => 0,
        }
    }

    /// What the transition withdraws: the amount of an accepted withdrawal.
    pub open spec fn withdrawn(self) -> int {
        match self {
            Transition::Withdraw(_, amount) if self.accepted() => amount as int,
            _ => 0,
        }
    }

    /// What the transition distributes: the amount of an accepted
    /// distribution.
    pub open spec fn distributed(self) -> int {
        match self {
            Transition::DistributeReward(_, amount) if self.accepted() => amount as int,
            _ => 0,
        }
    }
}

/// The sum of the accepted deposits of a history.
pub open spec fn deposits(history: Seq<Transition>) -> int
    decreases history.len(),
{
    if history.len() == 0 {
        0
    } else {
        deposits(history.drop_last()) + history.last().deposited()
    }
}

/// The sum of the accepted withdrawals of a history.
pub open spec fn withdrawals(history: Seq<Transition>) -> int
    decreases history.len(),
{
    if history.len() == 0 {
        0
    } else {
        withdrawals(history.drop_last()) + history.last().withdrawn()
    }
}

/// The sum of the accepted distributions of a history.
pub open spec fn distributions(history: Seq<Transition>) -> int
    decreases history.len(),
{
    if history.len() == 0 {
        0
    } else {
        distributions(history.drop_last()) + history.last().distributed()
    }
}

/// The sum of the changes that a history makes to the stake records.
pub open spec fn stake_changes(history: Seq<Transition>) -> int
    decreases history.len(),
{
    if history.len() == 0 {
        0
    } else {
        stake_changes(history.drop_last()) + history.last().stake_change()
    }
}

/// A history of one pool: each transition finds the pool as the one before
/// left it.
pub open spec fn on_one_pool(history: Seq<Transition>) -> bool {
    forall|i: int, j: int|
        0 <= i && j == i + 1 && j < history.len() ==> (#[trigger] history[j]).pool_before() == (
        #[trigger] history[i]).pool_after()
}

/// A history of one depositor's stake: deposits and withdrawals, each of
/// which finds the stake record as the one before left it.
pub open spec fn on_one_stake(history: Seq<Transition>) -> bool {
    &&& forall|i: int| 0 <= i < history.len() ==> !((#[trigger] history[i]) is DistributeReward)
    &&& forall|i: int, j: int|
        0 <= i && j == i + 1 && j < history.len() ==> (#[trigger] history[j]).stake_before() == (
        #[trigger] history[i]).stake_after()
}

/// A history of one pool stays one when its last transition is left out.
proof fn lemma_earlier_on_one_pool(history: Seq<Transition>)
    requires
        history.len() > 0,
        on_one_pool(history),
    ensures
        on_one_pool(history.drop_last()),
{
    let earlier = history.drop_last();
    assert forall|i: int, j: int| 0 <= i && j == i + 1 && j < earlier.len() implies (
    #[trigger] earlier[j]).pool_before() == (#[trigger] earlier[i]).pool_after() by {
        assert(earlier[j] == history[j] && earlier[i] == history[i]);
    }
}

/// A history of one stake stays one when its last transition is left out.
proof fn lemma_earlier_on_one_stake(history: Seq<Transition>)
    requires
        history.len() > 0,
        on_one_stake(history),
    ensures
        on_one_stake(history.drop_last()),
{
    let earlier = history.drop_last();
    assert forall|i: int| 0 <= i < earlier.len() implies !((
    #[trigger] earlier[i]) is DistributeReward) by {
        assert(earlier[i] == history[i]);
    }
    assert forall|i: int, j: int| 0 <= i && j == i + 1 && j < earlier.len() implies (
    #[trigger] earlier[j]).stake_before() == (#[trigger] earlier[i]).stake_after() by {
        assert(earlier[j] == history[j] && earlier[i] == history[i]);
    }
}

/// After any history of one pool, whichever of its transitions were
/// accepted, the pool's total is what it was at the start, plus the accepted
/// deposits, minus the accepted withdrawals, minus the accepted
/// distributions. For a pool that starts empty it is that net flow alone.
pub proof fn lemma_total_stake_is_net_flow(history: Seq<Transition>)
    requires
        history.len() > 0,
        on_one_pool(history),
    ensures
        history.last().pool_after().data.total_stake
            == history[0].pool_before().data.total_stake + deposits(history) - withdrawals(history)
            - distributions(history),
        history[0].pool_before().data.total_stake == 0
            ==> history.last().pool_after().data.total_stake
            == deposits(history) - withdrawals(history) - distributions(history),
    decreases history.len(),
{
    let earlier = history.drop_last();
    if earlier.len() == 0 {
        assert(deposits(earlier) == 0 && withdrawals(earlier) == 0 && distributions(earlier) == 0);
    } else {
        lemma_earlier_on_one_pool(history);
        lemma_total_stake_is_net_flow(earlier);
    }
}

/// Whatever the transitions of a history were given, the stake records
/// change by the accepted deposits less the accepted withdrawals: a
/// distribution changes none.
pub proof fn lemma_stakes_change_by_net_flow(history: Seq<Transition>)
    ensures
        stake_changes(history) == deposits(history) - withdrawals(history),
    decreases history.len(),
{
    if history.len() > 0 {
        lemma_stakes_change_by_net_flow(history.drop_last());
    }
}

/// After any history of one pool, with any number of depositors, the pool's
/// total has changed by what the stake records have changed, less what was
/// distributed: as long as nothing is distributed the total follows the
/// stakes, and every distribution leaves it short of them by its amount.
pub proof fn lemma_total_is_stakes_less_rewards(history: Seq<Transition>)
    requires
        history.len() > 0,
        on_one_pool(history),
    ensures
        history.last().pool_after().data.total_stake - history[0].pool_before().data.total_stake
            == stake_changes(history) - distributions(history),
{
    lemma_total_stake_is_net_flow(history);
    lemma_stakes_change_by_net_flow(history);
}

/// After any history of one depositor's stake, the stake is what it was at
/// the start, plus the accepted deposits, minus the accepted withdrawals.
/// For a record that did not exist at the start it is that net flow alone.
pub proof fn lemma_stake_is_net_flow(history: Seq<Transition>)
    requires
        history.len() > 0,
        on_one_stake(history),
    ensures
        staked(history.last().stake_after()) == staked(history[0].stake_before()) + deposits(
            history,
        ) - withdrawals(history),
        history[0].stake_before() is NotFound ==> staked(history.last().stake_after()) == deposits(
            history,
        ) - withdrawals(history),
    decreases history.len(),
{
    let earlier = history.drop_last();
    if earlier.len() == 0 {
        assert(deposits(earlier) == 0 && withdrawals(earlier) == 0);
    } else {
        lemma_earlier_on_one_stake(history);
        lemma_stake_is_net_flow(earlier);
    }
}

/// The same holds after every prefix of a history of one depositor's stake,
/// so at no point has more been withdrawn than the start and the deposits
/// gave: the stake is never negative.
pub proof fn lemma_stake_is_never_negative(history: Seq<Transition>, k: int)
    requires
        on_one_stake(history),
        0 < k <= history.len(),
    ensures
        staked(history[k - 1].stake_after()) == staked(history[0].stake_before()) + deposits(
            history.take(k),
        ) - withdrawals(history.take(k)),
        staked(history[0].stake_before()) + deposits(history.take(k)) - withdrawals(
            history.take(k),
        ) >= 0,
{
    let prefix = history.take(k);
    assert forall|i: int| 0 <= i < prefix.len() implies !((
    #[trigger] prefix[i]) is DistributeReward) by {
        assert(prefix[i] == history[i]);
    }
    assert forall|i: int, j: int| 0 <= i && j == i + 1 && j < prefix.len() implies (
    #[trigger] prefix[j]).stake_before() == (#[trigger] prefix[i]).stake_after() by {
        assert(prefix[j] == history[j] && prefix[i] == history[i]);
    }
    lemma_stake_is_net_flow(prefix);
}

} // verus!
