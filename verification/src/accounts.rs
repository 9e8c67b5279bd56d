use crate::address::Address;
use crate::state::{Account, Lookup, Pool, UserStake, Wallet};
use vstd::prelude::*;

verus! {

/// The accounts of a pool's creation.
#[derive(Clone, Copy, Debug, PartialEq, Eq)]
pub struct InitializePool {
    /// What stands at the address derived for the authority's pool.
    pub pool: Account<Lookup<Pool>>,
    /// The signer, who becomes the pool's authority.
    pub authority: Address,
}

/// The accounts of a deposit.
#[derive(Clone, Copy, Debug, PartialEq, Eq)]
pub struct Deposit {
    pub pool: Account<Pool>,
    /// What stands at the address derived for the depositor's stake in the pool.
    pub user_stake: Account<Lookup<UserStake>>,
    /// The bump with which that address was derived.
    pub user_stake_bump: u8,
    /// The signer, who deposits from this wallet.
    pub user: Wallet,
}

/// The accounts of a withdrawal.
#[derive(Clone, Copy, Debug, PartialEq, Eq)]
pub struct Withdraw {
    pub pool: Account<Pool>,
    pub user_stake: Account<UserStake>,
    /// The signer, who withdraws into this wallet.
    pub user: Wallet,
}

/// The accounts of a reward distribution.
#[derive(Clone, Copy, Debug, PartialEq, Eq)]
pub struct DistributeReward {
    pub pool: Account<Pool>,
    /// Who receives the reward; any wallet.
    pub winner: Wallet,
    /// The signer.
    pub authority: Address,
}

impl Deposit {
    /// The pool's custody covers its stake, and a stake record that was
    /// found belongs to the depositor.
    pub open spec fn wf(&self) -> bool {
        &&& self.pool.covers_stake()
        &&& (self.user_stake.data matches Lookup::Found(stake) ==> stake.user == self.user.key)
    }

    /// Tests `wf`.
    pub fn is_wf(&self) -> (ok: bool)
        ensures
            ok == self.wf(),
    {
        let owned = match self.user_stake.data {
            Lookup::Found(stake) => stake.user == self.user.key,
            Lookup::NotFound => true,
        };
        owned && self.pool.data.total_stake <= self.pool.lamports
    }
}

impl Withdraw {
    /// The pool's custody covers its stake.
    pub open spec fn wf(&self) -> bool {
        self.pool.covers_stake()
    }

    /// Tests `wf`.
    pub fn is_wf(&self) -> (ok: bool)
        ensures
            ok == self.wf(),
    {
        self.pool.data.total_stake <= self.pool.lamports
    }
}

impl DistributeReward {
    /// The pool's custody covers its stake.
    pub open spec fn wf(&self) -> bool {
        self.pool.covers_stake()
    }

    /// Tests `wf`.
    pub fn is_wf(&self) -> (ok: bool)
        ensures
            ok == self.wf(),
    {
        self.pool.data.total_stake <= self.pool.lamports
    }
}

} // verus!
