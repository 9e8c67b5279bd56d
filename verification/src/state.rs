use crate::address::Address;
use crate::error::CustomError;
use vstd::prelude::*;

verus! {

/// The aggregate record of one pool.
#[derive(Clone, Copy, Debug, PartialEq, Eq)]
pub struct Pool {
    /// Who created the pool and may distribute rewards from it. Never changes.
    pub authority: Address,
    /// The aggregate balance that the pool holds for its depositors.
    pub total_stake: u64,
    /// The bump with which the pool's address was derived.
    pub bump: u8,
}

/// The record of one depositor's stake in one pool.
#[derive(Clone, Copy, Debug, PartialEq, Eq)]
pub struct UserStake {
    /// The depositor that the record belongs to. Never changes.
    pub user: Address,
    /// What the depositor may still withdraw.
    pub amount: u64,
    /// The bump with which the record's address was derived.
    pub bump: u8,
}

/// What looking up a record at an address gave.
#[derive(Debug, PartialEq, Eq)]
pub enum Lookup<T> {
    /// A record is present at the address.
    Found(T),
    /// No record has been created at the address yet.
    NotFound,
}

/// An account that holds a record: its address, the balance in its custody,
/// and what it holds.
#[derive(Debug, PartialEq, Eq)]
pub struct Account<T> {
    pub key: Address,
    pub lamports: u64,
    pub data: T,
}

impl<T: Copy> Clone for Lookup<T> {
    fn clone(&self) -> (r: Self)
        ensures
            r == *self,
    {
        *self
    }
}

impl<T: Copy> Copy for Lookup<T> {

}

impl<T: Copy> Clone for Account<T> {
    fn clone(&self) -> (r: Self)
        ensures
            r == *self,
    {
        *self
    }
}

impl<T: Copy> Copy for Account<T> {

}

/// The account of a party: its identity and its transferable balance.
#[derive(Clone, Copy, Debug, PartialEq, Eq)]
pub struct Wallet {
    pub key: Address,
    pub lamports: u64,
}

/// The stake that a lookup shows: the recorded amount, or zero where no
/// record exists yet.
pub open spec fn staked(found: Lookup<UserStake>) -> u64 {
    match found {
        Lookup::Found(stake) => stake.amount,
        Lookup::NotFound => 0,
    }
}

impl Pool {
    /// Only the pool's authority passes.
    pub fn require_authority(&self, signer: &Address) -> (r: Result<(), CustomError>)
        ensures
            r == (if *signer == self.authority {
                Ok::<(), CustomError>(())
            } else {
                Err::<(), CustomError>(CustomError::Unauthorized)
            }),
    {
        if *signer == self.authority {
            Ok(())
        } else {
            Err(CustomError::Unauthorized)
        }
    }
}

impl UserStake {
    /// Only the owner of the stake passes.
    pub fn require_owner(&self, signer: &Address) -> (r: Result<(), CustomError>)
        ensures
            r == (if *signer == self.user {
                Ok::<(), CustomError>(())
            } else {
                Err::<(), CustomError>(CustomError::Unauthorized)
            }),
    {
        if *signer == self.user {
            Ok(())
        } else {
            Err(CustomError::Unauthorized)
        }
    }
}

impl Account<Pool> {
    /// The pool's custody holds at least what the pool owes its depositors.
    /// What it holds beyond that is the funding of the record itself.
    pub open spec fn covers_stake(&self) -> bool {
        self.data.total_stake <= self.lamports
    }

    /// The part of the custody that is not stake.
    pub open spec fn reserve(&self) -> int {
        self.lamports - self.data.total_stake
    }
}

} // verus!
