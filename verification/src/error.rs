use vstd::prelude::*;

verus! {

/// Why a transition was rejected. A rejected transition changes nothing.
#[derive(Clone, Copy, Debug, PartialEq, Eq, Structural)]
pub enum CustomError {
    /// A withdrawal asks for more than the depositor's recorded stake.
    InsufficientStake,
    /// The pool's aggregate balance is smaller than the amount to pay out.
    NotEnoughInPool,
    /// A pool record is already present at the address.
    AlreadyExists,
    /// A deposit exceeds the depositor's transferable balance.
    InsufficientFunds,
    /// The signer is not the authority of the pool, or not the owner of the stake.
    Unauthorized,
    /// An increment would leave the range of a 64-bit unsigned integer.
    ArithmeticOverflow,
}

} // verus!
