//! A pooled-stake escrow: one pool record holding the aggregate balance,
//! one stake record per depositor, and the four transitions that move value
//! between a party's wallet and the pool's custody.
//!
//! A transition takes the accounts that it works on by `&mut`, so it has
//! them to itself from start to end. It is all-or-nothing: it either applies
//! all of its effects or returns an error and leaves the accounts as they
//! were. The signer is judged first, then the amounts.
//!
//! A reward is paid out of the pool's aggregate balance and lowers no
//! depositor's stake. After a distribution the stakes on record may add up
//! to more than the pool holds, and a depositor may be unable to withdraw a
//! stake that the record still shows. The escrow is meant to work this way:
//! it is a known gap in its economics, which the library keeps as it is and
//! does not resolve.

pub mod accounts;
pub mod address;
pub mod error;
pub mod history;
pub mod laws;
pub mod state;
pub mod transitions;

pub use accounts::{Deposit, DistributeReward, InitializePool, Withdraw};
pub use address::Address;
pub use error::CustomError;
pub use state::{Account, Lookup, Pool, UserStake, Wallet};
pub use transitions::{deposit, distribute_reward, initialize_pool, withdraw};
