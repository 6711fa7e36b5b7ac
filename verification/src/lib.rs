//! Share accounting for a capped staking pool.
//!
//! A pool accepts one deposit from each of at most [`CAP`] stakers and later
//! pays every staker, once, the part of the vault that their shares stand for.
//! The functions here decide and book; moving tokens is left to the caller,
//! who receives the transfer to carry out as a plain value.

pub mod custody;
pub mod engine;
pub mod ledger;
pub mod shares;
pub mod state;

pub use custody::{AuthorityRequest, SignerSeeds, TransferRequest};
pub use engine::{deposit, initialize, open_pool, withdraw, Deposit, InitializePool, Withdraw};
pub use state::{Address, ErrorCode, StakerDetails, StakingPool, BASE_SHARES, CAP};
