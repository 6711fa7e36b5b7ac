//! The records that the pool keeps.

use vstd::prelude::*;

verus! {

/// The bytes of an account address.
pub type Address = [u8; 32];

/// The number of stakers a pool accepts over its whole life.
pub const CAP: u8 = 5;

/// The shares handed to the first staker, whatever they deposit.
pub const BASE_SHARES: u64 = 10000;

/// The one record of a pool.
#[derive(Clone, Copy, Debug, PartialEq, Eq)]
pub struct StakingPool {
    /// The token that the pool accepts.
    pub mint: Address,
    /// The token account that holds what was deposited.
    pub vault: Address,
    /// The bump seed of the address that owns the vault.
    pub seed: u8,
    /// How many stakers have joined; never decreases.
    pub stakers_count: u8,
    /// The sum of all deposits; never decreases.
    pub total_staked: u64,
    /// The sum of the shares that have not been redeemed.
    pub total_shares: u64,
}

/// The record of one staker.
#[derive(Clone, Copy, Debug, PartialEq, Eq)]
pub struct StakerDetails {
    /// Who deposited.
    pub owner: Address,
    /// The amount deposited.
    pub deposited: u64,
    /// The shares given for the deposit; zero once redeemed.
    pub shares: u64,
    /// Whether the staker has been paid out.
    pub withdrawn: bool,
}

/// Why an operation was refused.
#[derive(Clone, Copy, Debug, PartialEq, Eq, Structural)]
pub enum ErrorCode {
    /// The pool already has [`CAP`] stakers.
    StakersMaxCap,
    /// The deposit is zero.
    DepositTooLow,
    /// The record has been paid out before.
    AlreadyWithdrawn,
    /// A share or payout computation divides by zero or leaves `u64`.
    ArithmeticFault,
}

impl ErrorCode {
    /// The message shown for the error.
    pub fn message(&self) -> (text: &'static str)
        ensures
            text@ == self.message_text(),
    {
        match self {
            ErrorCode::StakersMaxCap => "Stakers cap reached",
            ErrorCode::DepositTooLow => "Deposit too low",
            ErrorCode::AlreadyWithdrawn => "AlreadyWithdrawn",
            ErrorCode::ArithmeticFault => "Arithmetic fault",
        }
    }

    /// The characters of [`ErrorCode::message`].
    pub open spec fn message_text(&self) -> Seq<char> {
        match self {
            ErrorCode::StakersMaxCap => "Stakers cap reached"@,
            ErrorCode::DepositTooLow => "Deposit too low"@,
            ErrorCode::AlreadyWithdrawn => "AlreadyWithdrawn"@,
            ErrorCode::ArithmeticFault => "Arithmetic fault"@,
        }
    }
}

impl StakingPool {
    /// A pool that nobody has joined, over the given mint and vault.
    pub open spec fn fresh(mint: Address, vault: Address, seed: u8) -> StakingPool {
        StakingPool { mint, vault, seed, stakers_count: 0, total_staked: 0, total_shares: 0 }
    }
}

} // verus!
