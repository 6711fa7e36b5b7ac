//! The three operations on a pool: initialize, deposit, withdraw.
//!
//! Each takes the records it works on as one value, books the change in it and
//! returns the one request to the token program that goes with it. An operation
//! that is refused leaves the records as they were.

use vstd::prelude::*;

use crate::custody::{
    find_program_address, program_address, AuthorityRequest, SignerSeeds, TransferRequest,
};
use crate::shares::{checked_pro_rata, pro_rata, pro_rata_bounded, pro_rata_defined};
use crate::state::{Address, ErrorCode, StakerDetails, StakingPool, BASE_SHARES, CAP};

verus! {

/// What `initialize` works on.
#[derive(Clone, Copy, Debug, PartialEq, Eq)]
pub struct InitializePool {
    /// The address of the pool's record.
    pub pool_key: Address,
    /// The pool's record, to be written.
    pub pool: StakingPool,
    /// The present owner of the vault, who hands it over.
    pub authority: Address,
    /// The token account that will hold the deposits.
    pub vault: Address,
    /// The token that the pool accepts.
    pub mint: Address,
}

/// What `deposit` works on.
#[derive(Clone, Copy, Debug, PartialEq, Eq)]
pub struct Deposit {
    /// The pool's record.
    pub pool: StakingPool,
    /// Who deposits.
    pub owner: Address,
    /// The staker's record, to be written.
    pub staker_details: StakerDetails,
    /// The token account that the deposit is taken from.
    pub from: Address,
}

/// What `withdraw` works on.
#[derive(Clone, Copy, Debug, PartialEq, Eq)]
pub struct Withdraw {
    /// The address of the pool's record.
    pub pool_key: Address,
    /// The pool's record.
    pub pool: StakingPool,
    /// The record of the staker who withdraws.
    pub staker_details: StakerDetails,
    /// The vault's balance as read before the call.
    pub vault_amount: u64,
    /// The token account that is paid.
    pub to: Address,
    /// The address that owns the vault.
    pub vault_authority: Address,
}

/// The result of an operation that is refused with `error`.
pub open spec fn refused(error: ErrorCode) -> Result<TransferRequest, ErrorCode> {
    Err(error)
}

/// The request by which `initialize` hands the vault to `custody_key`.
pub open spec fn handover(ctx: InitializePool, custody_key: Address) -> AuthorityRequest {
    AuthorityRequest {
        account: ctx.vault,
        current_authority: ctx.authority,
        new_authority: custody_key,
    }
}

/// The records after `initialize` has written the pool with bump seed `seed`.
pub open spec fn initialized(ctx: InitializePool, seed: u8) -> InitializePool {
    InitializePool { pool: StakingPool::fresh(ctx.mint, ctx.vault, seed), ..ctx }
}

/// Writes a pool that nobody has joined, whose vault is owned by `custody_key`
/// with bump seed `seed`, and returns the request that hands the vault over.
pub fn open_pool(
    ctx: &mut InitializePool,
    custody_key: Address,
    seed: u8,
) -> (request: AuthorityRequest)
    ensures
        *final(ctx) == initialized(*old(ctx), seed),
        final(ctx).pool.stakers_count == 0,
        final(ctx).pool.total_staked == 0,
        final(ctx).pool.total_shares == 0,
        request == handover(*old(ctx), custody_key),
{
    ctx.pool = StakingPool {
        mint: ctx.mint,
        vault: ctx.vault,
        seed,
        stakers_count: 0,
        total_staked: 0,
        total_shares: 0,
    };
    AuthorityRequest {
        account: ctx.vault,
        current_authority: ctx.authority,
        new_authority: custody_key,
    }
}

/// Sets a pool up: derives the address that will own the vault from the pool's
/// address under `program_id`, writes the empty pool and returns the request
/// that hands the vault to that address.
///
/// Returns `None`, and writes nothing, where no such address exists.
pub fn initialize(
    ctx: &mut InitializePool,
    program_id: &Address,
) -> (request: Option<AuthorityRequest>)
    ensures
        request is None <==> program_address(seq![old(ctx).pool_key@], program_id@) is None,
        request is None ==> *final(ctx) == *old(ctx),
        request matches Some(req) ==> {
            &&& program_address(seq![old(ctx).pool_key@], program_id@) matches Some((key, seed))
            &&& *final(ctx) == initialized(*old(ctx), seed)
            &&& req == handover(*old(ctx), req.new_authority)
            &&& req.new_authority@ == key
        },
{
    match find_program_address(&ctx.pool_key, program_id) {
        Some((custody_key, seed)) => Some(open_pool(ctx, custody_key, seed)),
        None => None,
    }
}

/// The shares that a deposit of `amount` into `pool` is given: [`BASE_SHARES`]
/// for the first staker, and after that the pool's shares in proportion of the
/// deposit to what was staked before it.
pub open spec fn deposit_shares(pool: StakingPool, amount: u64) -> int {
    if pool.stakers_count == 0 {
        BASE_SHARES as int
    } else {
        pro_rata(pool.total_shares as int, amount as int, pool.total_staked as int)
    }
}

/// Whether booking a deposit of `amount` into `pool` divides by zero or leaves
/// `u64`, in the shares or in either total.
pub open spec fn deposit_faults(pool: StakingPool, amount: u64) -> bool {
    ||| pool.stakers_count != 0
        && !pro_rata_defined(pool.total_shares as int, amount as int, pool.total_staked as int)
    ||| pool.total_shares + deposit_shares(pool, amount) > u64::MAX
    ||| pool.total_staked + amount > u64::MAX
}

/// Why a deposit of `amount` into `pool` is refused, if it is: the checks in
/// the order in which they are made.
pub open spec fn deposit_error(pool: StakingPool, amount: u64) -> Option<ErrorCode> {
    if amount == 0 {
        Some(ErrorCode::DepositTooLow)
    } else if pool.stakers_count >= CAP {
        Some(ErrorCode::StakersMaxCap)
    } else if deposit_faults(pool, amount) {
        Some(ErrorCode::ArithmeticFault)
    } else {
        None
    }
}

/// The pool after an accepted deposit of `amount`.
pub open spec fn pool_after_deposit(pool: StakingPool, amount: u64) -> StakingPool {
    StakingPool {
        stakers_count: (pool.stakers_count + 1) as u8,
        total_staked: (pool.total_staked + amount) as u64,
        total_shares: (pool.total_shares + deposit_shares(pool, amount)) as u64,
        ..pool
    }
}

/// The record written for an accepted deposit of `amount` by `owner`.
pub open spec fn record_of_deposit(
    pool: StakingPool,
    owner: Address,
    amount: u64,
) -> StakerDetails {
    StakerDetails {
        owner,
        deposited: amount,
        shares: deposit_shares(pool, amount) as u64,
        withdrawn: false,
    }
}

/// The transfer that carries a deposit into the vault.
pub open spec fn deposit_transfer(ctx: Deposit, amount: u64) -> TransferRequest {
    TransferRequest {
        from: ctx.from,
        to: ctx.pool.vault,
        authority: ctx.owner,
        amount,
        signer: None,
    }
}

/// The records after an accepted deposit of `amount`.
pub open spec fn deposited(ctx: Deposit, amount: u64) -> Deposit {
    Deposit {
        pool: pool_after_deposit(ctx.pool, amount),
        staker_details: record_of_deposit(ctx.pool, ctx.owner, amount),
        ..ctx
    }
}

/// Books a deposit of `amount` by `ctx.owner`: counts the staker, writes their
/// record with the shares the deposit is given, adds shares and amount to the
/// pool's totals, and returns the transfer from `ctx.from` into the vault.
///
/// Refused, with nothing changed: a zero amount (`DepositTooLow`); then a pool
/// that already has [`CAP`] stakers (`StakersMaxCap`); then a computation that
/// divides by zero or leaves `u64` (`ArithmeticFault`).
///
/// The transfer is not made here. The staker is counted and the totals are
/// raised in `ctx` only; a caller whose transfer fails must not store `ctx`,
/// or the pool would count a staker who paid nothing.
pub fn deposit(ctx: &mut Deposit, amount: u64) -> (r: Result<TransferRequest, ErrorCode>)
    ensures
        amount == 0 ==> r == refused(ErrorCode::DepositTooLow),
        amount > 0 && old(ctx).pool.stakers_count >= CAP ==> r == refused(ErrorCode::StakersMaxCap),
        amount > 0 && old(ctx).pool.stakers_count < CAP && deposit_faults(old(ctx).pool, amount)
            ==> r == refused(ErrorCode::ArithmeticFault),
        amount > 0 && old(ctx).pool.stakers_count < CAP && !deposit_faults(old(ctx).pool, amount)
            ==> r is Ok,
        r matches Err(e) ==> deposit_error(old(ctx).pool, amount) == Some(e),
        r is Err ==> *final(ctx) == *old(ctx),
        r matches Ok(request) ==> {
            &&& deposit_error(old(ctx).pool, amount) is None
            &&& *final(ctx) == deposited(*old(ctx), amount)
            &&& request == deposit_transfer(*old(ctx), amount)
        },
        r is Ok && old(ctx).pool.stakers_count == 0
            ==> final(ctx).staker_details.shares == BASE_SHARES,
        r is Ok && old(ctx).pool.stakers_count > 0
            ==> final(ctx).staker_details.shares
                == (old(ctx).pool.total_shares * amount) / (old(ctx).pool.total_staked as int),
        r is Ok ==> final(ctx).pool.stakers_count == old(ctx).pool.stakers_count + 1,
        r is Ok ==> final(ctx).pool.total_staked == old(ctx).pool.total_staked + amount,
        r is Ok ==> final(ctx).pool.total_shares
            == old(ctx).pool.total_shares + final(ctx).staker_details.shares,
{
    if amount == 0 {
        return Err(ErrorCode::DepositTooLow);
    }
    if ctx.pool.stakers_count >= CAP {
        return Err(ErrorCode::StakersMaxCap);
    }
    let shares: u64 = if ctx.pool.stakers_count == 0 {
        BASE_SHARES
    } else {
        match checked_pro_rata(ctx.pool.total_shares, amount, ctx.pool.total_staked) {
            Some(shares) => shares,
            None => {
                return Err(ErrorCode::ArithmeticFault);
            },
        }
    };
    let total_shares: u64 = match ctx.pool.total_shares.checked_add(shares) {
        Some(sum) => sum,
        None => {
            return Err(ErrorCode::ArithmeticFault);
        },
    };
    let total_staked: u64 = match ctx.pool.total_staked.checked_add(amount) {
        Some(sum) => sum,
        None => {
            return Err(ErrorCode::ArithmeticFault);
        },
    };
    ctx.pool.stakers_count = ctx.pool.stakers_count + 1;
    ctx.pool.total_shares = total_shares;
    ctx.pool.total_staked = total_staked;
    ctx.staker_details =
        StakerDetails { owner: ctx.owner, deposited: amount, shares, withdrawn: false };
    Ok(TransferRequest {
        from: ctx.from,
        to: ctx.pool.vault,
        authority: ctx.owner,
        amount,
        signer: None,
    })
}

/// What a staker is paid from a vault that holds `vault_amount`: the vault in
/// proportion of the staker's shares to all shares, as the pool counts them
/// before these shares are taken off.
pub open spec fn withdraw_amount(
    pool: StakingPool,
    staker: StakerDetails,
    vault_amount: u64,
) -> int {
    pro_rata(vault_amount as int, staker.shares as int, pool.total_shares as int)
}

/// Whether paying `staker` out divides by zero or leaves `u64`, in the amount
/// or in the pool's remaining shares.
pub open spec fn withdraw_faults(
    pool: StakingPool,
    staker: StakerDetails,
    vault_amount: u64,
) -> bool {
    ||| !pro_rata_defined(vault_amount as int, staker.shares as int, pool.total_shares as int)
    ||| staker.shares > pool.total_shares
}

/// Why paying `staker` out is refused, if it is: the checks in the order in
/// which they are made.
pub open spec fn withdraw_error(
    pool: StakingPool,
    staker: StakerDetails,
    vault_amount: u64,
) -> Option<ErrorCode> {
    if staker.withdrawn {
        Some(ErrorCode::AlreadyWithdrawn)
    } else if withdraw_faults(pool, staker, vault_amount) {
        Some(ErrorCode::ArithmeticFault)
    } else {
        None
    }
}

/// The pool after `staker` has been paid out.
pub open spec fn pool_after_withdraw(pool: StakingPool, staker: StakerDetails) -> StakingPool {
    StakingPool { total_shares: (pool.total_shares - staker.shares) as u64, ..pool }
}

/// The record of a staker who has been paid out.
pub open spec fn redeemed(staker: StakerDetails) -> StakerDetails {
    StakerDetails { shares: 0, withdrawn: true, ..staker }
}

/// The transfer that pays a staker out of the vault, signed for by the program
/// with the pool's address and bump seed.
pub open spec fn withdraw_transfer(ctx: Withdraw) -> TransferRequest {
    TransferRequest {
        from: ctx.pool.vault,
        to: ctx.to,
        authority: ctx.vault_authority,
        amount: withdraw_amount(ctx.pool, ctx.staker_details, ctx.vault_amount) as u64,
        signer: Some(SignerSeeds { pool_key: ctx.pool_key, bump: ctx.pool.seed }),
    }
}

/// The records after the staker has been paid out.
pub open spec fn withdrawn(ctx: Withdraw) -> Withdraw {
    Withdraw {
        pool: pool_after_withdraw(ctx.pool, ctx.staker_details),
        staker_details: redeemed(ctx.staker_details),
        ..ctx
    }
}

/// Pays a staker out: computes their part of `ctx.vault_amount` from the
/// pool's shares as they stand, then takes the staker's shares off the pool,
/// marks the record as withdrawn with no shares left, and returns the transfer
/// from the vault to `ctx.to`.
///
/// Refused, with nothing changed: a record that was paid out before
/// (`AlreadyWithdrawn`); then a computation that divides by zero or leaves
/// `u64` (`ArithmeticFault`).
///
/// `ctx.vault_amount` is to be read anew before every call: the amount is a
/// part of what the vault holds now, not of what was deposited. The pool's
/// shares are read before the staker's own are taken off, so where the pool
/// counts them a staker who holds any share never divides by zero.
pub fn withdraw(ctx: &mut Withdraw) -> (r: Result<TransferRequest, ErrorCode>)
    ensures
        old(ctx).staker_details.withdrawn ==> r == refused(ErrorCode::AlreadyWithdrawn),
        !old(ctx).staker_details.withdrawn
            && withdraw_faults(old(ctx).pool, old(ctx).staker_details, old(ctx).vault_amount)
            ==> r == refused(ErrorCode::ArithmeticFault),
        !old(ctx).staker_details.withdrawn
            && !withdraw_faults(old(ctx).pool, old(ctx).staker_details, old(ctx).vault_amount)
            ==> r is Ok,
        r matches Err(e)
            ==> withdraw_error(old(ctx).pool, old(ctx).staker_details, old(ctx).vault_amount)
                == Some(e),
        r is Err ==> *final(ctx) == *old(ctx),
        r matches Ok(request) ==> {
            &&& withdraw_error(old(ctx).pool, old(ctx).staker_details, old(ctx).vault_amount)
                is None
            &&& *final(ctx) == withdrawn(*old(ctx))
            &&& request == withdraw_transfer(*old(ctx))
            &&& request.amount
                == (old(ctx).vault_amount * old(ctx).staker_details.shares)
                    / (old(ctx).pool.total_shares as int)
            &&& request.amount <= old(ctx).vault_amount
        },
        r is Ok ==> final(ctx).staker_details.withdrawn && final(ctx).staker_details.shares == 0,
        r is Ok ==> final(ctx).pool.total_shares
            == old(ctx).pool.total_shares - old(ctx).staker_details.shares,
{
    if ctx.staker_details.withdrawn {
        return Err(ErrorCode::AlreadyWithdrawn);
    }
    let shares: u64 = ctx.staker_details.shares;
    let amount: u64 = match checked_pro_rata(ctx.vault_amount, shares, ctx.pool.total_shares) {
        Some(amount) => amount,
        None => {
            return Err(ErrorCode::ArithmeticFault);
        },
    };
    let remaining: u64 = match ctx.pool.total_shares.checked_sub(shares) {
        Some(rest) => rest,
        None => {
            return Err(ErrorCode::ArithmeticFault);
        },
    };
    proof {
        pro_rata_bounded(ctx.vault_amount as int, shares as int, ctx.pool.total_shares as int);
    }
    ctx.pool.total_shares = remaining;
    ctx.staker_details.withdrawn = true;
    ctx.staker_details.shares = 0;
    Ok(TransferRequest {
        from: ctx.pool.vault,
        to: ctx.to,
        authority: ctx.vault_authority,
        amount,
        signer: Some(SignerSeeds { pool_key: ctx.pool_key, bump: ctx.pool.seed }),
    })
}

} // verus!
