//! The arithmetic of shares: a part of a whole, in proportion, rounded down.

use vstd::prelude::*;

verus! {

/// The part of `whole` that falls to `part` out of `total`, rounded down.
///
/// Shares for a deposit are the pool's shares in proportion of the deposit to
/// what is staked; a payout is the vault in proportion of the staker's shares
/// to all shares.
pub open spec fn pro_rata(whole: int, part: int, total: int) -> int {
    (whole * part) / total
}

/// Whether [`pro_rata`] can be computed in `u64`: the divisor is not zero and
/// the product fits.
pub open spec fn pro_rata_defined(whole: int, part: int, total: int) -> bool {
    total != 0 && whole * part <= u64::MAX
}

/// Computes [`pro_rata`], or `None` where the divisor is zero or the product
/// leaves `u64`.
pub fn checked_pro_rata(whole: u64, part: u64, total: u64) -> (r: Option<u64>)
    ensures
        r is Some <==> pro_rata_defined(whole as int, part as int, total as int),
        r matches Some(q) ==> q == pro_rata(whole as int, part as int, total as int),
{
    if total == 0 {
        return None;
    }
    match whole.checked_mul(part) {
        Some(product) => Some(product / total),
        None => None,
    }
}

/// A part of a whole is never more than the whole: with `part <= total` the
/// result of [`pro_rata`] is between zero and `whole`.
pub proof fn pro_rata_bounded(whole: int, part: int, total: int)
    requires
        0 <= whole,
        0 <= part <= total,
        0 < total,
    ensures
        0 <= pro_rata(whole, part, total) <= whole,
{
    assert(0 <= whole * part <= whole * total) by (nonlinear_arith)
        requires
            0 <= whole,
            0 <= part <= total,
    ;
    assert((whole * part) / total <= whole) by (nonlinear_arith)
        requires
            0 <= whole * part <= whole * total,
            0 < total,
    ;
    assert(0 <= (whole * part) / total) by (nonlinear_arith)
        requires
            0 <= whole * part,
            0 < total,
    ;
}

} // verus!
