//! The pool and its stakers' records taken together, and what always holds of
//! them.
//!
//! The records live apart from the pool, so no operation sees them all. The
//! ledger is the mathematical whole: the pool's record and every staker's
//! record, in the order in which they joined. Its operations are those of the
//! engine, stated by the same functions, so what is proved here of the ledger
//! holds of any run of the engine.

use vstd::prelude::*;

use crate::engine::{
    deposit_error, deposit_shares, pool_after_deposit, pool_after_withdraw, record_of_deposit,
    redeemed, withdraw_amount, withdraw_error,
};
use crate::shares::pro_rata;
use crate::state::{Address, ErrorCode, StakerDetails, StakingPool, BASE_SHARES, CAP};

verus! {

/// The shares that a record still holds against the pool: none once it has
/// been paid out.
pub open spec fn held_shares(record: StakerDetails) -> int {
    if record.withdrawn {
        0
    } else {
        record.shares as int
    }
}

/// The sum of the shares of the records that have not been paid out.
pub open spec fn live_shares(records: Seq<StakerDetails>) -> int
    decreases records.len(),
{
    if records.len() == 0 {
        0
    } else {
        live_shares(records.drop_last()) + held_shares(records.last())
    }
}

/// The sum of the amounts deposited, over all records.
pub open spec fn total_deposited(records: Seq<StakerDetails>) -> int
    decreases records.len(),
{
    if records.len() == 0 {
        0
    } else {
        total_deposited(records.drop_last()) + records.last().deposited
    }
}

/// What a record that has not been paid out would be paid from a vault that
/// holds `vault_amount`, with `pool` as it stands.
pub open spec fn payout(pool: StakingPool, record: StakerDetails, vault_amount: u64) -> int {
    if record.withdrawn {
        0
    } else {
        withdraw_amount(pool, record, vault_amount)
    }
}

/// The sum of what every record would be paid from one and the same vault
/// balance, with `pool` as it stands.
pub open spec fn total_payout(
    pool: StakingPool,
    records: Seq<StakerDetails>,
    vault_amount: u64,
) -> int
    decreases records.len(),
{
    if records.len() == 0 {
        0
    } else {
        total_payout(pool, records.drop_last(), vault_amount)
            + payout(pool, records.last(), vault_amount)
    }
}

/// A pool with the records of all its stakers.
pub struct Ledger {
    pub pool: StakingPool,
    pub records: Seq<StakerDetails>,
}

/// One call of the engine, as the ledger sees it.
pub enum Event {
    /// A deposit of `amount` by `owner`.
    Deposit { owner: Address, amount: u64 },
    /// A withdrawal by the staker who joined as number `staker`, counted from
    /// zero, with the vault holding `vault_amount`.
    Withdraw { staker: int, vault_amount: u64 },
}

impl Ledger {
    /// The ledger of a pool that has just been initialized.
    pub open spec fn opened(mint: Address, vault: Address, seed: u8) -> Ledger {
        Ledger { pool: StakingPool::fresh(mint, vault, seed), records: Seq::empty() }
    }

    /// The pool counts its records, has room for no more than [`CAP`], and its
    /// totals are the sums over the records: the shares not yet redeemed, and
    /// the amounts deposited, none of which is zero.
    pub open spec fn balanced(self) -> bool {
        &&& self.pool.stakers_count == self.records.len()
        &&& self.pool.stakers_count <= CAP
        &&& self.pool.total_shares == live_shares(self.records)
        &&& self.pool.total_staked == total_deposited(self.records)
        &&& forall|i: int|
            0 <= i < self.records.len() ==> (#[trigger] self.records[i]).deposited > 0
    }

    /// The ledger after a deposit: with the new record last if the deposit is
    /// accepted, unchanged if it is refused.
    pub open spec fn deposit(self, owner: Address, amount: u64) -> Ledger {
        if deposit_error(self.pool, amount) is None {
            Ledger {
                pool: pool_after_deposit(self.pool, amount),
                records: self.records.push(record_of_deposit(self.pool, owner, amount)),
            }
        } else {
            self
        }
    }

    /// The ledger after a withdrawal by staker number `staker`: with the record
    /// redeemed if the withdrawal is accepted, unchanged if it is refused or
    /// there is no such staker.
    pub open spec fn withdraw(self, staker: int, vault_amount: u64) -> Ledger {
        if 0 <= staker < self.records.len()
            && withdraw_error(self.pool, self.records[staker], vault_amount) is None {
            Ledger {
                pool: pool_after_withdraw(self.pool, self.records[staker]),
                records: self.records.update(staker, redeemed(self.records[staker])),
            }
        } else {
            self
        }
    }

    /// The ledger after one call.
    pub open spec fn apply(self, event: Event) -> Ledger {
        match event {
            Event::Deposit { owner, amount } => self.deposit(owner, amount),
            Event::Withdraw { staker, vault_amount } => self.withdraw(staker, vault_amount),
        }
    }

    /// The ledger after a run of calls, one after the other.
    pub open spec fn run(self, events: Seq<Event>) -> Ledger
        decreases events.len(),
    {
        if events.len() == 0 {
            self
        } else {
            self.run(events.drop_last()).apply(events.last())
        }
    }
}

/// No record holds more shares than all of them together.
proof fn live_shares_bound(records: Seq<StakerDetails>, i: int)
    requires
        0 <= i < records.len(),
    ensures
        0 <= held_shares(records[i]) <= live_shares(records),
        0 <= live_shares(records),
    decreases records.len(),
{
    live_shares_nonnegative(records.drop_last());
    if i < records.len() - 1 {
        live_shares_bound(records.drop_last(), i);
    }
}

/// The shares not yet redeemed never sum to less than nothing.
proof fn live_shares_nonnegative(records: Seq<StakerDetails>)
    ensures
        0 <= live_shares(records),
    decreases records.len(),
{
    if records.len() > 0 {
        live_shares_nonnegative(records.drop_last());
    }
}

/// With no deposit of zero, what was deposited is at least as many tokens as
/// there are records.
proof fn total_deposited_bound(records: Seq<StakerDetails>)
    requires
        forall|i: int| 0 <= i < records.len() ==> (#[trigger] records[i]).deposited > 0,
    ensures
        records.len() <= total_deposited(records),
    decreases records.len(),
{
    if records.len() > 0 {
        let front = records.drop_last();
        assert forall|i: int| 0 <= i < front.len() implies (#[trigger] front[i]).deposited > 0 by {
            assert(front[i] == records[i]);
        }
        total_deposited_bound(front);
    }
}

/// Redeeming one record takes its shares, and nothing else, off the sums.
proof fn redeem_changes_sums(records: Seq<StakerDetails>, i: int)
    requires
        0 <= i < records.len(),
    ensures
        live_shares(records.update(i, redeemed(records[i])))
            == live_shares(records) - held_shares(records[i]),
        total_deposited(records.update(i, redeemed(records[i]))) == total_deposited(records),
    decreases records.len(),
{
    let after = records.update(i, redeemed(records[i]));
    if i == records.len() - 1 {
        assert(after.drop_last() =~= records.drop_last());
    } else {
        redeem_changes_sums(records.drop_last(), i);
        let front = records.drop_last();
        assert(after.drop_last() =~= front.update(i, redeemed(front[i])));
    }
}

/// A pool that has just been initialized is balanced.
pub proof fn opened_is_balanced(mint: Address, vault: Address, seed: u8)
    ensures
        Ledger::opened(mint, vault, seed).balanced(),
{
}

/// A deposit, accepted or refused, leaves a balanced ledger balanced: the
/// pool's shares stay the sum of the shares not redeemed, and what is staked
/// stays the sum of the deposits.
pub proof fn deposit_keeps_balance(ledger: Ledger, owner: Address, amount: u64)
    requires
        ledger.balanced(),
    ensures
        ledger.deposit(owner, amount).balanced(),
{
    if deposit_error(ledger.pool, amount) is None {
        let after = ledger.deposit(owner, amount);
        assert(after.records.drop_last() =~= ledger.records);
        live_shares_nonnegative(ledger.records);
        if ledger.pool.stakers_count != 0 {
            let shares = ledger.pool.total_shares as int;
            let staked = ledger.pool.total_staked as int;
            assert(0 <= pro_rata(shares, amount as int, staked)) by (nonlinear_arith)
                requires
                    0 <= shares,
                    0 <= amount,
                    0 < staked,
            ;
        }
        assert forall|i: int| 0 <= i < after.records.len() implies
            (#[trigger] after.records[i]).deposited > 0 by {
            if i < ledger.records.len() {
                assert(after.records[i] == ledger.records[i]);
            }
        }
    }
}

/// A withdrawal, accepted or refused, leaves a balanced ledger balanced.
pub proof fn withdraw_keeps_balance(ledger: Ledger, staker: int, vault_amount: u64)
    requires
        ledger.balanced(),
    ensures
        ledger.withdraw(staker, vault_amount).balanced(),
{
    if 0 <= staker < ledger.records.len()
        && withdraw_error(ledger.pool, ledger.records[staker], vault_amount) is None {
        let after = ledger.withdraw(staker, vault_amount);
        redeem_changes_sums(ledger.records, staker);
        assert forall|i: int| 0 <= i < after.records.len() implies
            (#[trigger] after.records[i]).deposited > 0 by {
            if i != staker {
                assert(after.records[i] == ledger.records[i]);
            } else {
                assert(ledger.records[staker].deposited > 0);
            }
        }
    }
}

/// Whatever calls are made, in whatever order, and whether accepted or
/// refused: after each of them the pool's shares are the sum of the shares of
/// the records not yet paid out, and what is staked is the sum of the amounts
/// deposited.
pub proof fn run_keeps_balance(ledger: Ledger, events: Seq<Event>)
    requires
        ledger.balanced(),
    ensures
        ledger.run(events).balanced(),
    decreases events.len(),
{
    if events.len() > 0 {
        run_keeps_balance(ledger, events.drop_last());
        let before = ledger.run(events.drop_last());
        match events.last() {
            Event::Deposit { owner, amount } => deposit_keeps_balance(before, owner, amount),
            Event::Withdraw { staker, vault_amount } => {
                withdraw_keeps_balance(before, staker, vault_amount)
            },
        }
    }
}

/// The first deposit into a pool that has just been initialized is accepted
/// whatever amount above zero it brings, and is given [`BASE_SHARES`].
pub proof fn first_deposit_accepted(
    mint: Address,
    vault: Address,
    seed: u8,
    owner: Address,
    amount: u64,
)
    requires
        amount > 0,
    ensures
        deposit_error(StakingPool::fresh(mint, vault, seed), amount) is None,
        record_of_deposit(StakingPool::fresh(mint, vault, seed), owner, amount).shares
            == BASE_SHARES,
        pool_after_deposit(StakingPool::fresh(mint, vault, seed), amount).total_shares
            == BASE_SHARES,
        pool_after_deposit(StakingPool::fresh(mint, vault, seed), amount).total_staked == amount,
{
}

/// In a balanced ledger a deposit never divides by zero: once somebody has
/// joined, something is staked. A deposit of more than nothing into a pool
/// with room is accepted exactly if the shares and both totals stay in `u64`.
pub proof fn deposit_into_balanced(ledger: Ledger, amount: u64)
    requires
        ledger.balanced(),
    ensures
        ledger.pool.stakers_count > 0 ==> ledger.pool.total_staked > 0,
        amount > 0 && ledger.records.len() < CAP
            ==> (deposit_error(ledger.pool, amount) is None <==> {
                &&& ledger.pool.stakers_count > 0
                    ==> ledger.pool.total_shares * amount <= u64::MAX
                &&& ledger.pool.total_shares + deposit_shares(ledger.pool, amount) <= u64::MAX
                &&& ledger.pool.total_staked + amount <= u64::MAX
            }),
        amount > 0 && ledger.records.len() >= CAP
            ==> deposit_error(ledger.pool, amount) == Some(ErrorCode::StakersMaxCap),
{
    total_deposited_bound(ledger.records);
}

/// In a balanced ledger a staker who has not been paid out holds no more
/// shares than the pool counts, so taking them off never goes below zero; and
/// a staker who holds any share is never refused for a division by zero.
pub proof fn withdraw_from_balanced(ledger: Ledger, staker: int, vault_amount: u64)
    requires
        ledger.balanced(),
        0 <= staker < ledger.records.len(),
        !ledger.records[staker].withdrawn,
    ensures
        ledger.records[staker].shares <= ledger.pool.total_shares,
        ledger.records[staker].shares > 0 ==> ledger.pool.total_shares > 0,
        withdraw_error(ledger.pool, ledger.records[staker], vault_amount) is None <==> {
            &&& ledger.pool.total_shares > 0
            &&& vault_amount * ledger.records[staker].shares <= u64::MAX
        },
{
    live_shares_bound(ledger.records, staker);
}

/// A record that has been paid out is refused ever after, whatever the pool
/// and the vault hold by then.
pub proof fn second_withdraw_refused(
    pool: StakingPool,
    staker: StakerDetails,
    vault_amount: u64,
    later_pool: StakingPool,
    later_vault_amount: u64,
)
    requires
        withdraw_error(pool, staker, vault_amount) is None,
    ensures
        withdraw_error(later_pool, redeemed(staker), later_vault_amount)
            == Some(ErrorCode::AlreadyWithdrawn),
{
}

/// The payouts of a run of records, each rounded down, fall short of their
/// exact sum by less than one token for each record.
proof fn total_payout_bounds(
    pool: StakingPool,
    records: Seq<StakerDetails>,
    vault_amount: u64,
)
    requires
        pool.total_shares > 0,
    ensures
        pool.total_shares * total_payout(pool, records, vault_amount)
            <= vault_amount * live_shares(records),
        vault_amount * live_shares(records) - records.len() * (pool.total_shares - 1)
            <= pool.total_shares * total_payout(pool, records, vault_amount),
    decreases records.len(),
{
    if records.len() > 0 {
        let front = records.drop_last();
        total_payout_bounds(pool, front, vault_amount);
        let t = pool.total_shares as int;
        let v = vault_amount as int;
        let s = held_shares(records.last());
        let q = payout(pool, records.last(), vault_amount);
        let sum_q = total_payout(pool, front, vault_amount);
        let sum_s = live_shares(front);
        let n = front.len() as int;
        assert(t * q <= v * s && v * s - (t - 1) <= t * q) by {
            if records.last().withdrawn {
                assert(v * 0 == 0 && t * 0 == 0) by (nonlinear_arith);
            } else {
                assert(q == (v * s) / t);
                assert(t * ((v * s) / t) <= v * s && v * s - (t - 1) <= t * ((v * s) / t))
                    by (nonlinear_arith)
                    requires
                        t > 0,
                ;
            }
        }
        assert(t * (sum_q + q) == t * sum_q + t * q) by (nonlinear_arith);
        assert(v * (sum_s + s) == v * sum_s + v * s) by (nonlinear_arith);
        assert((n + 1) * (t - 1) == n * (t - 1) + (t - 1)) by (nonlinear_arith);
    }
}

/// Paying every staker from one and the same vault balance, while the pool's
/// shares are the sum of theirs, gives out the whole vault but for the dust of
/// rounding down: never more than the vault holds, and short of it by no more
/// than one token for each staker but one.
pub proof fn payouts_exhaust_vault(
    pool: StakingPool,
    records: Seq<StakerDetails>,
    vault_amount: u64,
)
    requires
        pool.total_shares > 0,
        pool.total_shares == live_shares(records),
    ensures
        records.len() >= 1,
        vault_amount - (records.len() - 1) <= total_payout(pool, records, vault_amount)
            <= vault_amount,
{
    total_payout_bounds(pool, records, vault_amount);
    let t = pool.total_shares as int;
    let v = vault_amount as int;
    let n = records.len() as int;
    let sum_q = total_payout(pool, records, vault_amount);
    assert(sum_q <= v) by (nonlinear_arith)
        requires
            t > 0,
            t * sum_q <= v * t,
    ;
    assert(v - sum_q < n) by (nonlinear_arith)
        requires
            t > 0,
            n >= 1,
            v * t - n * (t - 1) <= t * sum_q,
    {
        assert(t * (v - sum_q) == v * t - t * sum_q);
        assert(n * (t - 1) == n * t - n);
        assert(t * (v - sum_q) < t * n);
    }
}

} // verus!
