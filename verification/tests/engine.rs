use simple_staking::{
    deposit, withdraw, Address, Deposit, ErrorCode, SignerSeeds, StakerDetails, StakingPool,
    TransferRequest, Withdraw, BASE_SHARES, CAP,
};

const MINT: Address = [1; 32];
const VAULT: Address = [2; 32];
const POOL_KEY: Address = [3; 32];
const VAULT_AUTHORITY: Address = [4; 32];

fn key(n: u8) -> Address {
    [n; 32]
}

fn empty_pool() -> StakingPool {
    StakingPool { mint: MINT, vault: VAULT, seed: 254, stakers_count: 0, total_staked: 0, total_shares: 0 }
}

fn blank() -> StakerDetails {
    StakerDetails { owner: [0; 32], deposited: 0, shares: 0, withdrawn: false }
}

fn join(pool: StakingPool, who: u8, amount: u64) -> (Result<TransferRequest, ErrorCode>, Deposit) {
    let mut ctx = Deposit { pool, owner: key(who), staker_details: blank(), from: key(who + 100) };
    let r = deposit(&mut ctx, amount);
    (r, ctx)
}

fn leave(pool: StakingPool, staker: StakerDetails, vault_amount: u64) -> (Result<TransferRequest, ErrorCode>, Withdraw) {
    let mut ctx = Withdraw {
        pool_key: POOL_KEY,
        pool,
        staker_details: staker,
        vault_amount,
        to: key(200),
        vault_authority: VAULT_AUTHORITY,
    };
    let r = withdraw(&mut ctx);
    (r, ctx)
}

#[test]
fn constants_are_five_and_ten_thousand() {
    assert_eq!(CAP, 5);
    assert_eq!(BASE_SHARES, 10000);
}

#[test]
fn two_stakers_deposit_and_withdraw_without_dust() {
    let (r, a) = join(empty_pool(), 10, 100);
    assert!(r.is_ok());
    assert_eq!(a.staker_details.shares, 10000);
    assert_eq!(a.pool.total_staked, 100);
    assert_eq!(a.pool.total_shares, 10000);

    let (r, b) = join(a.pool, 11, 50);
    assert!(r.is_ok());
    assert_eq!(b.staker_details.shares, 5000);
    assert_eq!(b.pool.total_staked, 150);
    assert_eq!(b.pool.total_shares, 15000);

    let (r, after_a) = leave(b.pool, a.staker_details, 150);
    assert_eq!(r.unwrap().amount, 100);
    assert_eq!(after_a.pool.total_shares, 5000);

    let (r, after_b) = leave(after_a.pool, b.staker_details, 50);
    assert_eq!(r.unwrap().amount, 50);
    assert_eq!(after_b.pool.total_shares, 0);
    assert_eq!(after_b.pool.total_staked, 150);
}

#[test]
fn first_depositor_gets_base_shares_whatever_the_amount() {
    for amount in [1u64, 2, 100, 9_999, 10_000, 123_456_789, u64::MAX] {
        let (r, ctx) = join(empty_pool(), 10, amount);
        assert!(r.is_ok());
        assert_eq!(ctx.staker_details.shares, 10000);
        assert_eq!(ctx.pool.total_shares, 10000);
        assert_eq!(ctx.pool.total_staked, amount);
        assert_eq!(ctx.pool.stakers_count, 1);
    }
}

#[test]
fn deposit_writes_the_whole_record_and_requests_the_transfer() {
    let (r, ctx) = join(empty_pool(), 10, 77);
    assert_eq!(
        ctx.staker_details,
        StakerDetails { owner: key(10), deposited: 77, shares: 10000, withdrawn: false }
    );
    assert_eq!(
        r,
        Ok(TransferRequest { from: key(110), to: VAULT, authority: key(10), amount: 77, signer: None })
    );
    assert_eq!(ctx.owner, key(10));
    assert_eq!(ctx.from, key(110));
    assert_eq!(ctx.pool.mint, MINT);
    assert_eq!(ctx.pool.vault, VAULT);
    assert_eq!(ctx.pool.seed, 254);
}

#[test]
fn later_deposits_are_priced_at_the_rate_before_them() {
    let (_, a) = join(empty_pool(), 10, 300);
    let (_, b) = join(a.pool, 11, 100);
    // floor(10000 * 100 / 300)
    assert_eq!(b.staker_details.shares, 3333);
    assert_eq!(b.pool.total_shares, 13333);
    assert_eq!(b.pool.total_staked, 400);
    let (_, c) = join(b.pool, 12, 7);
    // floor(13333 * 7 / 400)
    assert_eq!(c.staker_details.shares, 233);
    assert_eq!(c.pool.total_shares, 13566);
    assert_eq!(c.pool.total_staked, 407);
    assert_eq!(c.pool.stakers_count, 3);
}

#[test]
fn a_small_deposit_may_get_no_shares() {
    let (_, a) = join(empty_pool(), 10, 1_000_000);
    let (r, b) = join(a.pool, 11, 1);
    assert!(r.is_ok());
    assert_eq!(b.staker_details.shares, 0);
    assert_eq!(b.pool.total_shares, 10000);
    assert_eq!(b.pool.total_staked, 1_000_001);
}

#[test]
fn fifth_deposit_succeeds_and_sixth_fails() {
    let mut pool = empty_pool();
    for n in 0..5u8 {
        let (r, ctx) = join(pool, 10 + n, 100);
        assert!(r.is_ok(), "deposit {} is accepted", n + 1);
        pool = ctx.pool;
        assert_eq!(pool.stakers_count, n + 1);
    }
    assert_eq!(pool.total_staked, 500);
    assert_eq!(pool.total_shares, 50000);
    let before = pool;
    let (r, ctx) = join(pool, 15, 100);
    assert_eq!(r, Err(ErrorCode::StakersMaxCap));
    assert_eq!(ctx.pool, before);
    assert_eq!(ctx.staker_details, blank());
    let (r, _) = join(pool, 16, 1);
    assert_eq!(r, Err(ErrorCode::StakersMaxCap));
}

#[test]
fn a_count_above_the_cap_is_refused_too() {
    let pool = StakingPool { stakers_count: 200, total_staked: 10, total_shares: 10, ..empty_pool() };
    let (r, ctx) = join(pool, 10, 5);
    assert_eq!(r, Err(ErrorCode::StakersMaxCap));
    assert_eq!(ctx.pool, pool);
}

#[test]
fn zero_deposit_fails_and_changes_nothing() {
    let (r, ctx) = join(empty_pool(), 10, 0);
    assert_eq!(r, Err(ErrorCode::DepositTooLow));
    assert_eq!(ctx.pool, empty_pool());
    assert_eq!(ctx.staker_details, blank());

    let (_, a) = join(empty_pool(), 10, 100);
    let (r, ctx) = join(a.pool, 11, 0);
    assert_eq!(r, Err(ErrorCode::DepositTooLow));
    assert_eq!(ctx.pool, a.pool);
    assert_eq!(ctx.staker_details, blank());
}

#[test]
fn zero_deposit_is_reported_before_a_full_pool() {
    let pool = StakingPool { stakers_count: 5, total_staked: 500, total_shares: 50000, ..empty_pool() };
    let (r, _) = join(pool, 10, 0);
    assert_eq!(r, Err(ErrorCode::DepositTooLow));
}

#[test]
fn deposit_with_nothing_staked_after_the_first_is_an_arithmetic_fault() {
    let pool = StakingPool { stakers_count: 1, total_staked: 0, total_shares: 10000, ..empty_pool() };
    let (r, ctx) = join(pool, 10, 5);
    assert_eq!(r, Err(ErrorCode::ArithmeticFault));
    assert_eq!(ctx.pool, pool);
    assert_eq!(ctx.staker_details, blank());
}

#[test]
fn deposit_whose_product_leaves_u64_is_an_arithmetic_fault() {
    let (_, a) = join(empty_pool(), 10, 100);
    // 10000 * amount must stay within u64
    let limit = u64::MAX / 10000;
    let (r, b) = join(a.pool, 11, limit);
    assert!(r.is_ok());
    assert_eq!(b.staker_details.shares, 10000 * limit / 100);
    let (r, ctx) = join(a.pool, 11, limit + 1);
    assert_eq!(r, Err(ErrorCode::ArithmeticFault));
    assert_eq!(ctx.pool, a.pool);
}

#[test]
fn deposit_that_overflows_a_total_is_an_arithmetic_fault() {
    let staked_full = StakingPool { stakers_count: 1, total_staked: u64::MAX, total_shares: 1, ..empty_pool() };
    let (r, ctx) = join(staked_full, 10, 1);
    assert_eq!(r, Err(ErrorCode::ArithmeticFault));
    assert_eq!(ctx.pool, staked_full);

    let shares_full = StakingPool { stakers_count: 0, total_staked: 0, total_shares: u64::MAX - 9999, ..empty_pool() };
    let (r, ctx) = join(shares_full, 10, 1);
    assert_eq!(r, Err(ErrorCode::ArithmeticFault));
    assert_eq!(ctx.pool, shares_full);

    let shares_fit = StakingPool { total_shares: u64::MAX - 10000, ..shares_full };
    let (r, ctx) = join(shares_fit, 10, 1);
    assert!(r.is_ok());
    assert_eq!(ctx.pool.total_shares, u64::MAX);
}

#[test]
fn withdraw_marks_the_record_and_requests_the_signed_transfer() {
    let pool = StakingPool { stakers_count: 2, total_staked: 150, total_shares: 15000, ..empty_pool() };
    let staker = StakerDetails { owner: key(10), deposited: 100, shares: 10000, withdrawn: false };
    let (r, ctx) = leave(pool, staker, 150);
    assert_eq!(
        r,
        Ok(TransferRequest {
            from: VAULT,
            to: key(200),
            authority: VAULT_AUTHORITY,
            amount: 100,
            signer: Some(SignerSeeds { pool_key: POOL_KEY, bump: 254 }),
        })
    );
    assert_eq!(
        ctx.staker_details,
        StakerDetails { owner: key(10), deposited: 100, shares: 0, withdrawn: true }
    );
    assert_eq!(ctx.pool, StakingPool { total_shares: 5000, ..pool });
    assert_eq!(ctx.vault_amount, 150);
    assert_eq!(ctx.to, key(200));
}

#[test]
fn withdraw_follows_the_vault_not_the_deposit() {
    let pool = StakingPool { stakers_count: 2, total_staked: 150, total_shares: 15000, ..empty_pool() };
    let staker = StakerDetails { owner: key(11), deposited: 50, shares: 5000, withdrawn: false };
    // floor(1000 * 5000 / 15000)
    assert_eq!(leave(pool, staker, 1000).0.unwrap().amount, 333);
    // floor(10 * 5000 / 15000)
    assert_eq!(leave(pool, staker, 10).0.unwrap().amount, 3);
    assert_eq!(leave(pool, staker, 0).0.unwrap().amount, 0);
}

#[test]
fn second_withdraw_fails_with_already_withdrawn() {
    let pool = StakingPool { stakers_count: 2, total_staked: 150, total_shares: 15000, ..empty_pool() };
    let staker = StakerDetails { owner: key(10), deposited: 100, shares: 10000, withdrawn: false };
    let (r, first) = leave(pool, staker, 150);
    assert!(r.is_ok());
    let (r, second) = leave(first.pool, first.staker_details, 50);
    assert_eq!(r, Err(ErrorCode::AlreadyWithdrawn));
    assert_eq!(second.pool, first.pool);
    assert_eq!(second.staker_details, first.staker_details);
}

#[test]
fn already_withdrawn_is_reported_before_an_arithmetic_fault() {
    let pool = StakingPool { stakers_count: 1, total_staked: 100, total_shares: 0, ..empty_pool() };
    let staker = StakerDetails { owner: key(10), deposited: 100, shares: 0, withdrawn: true };
    assert_eq!(leave(pool, staker, 100).0, Err(ErrorCode::AlreadyWithdrawn));
}

#[test]
fn withdraw_with_no_shares_in_the_pool_is_an_arithmetic_fault() {
    let pool = StakingPool { stakers_count: 1, total_staked: 100, total_shares: 0, ..empty_pool() };
    let staker = StakerDetails { owner: key(10), deposited: 100, shares: 0, withdrawn: false };
    let (r, ctx) = leave(pool, staker, 100);
    assert_eq!(r, Err(ErrorCode::ArithmeticFault));
    assert_eq!(ctx.pool, pool);
    assert_eq!(ctx.staker_details, staker);
}

#[test]
fn withdraw_of_more_shares_than_the_pool_counts_is_an_arithmetic_fault() {
    let pool = StakingPool { stakers_count: 1, total_staked: 100, total_shares: 10, ..empty_pool() };
    let staker = StakerDetails { owner: key(10), deposited: 100, shares: 11, withdrawn: false };
    let (r, ctx) = leave(pool, staker, 100);
    assert_eq!(r, Err(ErrorCode::ArithmeticFault));
    assert_eq!(ctx.pool, pool);
    assert_eq!(ctx.staker_details, staker);
}

#[test]
fn withdraw_whose_product_leaves_u64_is_an_arithmetic_fault() {
    let pool = StakingPool { stakers_count: 1, total_staked: 100, total_shares: 10000, ..empty_pool() };
    let staker = StakerDetails { owner: key(10), deposited: 100, shares: 10000, withdrawn: false };
    let limit = u64::MAX / 10000;
    assert_eq!(leave(pool, staker, limit).0.unwrap().amount, limit);
    let (r, ctx) = leave(pool, staker, limit + 1);
    assert_eq!(r, Err(ErrorCode::ArithmeticFault));
    assert_eq!(ctx.pool, pool);
    assert_eq!(ctx.staker_details, staker);
}

#[test]
fn a_staker_without_shares_cannot_leave_an_emptied_pool() {
    let (_, a) = join(empty_pool(), 10, 1_000_000);
    let (_, b) = join(a.pool, 11, 1);
    assert_eq!(b.staker_details.shares, 0);
    let (r, after_a) = leave(b.pool, a.staker_details, 1_000_001);
    assert_eq!(r.unwrap().amount, 1_000_001);
    assert_eq!(after_a.pool.total_shares, 0);
    let (r, _) = leave(after_a.pool, b.staker_details, 0);
    assert_eq!(r, Err(ErrorCode::ArithmeticFault));
}

#[test]
fn totals_are_the_sums_over_the_records_after_every_call() {
    let mut pool = empty_pool();
    let mut records: Vec<StakerDetails> = Vec::new();
    let check = |pool: &StakingPool, records: &Vec<StakerDetails>| {
        let live: u64 = records.iter().filter(|r| !r.withdrawn).map(|r| r.shares).sum();
        let staked: u64 = records.iter().map(|r| r.deposited).sum();
        assert_eq!(pool.total_shares, live);
        assert_eq!(pool.total_staked, staked);
        assert_eq!(pool.stakers_count as usize, records.len());
    };
    check(&pool, &records);
    for (n, amount) in [100u64, 50, 0, 7, 1234, 1, 9].into_iter().enumerate() {
        let (r, ctx) = join(pool, n as u8, amount);
        pool = ctx.pool;
        if r.is_ok() {
            records.push(ctx.staker_details);
        }
        check(&pool, &records);
    }
    assert_eq!(records.len(), 5);
    let mut vault: u64 = pool.total_staked;
    for i in [2usize, 0, 2, 4, 1, 3] {
        let (r, ctx) = leave(pool, records[i], vault);
        pool = ctx.pool;
        records[i] = ctx.staker_details;
        if let Ok(request) = r {
            vault -= request.amount;
        }
        check(&pool, &records);
    }
    assert_eq!(pool.total_shares, 0);
    assert_eq!(vault, 0);
}

#[test]
fn payouts_from_one_balance_leave_less_dust_than_stakers() {
    let pool = StakingPool { stakers_count: 3, total_staked: 3, total_shares: 3, ..empty_pool() };
    let staker = StakerDetails { owner: key(10), deposited: 1, shares: 1, withdrawn: false };
    let mut paid = 0;
    for _ in 0..3 {
        paid += leave(pool, staker, 100).0.unwrap().amount;
    }
    assert_eq!(paid, 99);

    let shares = [10000u64, 3333, 233, 7, 1];
    let total: u64 = shares.iter().sum();
    let pool = StakingPool { stakers_count: 5, total_staked: 500, total_shares: total, ..empty_pool() };
    for vault in [0u64, 1, 4, 5, 499, 500, 1_000_003] {
        let mut paid = 0;
        for s in shares {
            let staker = StakerDetails { owner: key(10), deposited: 1, shares: s, withdrawn: false };
            paid += leave(pool, staker, vault).0.unwrap().amount;
        }
        assert!(paid <= vault);
        assert!(vault - paid <= 4);
    }
}
