use vstd::prelude::*;

verus! {

/// The number of basis points in the whole.
pub const BPS_DENOMINATOR: u64 = 10_000;

/// The part of `total` that `bps` basis points select, rounded down.
pub open spec fn share(total: u64, bps: u64) -> int {
    (total as int * bps as int) / 10_000
}

/// A share at a rate of at most the whole is at most the total, and is not
/// negative.
pub proof fn lemma_share_bounds(total: u64, bps: u64)
    requires
        bps <= BPS_DENOMINATOR,
    ensures
        0 <= share(total, bps) <= total,
{
    let t = total as int;
    let b = bps as int;
    assert(0 <= t * b <= t * 10_000) by (nonlinear_arith)
        requires
            0 <= t,
            0 <= b <= 10_000,
    ;
    assert(0 <= (t * b) / 10_000 <= t) by (nonlinear_arith)
        requires
            0 <= t * b <= t * 10_000,
    ;
}

/// Computes [`share`] for a rate of at most the whole. The product is formed
/// in 128 bits, so that every total is served.
pub fn bps_share(total: u64, bps: u64) -> (r: u64)
    requires
        bps <= BPS_DENOMINATOR,
    ensures
        r == share(total, bps),
        r <= total,
{
    proof {
        lemma_share_bounds(total, bps);
        assert(total as int * bps as int <= u64::MAX as int * 10_000) by (nonlinear_arith)
            requires
                0 <= total <= u64::MAX,
                0 <= bps <= 10_000,
        ;
    }
    let wide: u128 = (total as u128) * (bps as u128);
    let part: u128 = wide / 10_000u128;
    part as u64
}

} // verus!
