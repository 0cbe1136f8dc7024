//! 256-bit unsigned arithmetic: wide products, comparison, division by a
//! 128-bit divisor, and an integer square root. Wide values keep the product
//! of two 128-bit quantities exact; every operation is deterministic integer
//! arithmetic, so replicated executions agree bit for bit.

use vstd::prelude::*;
use vstd::arithmetic::div_mod::lemma_fundamental_div_mod_converse;

verus! {

/// 2^64, the split point between the two 64-bit halves of a 128-bit limb.
pub const LIMB: u128 = 0x1_0000_0000_0000_0000;

/// A 256-bit unsigned integer as a high/low pair of 128-bit limbs.
#[derive(Clone, Copy, Debug, PartialEq, Eq, Structural)]
pub struct U256 {
    pub hi: u128,
    pub lo: u128,
}

impl U256 {
    /// The mathematical value `hi * 2^128 + lo`.
    pub open spec fn value(self) -> int {
        self.hi as int * 0x1_0000_0000_0000_0000_0000_0000_0000_0000 + self.lo as int
    }
}

/// The full 256-bit product of two 128-bit values; never truncates.
pub fn mul_wide(a: u128, b: u128) -> (r: U256)
    ensures
        r.value() == a as int * b as int,
{
    let al: u128 = a % LIMB;
    let ah: u128 = a / LIMB;
    let bl: u128 = b % LIMB;
    let bh: u128 = b / LIMB;
    proof {
        assert(al < LIMB && ah < LIMB && bl < LIMB && bh < LIMB);
        assert(al * bl < 0x1_0000_0000_0000_0000_0000_0000_0000_0000
            && al * bh < 0x1_0000_0000_0000_0000_0000_0000_0000_0000
            && ah * bl < 0x1_0000_0000_0000_0000_0000_0000_0000_0000
            && ah * bh < 0x1_0000_0000_0000_0000_0000_0000_0000_0000) by (nonlinear_arith)
            requires
                al < 0x1_0000_0000_0000_0000 && ah < 0x1_0000_0000_0000_0000
                    && bl < 0x1_0000_0000_0000_0000 && bh < 0x1_0000_0000_0000_0000;
    }
    let p0: u128 = al * bl;
    let p1: u128 = al * bh;
    let p2: u128 = ah * bl;
    let p3: u128 = ah * bh;
    let carry0: u128 = p0 / LIMB;
    let low0: u128 = p0 % LIMB;
    proof {
        assert(p1 + carry0 <= u128::MAX) by (nonlinear_arith)
            requires
                p1 == al * bh,
                al < 0x1_0000_0000_0000_0000,
                bh < 0x1_0000_0000_0000_0000,
                carry0 < 0x1_0000_0000_0000_0000;
    }
    let m1: u128 = p1 + carry0;
    let m1l: u128 = m1 % LIMB;
    let m1h: u128 = m1 / LIMB;
    proof {
        assert(p2 + m1l <= u128::MAX) by (nonlinear_arith)
            requires
                p2 == ah * bl,
                ah < 0x1_0000_0000_0000_0000,
                bl < 0x1_0000_0000_0000_0000,
                m1l < 0x1_0000_0000_0000_0000;
    }
    let m2: u128 = p2 + m1l;
    let m2l: u128 = m2 % LIMB;
    let m2h: u128 = m2 / LIMB;
    proof {
        assert(p3 + m1h + m2h <= u128::MAX) by (nonlinear_arith)
            requires
                p3 == ah * bh,
                ah < 0x1_0000_0000_0000_0000,
                bh < 0x1_0000_0000_0000_0000,
                m1h < 0x1_0000_0000_0000_0000,
                m2h < 0x1_0000_0000_0000_0000;
        assert(m2l * LIMB + low0 <= u128::MAX) by (nonlinear_arith)
            requires
                m2l < 0x1_0000_0000_0000_0000,
                low0 < 0x1_0000_0000_0000_0000;
    }
    let lo: u128 = m2l * LIMB + low0;
    let hi: u128 = p3 + m1h + m2h;
    proof {
        lemma_mul_wide_combine(
            a as int, b as int, al as int, ah as int, bl as int, bh as int,
            p0 as int, p1 as int, p2 as int, p3 as int,
            carry0 as int, low0 as int, m1h as int, m1l as int,
            m2h as int, m2l as int, hi as int, lo as int,
        );
    }
    U256 { hi, lo }
}

/// Recombination of the four 64x64 partial products into the 256-bit result.
proof fn lemma_mul_wide_combine(
    a: int, b: int, al: int, ah: int, bl: int, bh: int,
    p0: int, p1: int, p2: int, p3: int,
    carry0: int, low0: int, m1h: int, m1l: int, m2h: int, m2l: int,
    hi: int, lo: int,
)
    requires
        a == ah * 0x1_0000_0000_0000_0000 + al,
        b == bh * 0x1_0000_0000_0000_0000 + bl,
        p0 == al * bl,
        p1 == al * bh,
        p2 == ah * bl,
        p3 == ah * bh,
        p0 == carry0 * 0x1_0000_0000_0000_0000 + low0,
        p1 + carry0 == m1h * 0x1_0000_0000_0000_0000 + m1l,
        p2 + m1l == m2h * 0x1_0000_0000_0000_0000 + m2l,
        lo == m2l * 0x1_0000_0000_0000_0000 + low0,
        hi == p3 + m1h + m2h,
    ensures
        hi * 0x1_0000_0000_0000_0000_0000_0000_0000_0000 + lo == a * b,
{
    assert((ah * 0x1_0000_0000_0000_0000 + al) * (bh * 0x1_0000_0000_0000_0000 + bl)
        == (ah * bh) * 0x1_0000_0000_0000_0000_0000_0000_0000_0000
            + (al * bh) * 0x1_0000_0000_0000_0000
            + (ah * bl) * 0x1_0000_0000_0000_0000
            + al * bl) by (nonlinear_arith);
}

/// Comparison of two wide values.
pub fn wide_le(a: U256, b: U256) -> (r: bool)
    ensures
        r == (a.value() <= b.value()),
{
    if a.hi < b.hi {
        true
    } else if a.hi == b.hi {
        a.lo <= b.lo
    } else {
        false
    }
}

/// Wide value plus a 128-bit value, with carry into the high limb.
fn wide_add_u128(a: U256, d: u128) -> (r: U256)
    requires
        a.value() + d
            <= 0xffff_ffff_ffff_ffff_ffff_ffff_ffff_ffff_ffff_ffff_ffff_ffff_ffff_ffff_ffff_ffff,
    ensures
        r.value() == a.value() + d,
{
    if a.lo <= u128::MAX - d {
        U256 { hi: a.hi, lo: a.lo + d }
    } else {
        U256 { hi: a.hi + 1, lo: a.lo - (u128::MAX - d) - 1 }
    }
}

/// `floor(sqrt(n))` as a mathematical function, defined by counting up.
pub open spec fn sqrt_floor(n: int) -> int
    decreases n,
{
    if n <= 0 {
        0
    } else {
        let s = sqrt_floor(n - 1);
        if (s + 1) * (s + 1) <= n {
            s + 1
        } else {
            s
        }
    }
}

/// `sqrt_floor(n)` is the unique integer whose square brackets `n`.
pub proof fn lemma_sqrt_floor_bounds(n: int)
    requires
        n >= 0,
    ensures
        sqrt_floor(n) >= 0,
        sqrt_floor(n) * sqrt_floor(n) <= n,
        n < (sqrt_floor(n) + 1) * (sqrt_floor(n) + 1),
    decreases n,
{
    if n == 0 {
        assert(sqrt_floor(0) == 0);
    } else {
        lemma_sqrt_floor_bounds(n - 1);
        let s = sqrt_floor(n - 1);
        if (s + 1) * (s + 1) <= n {
            assert((s + 1) + 1 <= (s + 1) + 1);
            assert(((s + 1) + 1) * ((s + 1) + 1) > (s + 1) * (s + 1)) by (nonlinear_arith)
                requires
                    s >= 0;
            assert(n <= (s + 1) * (s + 1));
        }
    }
}

/// Any integer whose square brackets `n` equals `sqrt_floor(n)`.
pub proof fn lemma_sqrt_floor_unique(n: int, r: int)
    requires
        n >= 0,
        r >= 0,
        r * r <= n,
        n < (r + 1) * (r + 1),
    ensures
        r == sqrt_floor(n),
{
    lemma_sqrt_floor_bounds(n);
    let s = sqrt_floor(n);
    if r < s {
        assert((r + 1) * (r + 1) <= s * s) by (nonlinear_arith)
            requires
                0 <= r,
                r + 1 <= s;
        assert(false);
    }
    if s < r {
        assert((s + 1) * (s + 1) <= r * r) by (nonlinear_arith)
            requires
                0 <= s,
                s + 1 <= r;
        assert(false);
    }
}

/// `floor(sqrt(n))` over the full 256-bit range, by binary search on the
/// root; no floating point is involved.
pub fn isqrt(n: U256) -> (r: u128)
    ensures
        r == sqrt_floor(n.value()),
{
    let mut lo: u128 = 0;
    let mut hi: u128 = u128::MAX;
    while lo < hi
        invariant
            lo <= hi,
            lo as int * lo as int <= n.value(),
            n.value() < (hi as int + 1) * (hi as int + 1),
        decreases hi - lo,
    {
        let half: u128 = (hi - lo) / 2;
        let mid: u128 = lo + half + 1;
        let sq = mul_wide(mid, mid);
        if wide_le(sq, n) {
            lo = mid;
        } else {
            hi = mid - 1;
        }
    }
    proof {
        lemma_sqrt_floor_unique(n.value(), lo as int);
    }
    lo
}

/// `floor(n / d)` where the dividend is wide; `None` when the quotient does
/// not fit in 128 bits.
pub fn wide_div(n: U256, d: u128) -> (r: Option<u128>)
    requires
        d != 0,
    ensures
        match r {
            Some(q) => q == n.value() / d as int,
            None => n.value() / d as int > u128::MAX,
        },
{
    let limit = mul_wide(u128::MAX, d);
    let bound = wide_add_u128(limit, d);
    proof {
        assert(limit.value() + d
            <= 0xffff_ffff_ffff_ffff_ffff_ffff_ffff_ffff_ffff_ffff_ffff_ffff_ffff_ffff_ffff_ffff)
            by (nonlinear_arith)
            requires
                limit.value() == u128::MAX as int * d as int,
                d <= u128::MAX;
    }
    if wide_le(bound, n) {
        proof {
            // n >= (MAX + 1) * d, so the quotient exceeds u128::MAX.
            let q = n.value() / d as int;
            let rem = n.value() % d as int;
            vstd::arithmetic::div_mod::lemma_fundamental_div_mod(n.value(), d as int);
            assert(q > u128::MAX) by (nonlinear_arith)
                requires
                    n.value() == q * (d as int) + rem,
                    0 <= rem < d as int,
                    n.value() >= (u128::MAX as int + 1) * d as int,
                    d as int > 0;
        }
        None
    } else {
        let mut lo: u128 = 0;
        let mut hi: u128 = u128::MAX;
        proof {
            assert(n.value() < (u128::MAX as int + 1) * d as int);
        }
        while lo < hi
            invariant
                lo <= hi,
                d != 0,
                lo as int * d as int <= n.value(),
                n.value() < (hi as int + 1) * d as int,
            decreases hi - lo,
        {
            let half: u128 = (hi - lo) / 2;
            let mid: u128 = lo + half + 1;
            let p = mul_wide(mid, d);
            if wide_le(p, n) {
                lo = mid;
            } else {
                hi = mid - 1;
            }
        }
        proof {
            assert((lo as int + 1) * (d as int) == (lo as int) * (d as int) + d)
                by (nonlinear_arith);
            assert(n.value() - (lo as int) * (d as int) < (d as int));
            lemma_fundamental_div_mod_converse(
                n.value(), d as int, lo as int, n.value() - (lo as int) * (d as int),
            );
        }
        Some(lo)
    }
}

} // verus!
