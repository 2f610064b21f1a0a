//! Fixed-point scalars.
//!
//! A real number `r` is represented by the `i64` value `r * SCALE`,
//! truncated toward zero. Every operation clips its result into
//! `[-FX_MAX, FX_MAX]`, so each stored scalar stays inside that range and
//! later products fit comfortably in 128 bits.

use vstd::prelude::*;

verus! {

/// Number of raw units per world unit.
pub const SCALE: i64 = 65536;

/// Magnitude bound kept by every fixed-point operation.
pub const FX_MAX: i64 = 0x100_0000_0000;

/// Truncating (round-toward-zero) integer division, the semantics of the
/// executable `/` on signed integers; zero when the divisor is zero.
pub open spec fn tdiv(a: int, b: int) -> int {
    if b == 0 {
        0
    } else {
        let q = (if a >= 0 {
            a
        } else {
            -a
        }) / (if b >= 0 {
            b
        } else {
            -b
        });
        if (a >= 0) == (b >= 0) {
            q
        } else {
            -q
        }
    }
}

/// Clip an unbounded value into the representable range.
pub open spec fn clip(a: int) -> int {
    if a > FX_MAX {
        FX_MAX as int
    } else if a < -(FX_MAX as int) {
        -(FX_MAX as int)
    } else {
        a
    }
}

/// The range every stored fixed-point scalar lies in.
pub open spec fn fxb(a: int) -> bool {
    -(FX_MAX as int) <= a <= FX_MAX as int
}

pub open spec fn spec_add(a: int, b: int) -> int {
    clip(a + b)
}

pub open spec fn spec_sub(a: int, b: int) -> int {
    clip(a - b)
}

pub open spec fn spec_mul(a: int, b: int) -> int {
    clip(tdiv(a * b, SCALE as int))
}

/// Fixed-point division; division by zero is defined as zero so that the
/// model stays total (callers that care guard the denominator).
pub open spec fn spec_div(a: int, b: int) -> int {
    if b == 0 {
        0
    } else {
        clip(tdiv(a * (SCALE as int), b))
    }
}

pub fn fx_clip(a: i64) -> (r: i64)
    ensures
        r == clip(a as int),
        fxb(r as int),
{
    if a > FX_MAX {
        FX_MAX
    } else if a < -FX_MAX {
        -FX_MAX
    } else {
        a
    }
}

pub fn fx_add(a: i64, b: i64) -> (r: i64)
    requires
        fxb(a as int),
        fxb(b as int),
    ensures
        r == spec_add(a as int, b as int),
        fxb(r as int),
{
    fx_clip(a + b)
}

pub fn fx_sub(a: i64, b: i64) -> (r: i64)
    requires
        fxb(a as int),
        fxb(b as int),
    ensures
        r == spec_sub(a as int, b as int),
        fxb(r as int),
{
    fx_clip(a - b)
}

pub fn fx_neg(a: i64) -> (r: i64)
    requires
        fxb(a as int),
    ensures
        r == spec_sub(0, a as int),
        r == -a,
        fxb(r as int),
{
    -a
}

fn fx_clip128(a: i128) -> (r: i64)
    ensures
        r == clip(a as int),
        fxb(r as int),
{
    if a > FX_MAX as i128 {
        FX_MAX
    } else if a < -(FX_MAX as i128) {
        -FX_MAX
    } else {
        a as i64
    }
}

/// Bound on a product of two bounded factors.
pub proof fn lemma_abs_mul_le(a: int, b: int, ma: int, mb: int)
    by (nonlinear_arith)
    requires
        -ma <= a <= ma,
        -mb <= b <= mb,
        0 <= ma,
        0 <= mb,
    ensures
        -(ma * mb) <= a * b <= ma * mb,
{
}

pub fn fx_mul(a: i64, b: i64) -> (r: i64)
    requires
        fxb(a as int),
        fxb(b as int),
    ensures
        r == spec_mul(a as int, b as int),
        fxb(r as int),
{
    proof {
        lemma_abs_mul_le(a as int, b as int, FX_MAX as int, FX_MAX as int);
    }
    let p: i128 = (a as i128) * (b as i128);
    let q: i128 = p / (SCALE as i128);
    assert(q == tdiv(p as int, SCALE as int));
    fx_clip128(q)
}

pub fn fx_div(a: i64, b: i64) -> (r: i64)
    requires
        fxb(a as int),
        fxb(b as int),
        b != 0,
    ensures
        r == spec_div(a as int, b as int),
        fxb(r as int),
{
    let neg = (a < 0) != (b < 0);
    let aa: i64 = if a < 0 {
        -a
    } else {
        a
    };
    let bb: i64 = if b < 0 {
        -b
    } else {
        b
    };
    let p: i64 = aa * SCALE;
    let q: i64 = p / bb;
    proof {
        vstd::arithmetic::div_mod::lemma_div_nonincreasing(p as int, bb as int);
        vstd::arithmetic::div_mod::lemma_div_pos_is_pos(p as int, bb as int);
        assert((aa * SCALE) as int == if a as int * SCALE >= 0 {
            a as int * SCALE
        } else {
            -(a as int * SCALE)
        });
    }
    let s: i64 = if neg {
        -q
    } else {
        q
    };
    fx_clip(s)
}

/// Floor of the real square root of `n`.
pub open spec fn sqrt_floor(n: nat) -> nat
    decreases n,
{
    if n == 0 {
        0
    } else {
        let r = sqrt_floor((n - 1) as nat);
        if (r + 1) * (r + 1) <= n {
            r + 1
        } else {
            r
        }
    }
}

#[verifier::rlimit(50)]
pub proof fn lemma_sqrt_floor(n: nat)
    ensures
        (sqrt_floor(n) as int) * (sqrt_floor(n) as int) <= n as int,
        (n as int) < (sqrt_floor(n) as int + 1) * (sqrt_floor(n) as int + 1),
    decreases n,
{
    if n > 0 {
        lemma_sqrt_floor((n - 1) as nat);
        let r0 = sqrt_floor((n - 1) as nat) as int;
        let s = sqrt_floor(n) as int;
        let m = n as int;
        assert(r0 * r0 <= m - 1);
        assert(m - 1 < (r0 + 1) * (r0 + 1));
        if (sqrt_floor((n - 1) as nat) + 1) * (sqrt_floor((n - 1) as nat) + 1) <= n {
            assert(s == r0 + 1);
            assert((r0 + 1) * (r0 + 1) <= m) by (nonlinear_arith)
                requires
                    (sqrt_floor((n - 1) as nat) + 1) * (sqrt_floor((n - 1) as nat) + 1) <= n,
                    r0 == sqrt_floor((n - 1) as nat) as int,
                    m == n as int,
            ;
            assert(s * s <= m) by (nonlinear_arith)
                requires
                    s == r0 + 1,
                    (r0 + 1) * (r0 + 1) <= m,
            ;
            assert(m < (s + 1) * (s + 1)) by (nonlinear_arith)
                requires
                    r0 >= 0,
                    s == r0 + 1,
                    m <= (r0 + 1) * (r0 + 1),
            ;
        } else {
            assert(s == r0);
            assert(m < (r0 + 1) * (r0 + 1)) by (nonlinear_arith)
                requires
                    !((sqrt_floor((n - 1) as nat) + 1) * (sqrt_floor((n - 1) as nat) + 1) <= n),
                    r0 == sqrt_floor((n - 1) as nat) as int,
                    m == n as int,
            ;
            assert(s * s <= m) by (nonlinear_arith)
                requires
                    s == r0,
                    r0 * r0 <= m,
            ;
            assert(m < (s + 1) * (s + 1)) by (nonlinear_arith)
                requires
                    r0 >= 0,
                    s == r0,
                    m < (r0 + 1) * (r0 + 1),
            ;
        }
        assert((sqrt_floor(n) as int) * (sqrt_floor(n) as int) <= n as int);
    } else {
        assert(sqrt_floor(n) == 0);
        assert((sqrt_floor(n) as int) * (sqrt_floor(n) as int) == 0) by (nonlinear_arith)
            requires
                sqrt_floor(n) == 0,
        ;
        assert((n as int) < (sqrt_floor(n) as int + 1) * (sqrt_floor(n) as int + 1)) by (nonlinear_arith)
            requires
                n == 0,
                sqrt_floor(n) == 0,
        ;
    }
}

pub proof fn lemma_sqrt_floor_unique(n: nat, r: nat)
    requires
        r * r <= n,
        n < (r + 1) * (r + 1),
    ensures
        r == sqrt_floor(n),
{
    lemma_sqrt_floor(n);
    let s = sqrt_floor(n);
    if r < s {
        assert(s * s > n) by (nonlinear_arith)
            requires
                r < s,
                n < (r + 1) * (r + 1),
        ;
    }
    if s < r {
        assert(r * r > n) by (nonlinear_arith)
            requires
                s < r,
                n < (s + 1) * (s + 1),
        ;
    }
}

/// Largest `r` with `r * r <= n`, for `n` below `2^82`.
pub fn isqrt(n: u128) -> (r: u64)
    requires
        (n as nat) < 0x4_0000_0000_0000_0000_0000,
    ensures
        r as nat == sqrt_floor(n as nat),
{
    let mut lo: u128 = 0;
    let mut hi: u128 = 0x200_0000_0000;
    assert(hi * hi > n) by (nonlinear_arith)
        requires
            hi == 0x200_0000_0000int,
            (n as nat) < 0x4_0000_0000_0000_0000_0000,
    ;
    while lo + 1 < hi
        invariant
            lo < hi <= 0x200_0000_0000,
            lo * lo <= n,
            hi * hi > n,
        decreases hi - lo,
    {
        let mid: u128 = lo + (hi - lo) / 2;
        proof {
            lemma_abs_mul_le(mid as int, mid as int, 0x200_0000_0000, 0x200_0000_0000);
        }
        if mid * mid <= n {
            lo = mid;
        } else {
            hi = mid;
        }
    }
    proof {
        assert((lo + 1) * (lo + 1) > n);
        lemma_sqrt_floor_unique(n as nat, lo as nat);
    }
    lo as u64
}

/// Fixed-point square root: zero on non-positive inputs.
pub open spec fn spec_sqrt(a: int) -> int {
    if a <= 0 {
        0
    } else {
        sqrt_floor((a * (SCALE as int)) as nat) as int
    }
}

pub fn fx_sqrt(a: i64) -> (r: i64)
    requires
        fxb(a as int),
    ensures
        r == spec_sqrt(a as int),
        fxb(r as int),
        r >= 0,
{
    if a <= 0 {
        0
    } else {
        let n: u128 = (a as u128) * (SCALE as u128);
        let r = isqrt(n);
        proof {
            lemma_sqrt_floor(n as nat);
            assert(r * r <= n <= 0x100_0000_0000_0000);
            assert((r as nat) <= 0x1000_0000) by (nonlinear_arith)
                requires
                    (r as nat) * (r as nat) <= 0x100_0000_0000_0000nat,
            ;
        }
        r as i64
    }
}

/// Fixed-point integer power: `spec_pow(b, 0)` is one.
pub open spec fn spec_pow(b: int, e: nat) -> int
    decreases e,
{
    if e == 0 {
        SCALE as int
    } else {
        spec_mul(b, spec_pow(b, (e - 1) as nat))
    }
}

pub fn fx_pow(b: i64, e: u32) -> (r: i64)
    requires
        fxb(b as int),
    ensures
        r == spec_pow(b as int, e as nat),
        fxb(r as int),
{
    let mut r: i64 = SCALE;
    let mut i: u32 = 0;
    while i < e
        invariant
            i <= e,
            fxb(b as int),
            fxb(r as int),
            r == spec_pow(b as int, i as nat),
        decreases e - i,
    {
        proof {
            lemma_pow_step(b as int, (i + 1) as nat);
        }
        r = fx_mul(b, r);
        i = i + 1;
    }
    r
}

proof fn lemma_pow_step(b: int, e: nat)
    requires
        e > 0,
    ensures
        spec_pow(b, e) == spec_mul(b, spec_pow(b, (e - 1) as nat)),
{
}

/// Truncating remainder, the semantics of the executable `%` on signed
/// integers: it keeps the sign of the dividend.
pub open spec fn tmod(a: int, m: int) -> int {
    if a >= 0 {
        a % m
    } else {
        -((-a) % m)
    }
}

pub fn fx_tmod(a: i64, m: i64) -> (r: i64)
    requires
        m > 0,
        fxb(a as int),
        fxb(m as int),
    ensures
        r == tmod(a as int, m as int),
        fxb(r as int),
{
    proof {
        if a >= 0 {
            vstd::arithmetic::div_mod::lemma_mod_decreases(a as nat, m as nat);
        } else {
            vstd::arithmetic::div_mod::lemma_mod_decreases((-a) as nat, m as nat);
        }
    }
    a % m
}

/// Euclidean remainder: always in `[0, m)`.
pub fn fx_emod(a: i64, m: i64) -> (r: i64)
    requires
        m > 0,
        fxb(a as int),
        fxb(m as int),
    ensures
        r == (a as int) % (m as int),
        0 <= r < m,
{
    let t = a % m;
    proof {
        if a < 0 {
            let q = (-a) as int / (m as int);
            let r = (-a) as int % (m as int);
            vstd::arithmetic::div_mod::lemma_fundamental_div_mod(-a as int, m as int);
            assert(-a == (m as int) * q + r);
            if r == 0 {
                assert(a as int == (-q) * (m as int) + 0) by (nonlinear_arith)
                    requires
                        -(a as int) == (m as int) * q + 0,
                ;
                vstd::arithmetic::div_mod::lemma_fundamental_div_mod_converse_mod(
                    a as int,
                    m as int,
                    -q,
                    0,
                );
            } else {
                assert(a as int == (-q - 1) * (m as int) + ((m as int) - r)) by (nonlinear_arith)
                    requires
                        -(a as int) == (m as int) * q + r,
                ;
                vstd::arithmetic::div_mod::lemma_fundamental_div_mod_converse_mod(
                    a as int,
                    m as int,
                    -q - 1,
                    m - r,
                );
            }
        }
    }
    if t < 0 {
        t + m
    } else {
        t
    }
}

/// Floor division by a positive divisor, the `/` of the specification world.
pub fn fx_fdiv(a: i64, m: i64) -> (r: i64)
    requires
        m > 0,
        fxb(a as int),
        fxb(m as int),
    ensures
        r == (a as int) / (m as int),
{
    let t = a / m;
    let rem = fx_emod(a, m);
    proof {
        if a < 0 {
            let qe = a as int / (m as int);
            vstd::arithmetic::div_mod::lemma_fundamental_div_mod(a as int, m as int);
            assert(a as int == (m as int) * qe + rem);
            if rem == 0 {
                assert(-(a as int) == (-qe) * (m as int) + 0) by (nonlinear_arith)
                    requires
                        a as int == (m as int) * qe + 0,
                ;
                vstd::arithmetic::div_mod::lemma_fundamental_div_mod_converse_div(
                    -(a as int),
                    m as int,
                    -qe,
                    0,
                );
            } else {
                assert(-(a as int) == (-qe - 1) * (m as int) + ((m as int) - rem)) by (nonlinear_arith)
                    requires
                        a as int == (m as int) * qe + rem,
                ;
                vstd::arithmetic::div_mod::lemma_fundamental_div_mod_converse_div(
                    -(a as int),
                    m as int,
                    -qe - 1,
                    m - rem,
                );
            }
        }
    }
    if rem != 0 && a < 0 {
        t - 1
    } else {
        t
    }
}

/// Euclidean remainder on wide intermediates.
pub fn emod128(a: i128, m: i128) -> (r: i128)
    requires
        m > 0,
        -0x1_0000_0000_0000_0000_0000_0000_0000 <= a <= 0x1_0000_0000_0000_0000_0000_0000_0000,
        m <= 0x1_0000_0000_0000_0000_0000_0000_0000,
    ensures
        r == (a as int) % (m as int),
        0 <= r < m,
{
    let t = a % m;
    proof {
        if a < 0 {
            let qe = a as int / (m as int);
            vstd::arithmetic::div_mod::lemma_fundamental_div_mod(a as int, m as int);
            let re = a as int % (m as int);
            if re == 0 {
                assert(-(a as int) == (-qe) * (m as int) + 0) by (nonlinear_arith)
                    requires
                        a as int == (m as int) * qe + 0,
                ;
                vstd::arithmetic::div_mod::lemma_fundamental_div_mod_converse_mod(
                    -(a as int),
                    m as int,
                    -qe,
                    0,
                );
            } else {
                assert(-(a as int) == (-qe - 1) * (m as int) + ((m as int) - re)) by (nonlinear_arith)
                    requires
                        a as int == (m as int) * qe + re,
                ;
                vstd::arithmetic::div_mod::lemma_fundamental_div_mod_converse_mod(
                    -(a as int),
                    m as int,
                    -qe - 1,
                    m as int - re,
                );
            }
        }
    }
    if t < 0 {
        t + m
    } else {
        t
    }
}

/// Floor division on wide intermediates.
pub fn fdiv128(a: i128, m: i128) -> (r: i128)
    requires
        m > 0,
        -0x1_0000_0000_0000_0000_0000_0000_0000 <= a <= 0x1_0000_0000_0000_0000_0000_0000_0000,
        m <= 0x1_0000_0000_0000_0000_0000_0000_0000,
    ensures
        r == (a as int) / (m as int),
        a >= 0 ==> 0 <= r <= a,
        a < 0 ==> a <= r <= -1,
{
    let t = a / m;
    let rem = emod128(a, m);
    proof {
        if a >= 0 {
            vstd::arithmetic::div_mod::lemma_div_nonincreasing(a as int, m as int);
            vstd::arithmetic::div_mod::lemma_div_pos_is_pos(a as int, m as int);
        } else {
            let q = a as int / (m as int);
            let re = a as int % (m as int);
            vstd::arithmetic::div_mod::lemma_fundamental_div_mod(a as int, m as int);
            assert(q <= -1) by {
                if q >= 0 {
                    assert((m as int) * q >= 0) by (nonlinear_arith)
                        requires
                            m > 0,
                            q >= 0,
                    ;
                }
            }
            assert(a as int <= q) by {
                assert((m as int - 1) * q + re <= 0) by (nonlinear_arith)
                    requires
                        q <= -1,
                        0 <= re < m,
                        m > 0,
                ;
                assert(a as int - q == (m as int - 1) * q + re) by (nonlinear_arith)
                    requires
                        a as int == (m as int) * q + re,
                ;
            }
        }
    }
    proof {
        if a < 0 {
            let qe = a as int / (m as int);
            vstd::arithmetic::div_mod::lemma_fundamental_div_mod(a as int, m as int);
            assert(a as int == (m as int) * qe + rem);
            if rem == 0 {
                assert(-(a as int) == (-qe) * (m as int) + 0) by (nonlinear_arith)
                    requires
                        a as int == (m as int) * qe + 0,
                ;
                vstd::arithmetic::div_mod::lemma_fundamental_div_mod_converse_div(
                    -(a as int),
                    m as int,
                    -qe,
                    0,
                );
            } else {
                assert(-(a as int) == (-qe - 1) * (m as int) + ((m as int) - rem)) by (nonlinear_arith)
                    requires
                        a as int == (m as int) * qe + rem,
                ;
                vstd::arithmetic::div_mod::lemma_fundamental_div_mod_converse_div(
                    -(a as int),
                    m as int,
                    -qe - 1,
                    (m as int) - rem,
                );
            }
        } else {
            vstd::arithmetic::div_mod::lemma_fundamental_div_mod(a as int, m as int);
        }
    }
    if rem != 0 && a < 0 {
        t - 1
    } else {
        t
    }
}

} // verus!

