//! Exact fixed-point samples and scale factors.
//!
//! Samples and normalized controls are carried as signed micro-units: the
//! value `1.0` is `SCALE` micro-units. Scaling a sample by a control is an
//! exact integer computation, so every stage of the signal chain has a
//! closed-form contract.
use vstd::arithmetic::div_mod::lemma_div_is_ordered;
use vstd::arithmetic::div_mod::lemma_div_multiples_vanish;
use vstd::arithmetic::div_mod::lemma_div_pos_is_pos;
use vstd::prelude::*;

verus! {

/// One unit (a normalized control value of `1.0`) in micro-units.
pub const SCALE: i64 = 1_000_000;

/// Largest sample magnitude the scaling product accepts without overflow.
pub const FACTOR_LIMIT: i64 = 1_000_000_000_000_000;

/// Magnitude of an integer.
pub open spec fn abs_val(a: int) -> int {
    if a >= 0 {
        a
    } else {
        -a
    }
}

/// Product of a sample and a micro-unit scale factor, brought back to
/// micro-units with truncation toward zero.
pub open spec fn spec_scale_mul(a: int, b: int) -> int {
    if a * b >= 0 {
        (a * b) / (SCALE as int)
    } else {
        -((-(a * b)) / (SCALE as int))
    }
}

/// Scaling by a factor of magnitude at most one unit never grows a value.
pub proof fn lemma_scale_mul_bound(a: int, b: int)
    requires
        -(SCALE as int) <= b <= SCALE as int,
    ensures
        abs_val(spec_scale_mul(a, b)) <= abs_val(a),
{
    let s = SCALE as int;
    assert(abs_val(a * b) <= abs_val(a) * s) by (nonlinear_arith)
        requires
            -s <= b <= s,
    ;
    lemma_div_multiples_vanish(abs_val(a), s);
    if a * b >= 0 {
        lemma_div_pos_is_pos(a * b, s);
        lemma_div_is_ordered(a * b, abs_val(a) * s, s);
    } else {
        lemma_div_pos_is_pos(-(a * b), s);
        lemma_div_is_ordered(-(a * b), abs_val(a) * s, s);
    }
}

/// Scaling by a zero factor yields zero.
pub proof fn lemma_scale_mul_zero(a: int)
    ensures
        spec_scale_mul(a, 0) == 0,
{
}

/// Scaling by a full unit is the identity.
pub proof fn lemma_scale_mul_one(a: int)
    ensures
        spec_scale_mul(a, SCALE as int) == a,
{
    let s = SCALE as int;
    lemma_div_multiples_vanish(a, s);
    lemma_div_multiples_vanish(-a, s);
    assert(a * s == s * a) by (nonlinear_arith);
    assert(-(a * s) == s * (-a)) by (nonlinear_arith);
}

/// Multiplies a sample by a micro-unit factor and rescales, truncating
/// toward zero.
pub fn scale_mul(a: i64, b: i64) -> (r: i64)
    requires
        -FACTOR_LIMIT <= a <= FACTOR_LIMIT,
        -SCALE <= b <= SCALE,
    ensures
        r == spec_scale_mul(a as int, b as int),
        abs_val(r as int) <= abs_val(a as int),
{
    proof {
        lemma_scale_mul_bound(a as int, b as int);
    }
    let negative: bool = (a < 0) != (b < 0);
    let ma: u64 = if a < 0 {
        (-a) as u64
    } else {
        a as u64
    };
    let mb: u64 = if b < 0 {
        (-b) as u64
    } else {
        b as u64
    };
    proof {
        assert(ma == abs_val(a as int));
        assert(mb == abs_val(b as int));
        assert(abs_val(a as int) * abs_val(b as int) == abs_val((a as int) * (b as int)))
            by (nonlinear_arith);
        assert((ma as u128) * (mb as u128) == abs_val((a as int) * (b as int)));
    }
    let p: u128 = (ma as u128) * (mb as u128);
    let q: u128 = p / (SCALE as u128);
    proof {
        let s = SCALE as int;
        let ab = (a as int) * (b as int);
        assert(abs_val((a as int) * (b as int)) <= abs_val(a as int) * s) by (nonlinear_arith)
            requires
                -s <= (b as int) <= s,
        ;
        lemma_div_is_ordered(abs_val(ab), abs_val(a as int) * s, s);
        lemma_div_multiples_vanish(abs_val(a as int), s);
        assert(q <= abs_val(a as int));
        assert(((a as int) < 0) != ((b as int) < 0) ==> (a as int) * (b as int) <= 0)
            by (nonlinear_arith);
        assert(((a as int) < 0) == ((b as int) < 0) ==> (a as int) * (b as int) >= 0)
            by (nonlinear_arith);
        lemma_div_pos_is_pos(abs_val(ab), s);
    }
    let magnitude: i64 = q as i64;
    if negative {
        -magnitude
    } else {
        magnitude
    }
}

} // verus!
