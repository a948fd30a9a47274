//! Divisibility: the mathematical notion a rule's divisor is tested with,
//! and a verified runtime check for it.

use vstd::arithmetic::div_mod::{lemma_fundamental_div_mod, lemma_mod_multiples_basic};
use vstd::math::abs;
use vstd::prelude::*;

verus! {

/// `d` evenly divides `x`: some integer multiple of `d` equals `x`.
pub open spec fn divides(d: int, x: int) -> bool {
    exists|k: int| x == #[trigger] (k * d)
}

/// Divisibility is unchanged by taking absolute values on either side.
pub proof fn lemma_divides_iff_abs(d: int, x: int)
    requires
        d != 0,
    ensures
        divides(d, x) <==> abs(x) % abs(d) == 0,
{
    let da = abs(d) as int;
    let xa = abs(x) as int;
    if divides(d, x) {
        let k = choose|k: int| x == #[trigger] (k * d);
        let ka = abs(k) as int;
        assert(xa == ka * da) by (nonlinear_arith)
            requires
                x == k * d,
                xa == if x < 0 { -x } else { x },
                ka == if k < 0 { -k } else { k },
                da == if d < 0 { -d } else { d },
        ;
        lemma_mod_multiples_basic(ka, da);
    }
    if xa % da == 0 {
        lemma_fundamental_div_mod(xa, da);
        let q = xa / da;
        assert(xa == da * (xa / da) + (xa % da));
        assert(da * q == q * da) by (nonlinear_arith);
        assert(xa == q * da);
        if x >= 0 {
            if d > 0 {
                assert(x == q * d);
            } else {
                assert(x == (-q) * d) by (nonlinear_arith)
                    requires
                        x == q * da,
                        da == -d,
                ;
            }
        } else {
            if d > 0 {
                assert(x == (-q) * d) by (nonlinear_arith)
                    requires
                        -x == q * da,
                        da == d,
                ;
            } else {
                assert(x == q * d) by (nonlinear_arith)
                    requires
                        -x == q * da,
                        da == -d,
                ;
            }
        }
        assert(divides(d, x));
    }
}

/// The absolute value of an `i32`, widened so that `i32::MIN` needs no
/// special case.
fn abs_u64(v: i32) -> (r: u64)
    ensures
        r as int == abs(v as int),
{
    if v >= 0 {
        v as u64
    } else {
        (-(v as i64)) as u64
    }
}

/// Whether `x` is evenly divisible by `d`.
pub fn divisible_by(x: i32, d: i32) -> (b: bool)
    requires
        d != 0,
    ensures
        b == divides(d as int, x as int),
{
    let xa = abs_u64(x);
    let da = abs_u64(d);
    let b = xa % da == 0;
    proof {
        lemma_divides_iff_abs(d as int, x as int);
    }
    b
}

} // verus!
