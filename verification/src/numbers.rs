//! Integer helpers: Rust's rounding of integer division.
use vstd::prelude::*;

verus! {

pub open spec fn in_i32(x: int) -> bool {
    i32::MIN <= x <= i32::MAX
}

/// `a / b` rounded toward zero, as Rust divides integers.
pub open spec fn div_toward_zero(a: int, b: int) -> int {
    if a >= 0 {
        if b > 0 { a / b } else { -(a / (-b)) }
    } else {
        if b > 0 { -((-a) / b) } else { (-a) / (-b) }
    }
}

/// `a / b` for a positive divisor, rounded toward zero.
pub fn quotient_toward_zero(a: i32, b: i32) -> (r: i32)
    requires
        b > 0,
    ensures
        r == div_toward_zero(a as int, b as int),
{
    if a >= 0 {
        a / b
    } else {
        let x: i64 = -(a as i64);
        let y: i64 = b as i64;
        proof {
            assert(x / y <= x) by (nonlinear_arith)
                requires x >= 0, y >= 1;
            assert(x / y >= 0) by (nonlinear_arith)
                requires x >= 0, y >= 1;
        }
        (-(x / y)) as i32
    }
}

} // verus!
