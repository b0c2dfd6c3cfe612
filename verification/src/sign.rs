//! Sign stripping: absolute value of an integer, optionally doubled.
//!
//! The platform's absolute-value primitive is undefined on the minimum
//! representable integer, which has no positive counterpart in two's
//! complement; both functions here exclude that input by precondition, and
//! the doubling variant also asks that the doubled result fit.

use vstd::prelude::*;

verus! {

/// The absolute value of `x`, as a mathematical integer.
pub open spec fn spec_abs(x: int) -> int {
    if x < 0 {
        -x
    } else {
        x
    }
}

/// Returns `|x|`. The minimum representable integer is the one input with no
/// representable absolute value and is excluded.
pub fn get_abs(x: i32) -> (r: i32)
    requires
        x != i32::MIN,
    ensures
        r == spec_abs(x as int),
{
    if x < 0 {
        -x
    } else {
        x
    }
}

/// Returns `2 * |x|`. Beyond the minimum-integer edge case inherited from
/// [`get_abs`], the doubled result must itself be representable.
pub fn double_abs(x: i32) -> (r: i32)
    requires
        x != i32::MIN,
        2 * spec_abs(x as int) <= i32::MAX,
    ensures
        r == 2 * spec_abs(x as int),
{
    let a = get_abs(x);
    2 * a
}

} // verus!
