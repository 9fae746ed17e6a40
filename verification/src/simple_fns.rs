//! A few small functions on integers and strings.

use vstd::prelude::*;
use vstd::string::StringExecFns;

verus! {

/// Adds one to `a`.
pub fn returns_unit(a: &mut u32)
    requires
        *old(a) < u32::MAX,
    ensures
        *final(a) == *old(a) + 1,
{
    *a += 1;
}

pub fn returns_42u32() -> (r: u32)
    ensures
        r == 42,
{
    42
}

pub fn divisible_by_three(a: u32) -> (r: bool)
    ensures
        r == (a % 3 == 0),
{
    a % 3 == 0
}

/// Return `s` repeated twice.
pub fn double_string(s: &str) -> (r: String)
    ensures
        r@ == s@ + s@,
{
    let mut r = s.to_owned();
    r.append(s);
    r
}

} // verus!
