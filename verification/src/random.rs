//! Random draws.
use vstd::prelude::*;

verus! {

/// `random_number::random_inclusively_cmp`, which the crate's `random!`
/// macro stands for when it is given two numbers. The draw depends on the
/// generator's state, so the contract says only what the crate documents of
/// every result: it lies between the two numbers, both included, whichever
/// of them is the larger.
#[verifier::external_body]
pub(crate) fn draw_between(a: usize, b: usize) -> (r: usize)
    ensures
        a <= b ==> a <= r <= b,
        b <= a ==> b <= r <= a,
{
    random_number::random_inclusively_cmp::<usize, usize>(a, b)
}

/// `random_number::random_ranged` on a closed range. It panics on a range
/// whose start lies above its end, which `requires` leaves out. The draw
/// depends on the generator's state, so the contract says only what the
/// crate documents of every result: it lies in the range.
#[verifier::external_body]
pub(crate) fn draw_in_range(min: u32, max: u32) -> (r: u32)
    requires
        min <= max,
    ensures
        min <= r <= max,
{
    random_number::random_ranged(min..=max)
}

} // verus!
