//! Random solution selection. The draw itself comes from the `rand` crate and
//! is taken on trust; everything stated of it is that a draw below `n` stays
//! below `n`, so the picked element and its index always agree.

use rand::Rng;
use vstd::prelude::*;

verus! {

/// Declares rand's thread-local generator type, so that the wrappers below
/// can hold and pass one; the value is opaque here.
#[verifier::external_type_specification]
#[verifier::external_body]
pub struct ExThreadRng(rand::rngs::ThreadRng);

/// Relies on rand::thread_rng: a handle to the thread-local generator.
#[verifier::external_body]
fn fresh_rng() -> rand::rngs::ThreadRng {
    rand::thread_rng()
}

/// Relies on rand::Rng::gen_range over the range `0..n`: it panics on an
/// empty range, and otherwise returns a uniform draw from the range, so the
/// result is below `n`. Nothing more is assumed — the draw depends on the
/// generator's state.
#[verifier::external_body]
fn draw_below(rng: &mut rand::rngs::ThreadRng, n: usize) -> (r: usize)
    requires
        n > 0,
    ensures
        r < n,
{
    rng.gen_range(0..n)
}

/// Draw one element of a non-empty list at random: the element and its index,
/// which agree whatever the generator returned.
pub fn pick<T>(list: &Vec<T>) -> (r: (&T, usize))
    requires
        list@.len() > 0,
    ensures
        r.1 < list@.len(),
        *r.0 == list@[r.1 as int],
{
    let mut rng = fresh_rng();
    let index = draw_below(&mut rng, list.len());
    (&list[index], index)
}

} // verus!
