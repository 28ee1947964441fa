use vstd::prelude::*;

verus! {

/// Relies on `rand::thread_rng` and `rand::Rng::gen_range` over the inclusive
/// range `0..=num`: the sample is drawn uniformly from that range, so the
/// result never exceeds `num`, and the call cannot panic because the range is
/// never empty.  Nothing more is assumed: two calls on the same input may
/// return different values.
#[verifier::external_body]
pub fn get_rnd(num: usize) -> (r: usize)
    ensures
        r <= num,
{
    let mut rng = rand::thread_rng();
    rand::Rng::gen_range(&mut rng, 0..=num)
}

} // verus!
