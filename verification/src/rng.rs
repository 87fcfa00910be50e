//! The random sources the library draws on: a shuffled order for the queue and salt bytes
//! for request authentication.
use vstd::prelude::*;
use rand::rngs::ThreadRng;
use rand::seq::SliceRandom;
use rand::Rng;

verus! {

#[verifier::external_type_specification]
#[verifier::external_body]
pub struct ExThreadRng(rand::rngs::ThreadRng);

/// Calls `rand::thread_rng`, the lazily seeded generator of the current thread. Nothing is
/// stated of its state.
#[verifier::external_body]
pub(crate) fn thread_rng() -> ThreadRng {
    rand::thread_rng()
}

/// Calls `SliceRandom::shuffle` on the vector's slice. The claim is that the result holds the
/// same elements as before, each as often: the source only swaps elements in place. Which
/// order comes out depends on the generator and is not stated.
#[verifier::external_body]
pub(crate) fn shuffle(v: &mut Vec<usize>, rng: &mut ThreadRng)
    ensures
        final(v)@.to_multiset() == old(v)@.to_multiset(),
{
    v.shuffle(rng)
}

/// Calls `Rng::gen` for an array of eight bytes. Nothing is stated of the bytes: they are
/// random.
#[verifier::external_body]
pub(crate) fn random_bytes(rng: &mut ThreadRng) -> [u8; 8] {
    rng.gen()
}

} // verus!
