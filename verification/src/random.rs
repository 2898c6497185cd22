//! The source of random bytes: the thread-local generator of the `rand`
//! crate. Verus takes these two functions on trust; they promise nothing of
//! the bytes drawn.

use vstd::prelude::*;
use rand::rngs::ThreadRng;
use rand::Rng;

verus! {

/// `rand::rngs::ThreadRng`, a value that Verus does not look into.
#[verifier::external_type_specification]
#[verifier::external_body]
pub struct ExThreadRng(rand::rngs::ThreadRng);

/// `rand::thread_rng`: the random number generator of the current thread.
#[verifier::external_body]
pub(crate) fn thread_rng() -> ThreadRng {
    rand::thread_rng()
}

/// `Rng::fill`: overwrites the buffer with random bytes. Nothing is known of
/// them.
#[verifier::external_body]
pub(crate) fn rng_fill(rng: &mut ThreadRng, bytes: &mut [u8; 16]) {
    rng.fill(bytes);
}

} // verus!
