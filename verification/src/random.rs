use vstd::prelude::*;

verus! {

/// Draws one byte from the calling thread's generator: `rand::thread_rng`
/// hands out the generator and `rand::Rng::gen` samples a `u8` from it.
/// Nothing is claimed of the byte: any value may come back, and two calls
/// may differ.
#[verifier::external_body]
pub(crate) fn random_byte() -> (byte: u8) {
    let mut rng = rand::thread_rng();
    rand::Rng::gen::<u8>(&mut rng)
}

} // verus!
