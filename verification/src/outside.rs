//! What this library takes on trust from code it does not verify: `rand`'s
//! thread-local generator and one method of `String`.
//!
//! Every contract in this file is believed, not proved.

use vstd::prelude::*;
use rand::rngs::ThreadRng;
use rand::Rng;

verus! {

/// `rand::rngs::ThreadRng`, the handle to the thread-local generator. Its
/// inside is of no concern here: the engine only passes it on.
#[verifier::external_type_specification]
#[verifier::external_body]
pub struct ExThreadRng(rand::rngs::ThreadRng);

/// Gets the handle to the calling thread's generator, by
/// `rand::thread_rng`. `rand` seeds the generator from the operating
/// system the first time a thread asks, and panics if that fails.
///
/// Nothing is claimed of the handle.
#[verifier::external_body]
pub(crate) fn thread_generator() -> ThreadRng {
    rand::thread_rng()
}

/// Draws one byte from a `rand` thread-local generator, by `Rng::gen`.
///
/// Nothing is claimed of the byte: two calls may differ, and every value
/// of a `u8` may come.
#[verifier::external_body]
pub(crate) fn random_byte(rng: &mut ThreadRng) -> u8 {
    rng.gen::<u8>()
}

/// `String::push` appends the character to the end of the string and
/// changes nothing before it.
pub assume_specification[ String::push ](text: &mut String, ch: char)
    ensures
        final(text)@ == old(text)@.push(ch),
;

} // verus!
