//! The secure random generator that key generation and signing draw from.

use vstd::prelude::*;

verus! {

/// `rand::rngs::ThreadRng`, the handle on the thread-local generator. Its
/// state is hidden: a value of it is only ever passed on.
#[verifier::external_type_specification]
#[verifier::external_body]
pub struct ExThreadRng(rand::rngs::ThreadRng);

/// `rand::thread_rng` hands out the thread-local generator, seeded by the
/// operating system. Nothing is claimed of the value. If the operating
/// system cannot seed the generator, the call panics.
pub assume_specification[ rand::thread_rng ]() -> (generator: rand::rngs::ThreadRng);

} // verus!
