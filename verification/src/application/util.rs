use rand::Rng;
use vstd::prelude::*;

verus! {

/// Draws a request id: `rand::thread_rng().gen::<u8>()`, a uniformly random byte.
///
/// Any byte can come back, and two calls may give different bytes, so nothing
/// is promised of the result. The call panics only if the operating system's
/// random source fails: when the thread's generator is first seeded, or when it
/// reseeds itself from that source (after every 64 KiB of output, and after a
/// fork).
#[verifier::external_body]
pub fn generate_random_request_id() -> (id: u8) {
    rand::thread_rng().gen::<u8>()
}

} // verus!
