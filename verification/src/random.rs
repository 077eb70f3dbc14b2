//! The source of random bytes.

use vstd::prelude::*;

verus! {

/// Calls `rand::random::<u8>()`, which samples the thread-local generator.
/// Nothing is claimed of the byte: every value can come back, and two calls
/// need not agree. (`rand` panics if the operating system cannot seed the
/// generator.)
#[verifier::external_body]
pub(crate) fn random_byte() -> (byte: u8) {
    rand::random::<u8>()
}

} // verus!
