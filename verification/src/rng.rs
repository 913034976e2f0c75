//! The one place the library draws randomness.

use rand::RngCore;
use rand::rngs::OsRng;
use vstd::prelude::*;

verus! {

/// Relies on rand::rngs::OsRng::fill_bytes: 32 bytes from the operating
/// system's entropy source. Nothing is assumed of the value.
#[verifier::external_body]
pub fn random_bytes_32() -> [u8; 32] {
    let mut b = [0u8; 32];
    OsRng.fill_bytes(&mut b);
    b
}

} // verus!
