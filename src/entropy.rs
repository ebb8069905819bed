//! Seed material from the operating system's secure random source.

use rand::rngs::OsRng;
use rand::RngCore;
use vstd::prelude::*;

verus! {

/// Relies on rand's OsRng::try_fill_bytes, which reports an error instead of
/// panicking when the operating system's random source cannot be read. The
/// bytes themselves are unpredictable, so nothing is stated of them.
#[verifier::external_body]
pub(crate) fn random_bytes(n: usize) -> (r: Option<Vec<u8>>)
    ensures
        r matches Some(v) ==> v@.len() == n,
{
    let mut buf = vec![0u8; n];
    match OsRng.try_fill_bytes(&mut buf) {
        Ok(()) => Some(buf),
        Err(_) => None,
    }
}

} // verus!
