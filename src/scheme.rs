//! The Dilithium2 scheme, as provided by the crystals-dilithium crate.
//!
//! Keys and signatures cross this boundary as plain byte strings in the
//! scheme's canonical layout.

use crystals_dilithium::dilithium2::{Keypair, PublicKey, SecretKey};
use vstd::prelude::*;

verus! {

/// Length of the seed that determines a keypair.
pub const SEED_BYTES: usize = 32;

/// Length of an encoded Dilithium2 public key.
pub const PUBLIC_KEY_BYTES: usize = 1312;

/// Length of an encoded Dilithium2 secret key.
pub const SECRET_KEY_BYTES: usize = 2528;

/// Length of an encoded Dilithium2 signature.
pub const SIGNATURE_BYTES: usize = 2420;

/// The encoded (public, secret) keypair that a seed determines.
pub uninterp spec fn keypair_of(seed: Seq<u8>) -> (Seq<u8>, Seq<u8>);

/// The deterministic signature of a message under an encoded secret key.
pub uninterp spec fn signature_of(secret: Seq<u8>, message: Seq<u8>) -> Seq<u8>;

/// Whether a signature is valid for a message under an encoded public key.
pub uninterp spec fn verifies(public: Seq<u8>, message: Seq<u8>, signature: Seq<u8>) -> bool;

/// The keys come from some seed of the scheme's seed length.
pub open spec fn from_some_seed(public: Seq<u8>, secret: Seq<u8>) -> bool {
    exists|k: Seq<u8>| k.len() == SEED_BYTES && (public, secret) == #[trigger] keypair_of(k)
}

/// Relies on dilithium2::Keypair::generate given a seed, then
/// PublicKey::to_bytes and SecretKey::to_bytes. The seed is copied into a
/// 32-byte buffer, so it must be that long; the keys are a function of it and
/// come out as fixed-size arrays.
#[verifier::external_body]
pub(crate) fn generate_raw(seed: &[u8]) -> (r: (Vec<u8>, Vec<u8>))
    requires
        seed@.len() == SEED_BYTES,
    ensures
        r.0@.len() == PUBLIC_KEY_BYTES,
        r.1@.len() == SECRET_KEY_BYTES,
        (r.0@, r.1@) == keypair_of(seed@),
{
    let keypair = Keypair::generate(Some(seed));
    (keypair.public.to_bytes().to_vec(), keypair.secret.to_bytes().to_vec())
}

/// Relies on dilithium2::SecretKey::from_bytes (which panics unless given
/// exactly the secret key length) and SecretKey::sign, which signs
/// deterministically and returns a fixed-size array.
#[verifier::external_body]
pub(crate) fn sign_raw(secret: &[u8], message: &[u8]) -> (r: Vec<u8>)
    requires
        secret@.len() == SECRET_KEY_BYTES,
    ensures
        r@ == signature_of(secret@, message@),
        r@.len() == SIGNATURE_BYTES,
{
    SecretKey::from_bytes(secret).sign(message).to_vec()
}

/// Relies on dilithium2::PublicKey::from_bytes (which panics unless given
/// exactly the public key length) and PublicKey::verify, which returns false
/// at once for a signature of any other length than the scheme's.
#[verifier::external_body]
pub(crate) fn verify_raw(public: &[u8], message: &[u8], signature: &[u8]) -> (r: bool)
    requires
        public@.len() == PUBLIC_KEY_BYTES,
    ensures
        r == verifies(public@, message@, signature@),
        signature@.len() != SIGNATURE_BYTES ==> !r,
{
    PublicKey::from_bytes(public).verify(message, signature)
}

} // verus!
