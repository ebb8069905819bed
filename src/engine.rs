//! The signature engine: ephemeral keypairs, signing, verification, and the
//! generate, sign, self-check pipeline that a signing request runs.

use crate::entropy::random_bytes;
use crate::scheme::{
    from_some_seed, generate_raw, keypair_of, sign_raw, signature_of, verifies, verify_raw,
    PUBLIC_KEY_BYTES, SECRET_KEY_BYTES, SEED_BYTES, SIGNATURE_BYTES,
};
use vstd::prelude::*;

verus! {

/// Why the engine could not produce a signing result.
#[derive(Debug, Clone, Copy, PartialEq, Eq, Structural)]
pub enum EngineError {
    /// No usable randomness was supplied for key generation.
    EngineUnavailable,
    /// A fresh signature failed to verify under its own fresh public key.
    EngineInvariantViolation,
}

/// An ephemeral Dilithium2 keypair. The secret key never leaves this type.
pub struct KeyPair {
    public: Vec<u8>,
    secret: Vec<u8>,
}

/// A signature produced by [`sign`].
pub struct Signature {
    bytes: Vec<u8>,
}

/// What a signing request reports: the encoded public key and signature,
/// their sizes, and the outcome of the self-check.
pub struct SigningResult {
    pub public_key_bytes: Vec<u8>,
    pub signature_bytes: Vec<u8>,
    pub verified: bool,
    pub public_key_size: usize,
    pub signature_size: usize,
}

impl KeyPair {
    /// The encoded public key.
    pub closed spec fn public_key(&self) -> Seq<u8> {
        self.public@
    }

    /// The encoded secret key.
    pub closed spec fn secret_key(&self) -> Seq<u8> {
        self.secret@
    }

    /// Both keys have the scheme's lengths.
    pub open spec fn wf(&self) -> bool {
        &&& self.public_key().len() == PUBLIC_KEY_BYTES
        &&& self.secret_key().len() == SECRET_KEY_BYTES
    }
}

impl Signature {
    /// The encoded signature.
    pub closed spec fn bytes(&self) -> Seq<u8> {
        self.bytes@
    }
}

impl SigningResult {
    /// The result reports this public key and signature, sizes that are the
    /// lengths of the encoded fields, and a successful self-check.
    pub open spec fn reports(&self, public: Seq<u8>, signature: Seq<u8>) -> bool {
        &&& self.public_key_bytes@ == public
        &&& self.signature_bytes@ == signature
        &&& self.verified
        &&& self.public_key_size == self.public_key_bytes@.len()
        &&& self.signature_size == self.signature_bytes@.len()
        &&& self.public_key_size == PUBLIC_KEY_BYTES
        &&& self.signature_size == SIGNATURE_BYTES
    }
}

/// What the pipeline owes for a message signed with the given (public,
/// secret) keys: the result when the signature verifies under the public key,
/// the invariant violation when it does not.
pub open spec fn pipeline_outcome(
    keys: (Seq<u8>, Seq<u8>),
    message: Seq<u8>,
    r: Result<SigningResult, EngineError>,
) -> bool {
    let signature = signature_of(keys.1, message);
    match r {
        Ok(res) => verifies(keys.0, message, signature) && res.reports(keys.0, signature),
        Err(e) => !verifies(keys.0, message, signature) && e
            == EngineError::EngineInvariantViolation,
    }
}

/// A fresh keypair from a seed drawn from the operating system's secure
/// random source; the request fails with `EngineUnavailable` when that source
/// cannot be read.
pub fn generate_keypair() -> (r: Result<KeyPair, EngineError>)
    ensures
        match r {
            Ok(kp) => kp.wf() && from_some_seed(kp.public_key(), kp.secret_key()),
            Err(e) => e == EngineError::EngineUnavailable,
        },
{
    let entropy = random_bytes(SEED_BYTES);
    match &entropy {
        Some(e) => generate_keypair_from_entropy(Some(e.as_slice())),
        None => generate_keypair_from_entropy(None),
    }
}

/// A keypair from seed bytes supplied by a random source. A missing seed, or
/// one of another length than the scheme's seed, means the source was not
/// usable.
pub fn generate_keypair_from_entropy(entropy: Option<&[u8]>) -> (r: Result<KeyPair, EngineError>)
    ensures
        match entropy {
            Some(e) if e@.len() == SEED_BYTES => match r {
                Ok(kp) => kp.wf() && (kp.public_key(), kp.secret_key()) == keypair_of(e@),
                Err(_) => false,
            },
            _ => r == Err::<KeyPair, EngineError>(EngineError::EngineUnavailable),
        },
{
    match entropy {
        Some(e) => {
            if e.len() == SEED_BYTES {
                let (public, secret) = generate_raw(e);
                Ok(KeyPair { public, secret })
            } else {
                Err(EngineError::EngineUnavailable)
            }
        },
        None => Err(EngineError::EngineUnavailable),
    }
}

/// Signs a message, which may be empty, with the keypair's secret key.
pub fn sign(kp: &KeyPair, message: &[u8]) -> (sig: Signature)
    requires
        kp.wf(),
    ensures
        sig.bytes() == signature_of(kp.secret_key(), message@),
        sig.bytes().len() == SIGNATURE_BYTES,
{
    Signature { bytes: sign_raw(kp.secret.as_slice(), message) }
}

/// Checks an encoded signature over a message against an encoded public key.
/// A key or signature of the wrong length is simply not valid.
pub fn verify(public_key: &[u8], message: &[u8], signature: &[u8]) -> (r: bool)
    ensures
        r == (public_key@.len() == PUBLIC_KEY_BYTES && verifies(
            public_key@,
            message@,
            signature@,
        )),
        signature@.len() != SIGNATURE_BYTES ==> !r,
{
    if public_key.len() != PUBLIC_KEY_BYTES {
        return false;
    }
    verify_raw(public_key, message, signature)
}

/// The canonical encoding of the keypair's public key.
pub fn encode_public_key(kp: &KeyPair) -> (r: Vec<u8>)
    ensures
        r@ == kp.public_key(),
{
    kp.public.clone()
}

/// The canonical encoding of a signature.
pub fn encode_signature(sig: &Signature) -> (r: Vec<u8>)
    ensures
        r@ == sig.bytes(),
{
    sig.bytes.clone()
}

/// Signs the message with the given keypair and checks the signature against
/// the keypair's public key. A signature that does not verify is reported as
/// an invariant violation, never as an ordinary result.
pub fn sign_and_verify_with(kp: &KeyPair, message: &[u8]) -> (r: Result<SigningResult, EngineError>)
    requires
        kp.wf(),
    ensures
        pipeline_outcome((kp.public_key(), kp.secret_key()), message@, r),
{
    let signature = sign(kp, message);
    let public_key_bytes = encode_public_key(kp);
    let signature_bytes = encode_signature(&signature);
    let verified = verify(public_key_bytes.as_slice(), message, signature_bytes.as_slice());
    if !verified {
        return Err(EngineError::EngineInvariantViolation);
    }
    let public_key_size = public_key_bytes.len();
    let signature_size = signature_bytes.len();
    Ok(SigningResult { public_key_bytes, signature_bytes, verified, public_key_size, signature_size })
}

/// The signing pipeline with a seed from an injected random source: an
/// unusable source fails the request before anything is signed.
pub fn sign_and_verify_from_entropy(entropy: Option<&[u8]>, message: &[u8]) -> (r: Result<
    SigningResult,
    EngineError,
>)
    ensures
        match entropy {
            Some(e) if e@.len() == SEED_BYTES => pipeline_outcome(keypair_of(e@), message@, r),
            _ => r == Err::<SigningResult, EngineError>(EngineError::EngineUnavailable),
        },
{
    let kp = match generate_keypair_from_entropy(entropy) {
        Ok(kp) => kp,
        Err(e) => return Err(e),
    };
    sign_and_verify_with(&kp, message)
}

/// The signing pipeline on a keypair from a fresh random seed. When the
/// random source cannot be read the request fails with `EngineUnavailable`;
/// otherwise the outcome is the one owed for the keypair of some seed.
pub fn sign_and_verify(message: &[u8]) -> (r: Result<SigningResult, EngineError>)
    ensures
        r matches Err(EngineError::EngineUnavailable) || exists|s: Seq<u8>|
            s.len() == SEED_BYTES && pipeline_outcome(#[trigger] keypair_of(s), message@, r),
{
    let entropy = random_bytes(SEED_BYTES);
    match &entropy {
        Some(e) => {
            let r = sign_and_verify_from_entropy(Some(e.as_slice()), message);
            proof {
                assert(pipeline_outcome(keypair_of(e@), message@, r));
            }
            r
        },
        None => sign_and_verify_from_entropy(None, message),
    }
}

} // verus!
