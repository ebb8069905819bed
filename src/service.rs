//! What the signing service answers, built from the engine's results, and the
//! configuration it starts with.

use crate::engine::{sign_and_verify_from_entropy, EngineError, SigningResult};
use crate::entropy::random_bytes;
use crate::hex_text::{bytes_of_hex, hex_of, lemma_hex_len, lemma_hex_round_trip, to_hex};
use crate::scheme::{keypair_of, signature_of, verifies, PUBLIC_KEY_BYTES, SEED_BYTES, SIGNATURE_BYTES};
use vstd::prelude::*;
use vstd::string::{StringExecFns, StringSliceAdditionalSpecFns};

verus! {

/// The answer to a signing request.
pub struct SignResponse {
    pub success: bool,
    pub public_key: String,
    pub signature: String,
    pub public_key_size: usize,
    pub signature_size: usize,
    pub verified: bool,
    pub message: String,
}

/// The answer to a liveness probe.
pub struct HealthResponse {
    pub status: String,
    pub service: String,
    pub version: String,
    pub environment: String,
}

/// Where the service listens and which deployment it reports, fixed at start.
pub struct ServerConfig {
    pub host: String,
    pub port: String,
    pub environment: String,
}

/// The value that was looked up, or the default when there was none.
pub open spec fn or_default(v: Option<String>, default: Seq<char>) -> Seq<char> {
    match v {
        Some(s) => s@,
        None => default,
    }
}

fn string_or(v: Option<String>, default: &str) -> (r: String)
    ensures
        r@ == or_default(v, default@),
{
    match v {
        Some(s) => s,
        None => default.to_string(),
    }
}

/// The response for a signing result that passed its self-check: the key and
/// signature in lowercase hex, with the sizes and the message as given.
pub fn sign_response(message: &str, result: &SigningResult) -> (r: SignResponse)
    requires
        result.verified,
    ensures
        r.success,
        r.public_key@ == hex_of(result.public_key_bytes@),
        r.signature@ == hex_of(result.signature_bytes@),
        r.public_key_size == result.public_key_size,
        r.signature_size == result.signature_size,
        r.verified == result.verified,
        r.message@ == message@,
{
    SignResponse {
        success: true,
        public_key: to_hex(result.public_key_bytes.as_slice()),
        signature: to_hex(result.signature_bytes.as_slice()),
        public_key_size: result.public_key_size,
        signature_size: result.signature_size,
        verified: result.verified,
        message: message.to_string(),
    }
}

/// What a signing request for the message owes with the given (public,
/// secret) keys: a successful response carrying the hex-encoded public key
/// and signature when the signature verifies, the invariant violation when it
/// does not.
pub open spec fn answers(
    keys: (Seq<u8>, Seq<u8>),
    message: &str,
    r: Result<SignResponse, EngineError>,
) -> bool {
    let m = message.spec_bytes();
    let signature = signature_of(keys.1, m);
    match r {
        Ok(resp) => {
            &&& verifies(keys.0, m, signature)
            &&& resp.success
            &&& resp.verified
            &&& resp.message@ == message@
            &&& resp.public_key@ == hex_of(keys.0)
            &&& resp.signature@ == hex_of(signature)
            &&& resp.public_key_size == keys.0.len()
            &&& resp.signature_size == signature.len()
            &&& resp.public_key_size == PUBLIC_KEY_BYTES
            &&& resp.signature_size == SIGNATURE_BYTES
        },
        Err(e) => !verifies(keys.0, m, signature) && e == EngineError::EngineInvariantViolation,
    }
}

/// A successful response's hex fields decode to byte strings whose lengths
/// are the reported sizes.
pub open spec fn decodes_to_sizes(resp: SignResponse) -> bool {
    &&& resp.public_key@.len() == 2 * resp.public_key_size
    &&& resp.signature@.len() == 2 * resp.signature_size
    &&& bytes_of_hex(resp.public_key@).len() == resp.public_key_size
    &&& bytes_of_hex(resp.signature@).len() == resp.signature_size
    &&& resp.public_key@ == hex_of(bytes_of_hex(resp.public_key@))
    &&& resp.signature@ == hex_of(bytes_of_hex(resp.signature@))
}

/// Signs the message's UTF-8 bytes under the keypair of a seed supplied by a
/// random source and builds the response. A missing seed, or one of another
/// length than the scheme's, fails the request with `EngineUnavailable`.
pub fn sign_message_with_entropy(message: &str, entropy: Option<&[u8]>) -> (r: Result<
    SignResponse,
    EngineError,
>)
    ensures
        match entropy {
            Some(e) if e@.len() == SEED_BYTES => answers(keypair_of(e@), message, r),
            _ => r == Err::<SignResponse, EngineError>(EngineError::EngineUnavailable),
        },
        r matches Ok(resp) ==> decodes_to_sizes(resp),
{
    let bytes = message.as_bytes();
    match sign_and_verify_from_entropy(entropy, bytes) {
        Ok(result) => {
            let resp = sign_response(message, &result);
            proof {
                lemma_hex_len(result.public_key_bytes@);
                lemma_hex_len(result.signature_bytes@);
                lemma_hex_round_trip(result.public_key_bytes@);
                lemma_hex_round_trip(result.signature_bytes@);
            }
            Ok(resp)
        },
        Err(e) => Err(e),
    }
}

/// Signs the message's UTF-8 bytes under the keypair of a fresh seed from the
/// operating system's secure random source and builds the response. When that
/// source cannot be read the request fails with `EngineUnavailable`; otherwise
/// the outcome is the one owed for the keypair of some seed, so an error means
/// that keypair failed its own self-check over these bytes.
pub fn sign_message(message: &str) -> (r: Result<SignResponse, EngineError>)
    ensures
        r matches Err(EngineError::EngineUnavailable) || exists|s: Seq<u8>|
            s.len() == SEED_BYTES && answers(#[trigger] keypair_of(s), message, r),
        r matches Ok(resp) ==> decodes_to_sizes(resp) && verifies(
            bytes_of_hex(resp.public_key@),
            message.spec_bytes(),
            bytes_of_hex(resp.signature@),
        ),
{
    let entropy = random_bytes(SEED_BYTES);
    match &entropy {
        Some(e) => {
            let r = sign_message_with_entropy(message, Some(e.as_slice()));
            proof {
                assert(answers(keypair_of(e@), message, r));
                if r is Ok {
                    lemma_hex_round_trip(keypair_of(e@).0);
                    lemma_hex_round_trip(signature_of(keypair_of(e@).1, message.spec_bytes()));
                }
            }
            r
        },
        None => sign_message_with_entropy(message, None),
    }
}

/// The liveness payload; the environment name defaults to "development".
pub fn health_response(environment: Option<String>) -> (r: HealthResponse)
    ensures
        r.status@ == "healthy"@,
        r.service@ == "Dilithium Signature API"@,
        r.version@ == "1.0.0"@,
        r.environment@ == or_default(environment, "development"@),
{
    HealthResponse {
        status: "healthy".to_string(),
        service: "Dilithium Signature API".to_string(),
        version: "1.0.0".to_string(),
        environment: string_or(environment, "development"),
    }
}

impl ServerConfig {
    /// Assembles the configuration from looked-up values, with the defaults
    /// "0.0.0.0", "8080" and "production" for those that are missing.
    pub fn from_lookups(host: Option<String>, port: Option<String>, environment: Option<String>) -> (r: Self)
        ensures
            r.host@ == or_default(host, "0.0.0.0"@),
            r.port@ == or_default(port, "8080"@),
            r.environment@ == or_default(environment, "production"@),
    {
        ServerConfig {
            host: string_or(host, "0.0.0.0"),
            port: string_or(port, "8080"),
            environment: string_or(environment, "production"),
        }
    }

    /// The address to bind, as "host:port".
    pub fn bind_address(&self) -> (r: String)
        ensures
            r@ == self.host@ + ":"@ + self.port@,
    {
        let mut r = self.host.clone();
        r.append(":");
        r.append(self.port.as_str());
        r
    }
}

} // verus!
