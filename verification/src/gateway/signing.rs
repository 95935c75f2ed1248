//! The signature that the exchange asks of each request.

use vstd::prelude::*;
use vstd::string::{StringExecFns, StringSliceAdditionalSpecFns};
use base64::engine::general_purpose::STANDARD;
use base64::Engine;
use hmac::digest::InvalidLength;
use hmac::{Hmac, Mac};
use sha2::Sha256;

verus! {

/// `hmac::digest::InvalidLength`: the refusal of a key for its length,
/// carried as it is.
#[verifier::external_type_specification]
#[verifier::external_body]
pub struct ExInvalidLength(hmac::digest::InvalidLength);

/// The HMAC-SHA256 authentication code of `message` under `key`.
pub uninterp spec fn hmac_sha256_code(key: Seq<u8>, message: Seq<u8>) -> Seq<u8>;

/// The base64 text of `bytes`, in the standard alphabet with padding.
pub uninterp spec fn base64_standard_text(bytes: Seq<u8>) -> Seq<char>;

/// `Hmac::<Sha256>::new_from_slice`, `chain_update`, `finalize` and
/// `into_bytes` of the crate `hmac`: the authentication code of `message`
/// under `key`. The code depends on the two alone and has the 32 bytes of a
/// SHA-256 output. The crate accepts a key of any length, so no key is
/// refused.
#[verifier::external_body]
fn hmac_sha256(key: &[u8], message: &[u8]) -> (code: Result<Vec<u8>, InvalidLength>)
    ensures
        code is Ok,
        code->Ok_0@ == hmac_sha256_code(key@, message@),
        code->Ok_0@.len() == 32,
{
    let mac = Hmac::<Sha256>::new_from_slice(key)?;
    Ok(mac.chain_update(message).finalize().into_bytes().to_vec())
}

/// `Engine::encode` of the crate `base64`, on its `STANDARD` engine: the
/// text depends on the bytes alone. The crate panics where the length of the
/// text does not fit in `usize`; such inputs are left out.
#[verifier::external_body]
fn base64_encode(bytes: &[u8]) -> (text: String)
    requires
        bytes@.len() / 3 * 4 + 4 <= usize::MAX,
    ensures
        text@ == base64_standard_text(bytes@),
{
    STANDARD.encode(bytes)
}

/// Why a request could not be signed.
#[derive(Clone, Copy, Debug, PartialEq, Eq, Structural)]
pub enum SigningError {
    /// The secret cannot serve as a key.
    InvalidKeyLength,
}

/// The text that is signed for a request: the time, the method, the path
/// with its query, and the body, one after the other.
pub open spec fn signed_text(
    timestamp: Seq<char>,
    method: Seq<char>,
    request_path: Seq<char>,
    body: Seq<char>,
) -> Seq<char> {
    timestamp + method + request_path + body
}

/// The text that is signed for a request.
pub fn sign_message(
    timestamp: &str,
    method: &str,
    request_path: &str,
    body: &str,
) -> (message: String)
    ensures
        message@ == signed_text(timestamp@, method@, request_path@, body@),
{
    let mut message = timestamp.to_owned();
    message.append(method);
    message.append(request_path);
    message.append(body);
    message
}

/// The signature of a request: the base64 text of the HMAC-SHA256 code of
/// the signed text under the secret. Every request can be signed.
pub fn sign_request(
    secret_key: &str,
    timestamp: &str,
    method: &str,
    request_path: &str,
    body: &str,
) -> (signature: Result<String, SigningError>)
    ensures
        signature is Ok,
        signature->Ok_0@ == base64_standard_text(
            hmac_sha256_code(
                secret_key.spec_bytes(),
                vstd::utf8::encode_utf8(signed_text(timestamp@, method@, request_path@, body@)),
            ),
        ),
{
    let message = sign_message(timestamp, method, request_path, body);
    match hmac_sha256(secret_key.as_bytes(), message.as_str().as_bytes()) {
        Ok(code) => Ok(base64_encode(code.as_slice())),
        Err(_) => Err(SigningError::InvalidKeyLength),
    }
}

} // verus!
