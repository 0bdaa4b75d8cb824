//! Authentication of inbound requests: payload signatures and shared secrets.
use vstd::prelude::*;
use crate::errors::ApiError;
use hmac::Mac;
use vstd::string::StringSliceAdditionalSpecFns;

verus! {

/// HMAC-SHA256 of a message under a key.
pub uninterp spec fn hmac_sha256_of(key: Seq<u8>, msg: Seq<u8>) -> Seq<u8>;

/// Relies on `hmac::Hmac::<sha2::Sha256>` (`new_from_slice`, `update`,
/// `finalize`): the 32-byte HMAC-SHA256 of `msg` under `key`. `new_from_slice`
/// accepts keys of any length, so it does not fail.
#[verifier::external_body]
fn hmac_sha256(key: &[u8], msg: &[u8]) -> (r: Vec<u8>)
    ensures
        r@ == hmac_sha256_of(key@, msg@),
        r@.len() == 32,
{
    let mut mac = <hmac::Hmac<sha2::Sha256> as Mac>::new_from_slice(key).unwrap();
    mac.update(msg);
    mac.finalize().into_bytes().to_vec()
}

/// Lower-case hexadecimal digit.
pub open spec fn hex_digit(d: u8) -> char {
    if d < 10 {
        (('0' as u8) + d) as char
    } else {
        (('a' as u8) + d - 10) as char
    }
}

/// Two lower-case hex digits per byte, high nibble first.
pub open spec fn hex_of(b: Seq<u8>) -> Seq<char>
    decreases b.len(),
{
    if b.len() == 0 {
        Seq::empty()
    } else {
        hex_of(b.drop_last()) + seq![hex_digit(b.last() / 16), hex_digit(b.last() % 16)]
    }
}

/// Relies on `hex::encode`: two lower-case hex digits for each byte, in order.
#[verifier::external_body]
fn hex_encode(b: &[u8]) -> (r: String)
    ensures
        r@ == hex_of(b@),
{
    hex::encode(b)
}

/// The signature header expected for a payload: `sha256=` and the hex of its
/// HMAC-SHA256 under the secret.
pub open spec fn signature_of(payload: Seq<u8>, secret: &str) -> Seq<char> {
    "sha256="@ + hex_of(hmac_sha256_of(secret.spec_bytes(), payload))
}

/// The signature header that carries a MAC: `sha256=` and its hex digits.
pub fn signature_header(mac: &[u8]) -> (r: String)
    ensures
        r@ == "sha256="@ + hex_of(mac@),
{
    let hex = hex_encode(mac);
    let mut r = String::from_str("sha256=");
    r.append(hex.as_str());
    r
}

/// The signature header expected for a payload signed with `secret`.
pub fn compute_signature(payload: &[u8], secret: &str) -> (r: String)
    ensures
        r@ == signature_of(payload@, secret),
{
    let mac = hmac_sha256(secret.as_bytes(), payload);
    signature_header(mac.as_slice())
}

/// Accepts a payload whose signature header is present and matches.
pub fn verify_signature(payload: &[u8], secret: &str, header: Option<&str>) -> (r: Result<(), ApiError>)
    ensures
        r is Ok <==> (header matches Some(h) && h@ == signature_of(payload@, secret)),
        r matches Err(e) ==> e is SignatureMismatch,
{
    match header {
        None => Err(ApiError::SignatureMismatch),
        Some(h) => {
            let expected = compute_signature(payload, secret);
            if expected == String::from_str(h) {
                Ok(())
            } else {
                Err(ApiError::SignatureMismatch)
            }
        },
    }
}

/// Whether a header carries exactly the shared secret.
fn secret_matches(header: Option<&str>, secret: &str) -> (r: bool)
    ensures
        r <==> (header matches Some(h) && h@ == secret@),
{
    match header {
        None => false,
        Some(h) => String::from_str(h) == String::from_str(secret),
    }
}

/// Admin requests carry the shared secret in their `Authorization` header.
pub struct SecretValidator;

impl SecretValidator {
    pub fn validate(header: Option<&str>, secret: &str) -> (r: Result<SecretValidator, ApiError>)
        ensures
            r is Ok <==> (header matches Some(h) && h@ == secret@),
            r matches Err(e) ==> e is Auth,
    {
        if secret_matches(header, secret) {
            Ok(SecretValidator)
        } else {
            Err(ApiError::Auth)
        }
    }
}

/// Model-hub webhooks carry the shared secret in their `X-Webhook-Secret` header.
pub struct HfWebhookSecretValidator;

impl HfWebhookSecretValidator {
    pub fn validate(header: Option<&str>, secret: &str) -> (r: Result<HfWebhookSecretValidator, ApiError>)
        ensures
            r is Ok <==> (header matches Some(h) && h@ == secret@),
            r matches Err(e) ==> e is Auth,
    {
        if secret_matches(header, secret) {
            Ok(HfWebhookSecretValidator)
        } else {
            Err(ApiError::Auth)
        }
    }
}

} // verus!
