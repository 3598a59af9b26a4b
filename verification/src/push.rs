//! The push fallback: decoding stored keys and building the encrypted,
//! signed request for a push provider.

use vstd::prelude::*;
use base64ct::{Base64UrlUnpadded, Encoding};
use http::{Request, Uri};
use web_push_native::jwt_simple::algorithms::ES256KeyPair;
use web_push_native::p256::PublicKey;
use web_push_native::{Auth, WebPushBuilder};
use crate::registration::{RegistrationView, UserRegistration, VapidKey};
use crate::response::RelayError;

verus! {

/// Length in bytes of a subscription's authentication secret.
pub const AUTH_SECRET_LEN: usize = 16;

/// Length in bytes of the relay's private signing key.
pub const PRIVATE_KEY_LEN: usize = 32;

/// An address as the `http` crate holds it.
#[verifier::external_type_specification]
#[verifier::external_body]
pub struct ExUri(Uri);

/// A request as the `http` crate holds it.
#[verifier::external_type_specification]
#[verifier::external_body]
#[verifier::reject_recursive_types(T)]
pub struct ExRequest<T>(Request<T>);

/// A P-256 signing key pair as `jwt_simple` holds it.
#[verifier::external_type_specification]
#[verifier::external_body]
pub struct ExKeyPair(ES256KeyPair);

/// What `base64ct` makes of `text` read as unpadded URL-safe Base64: the
/// bytes, or nothing where `text` is no such encoding.
pub uninterp spec fn base64url_decoding(text: Seq<char>) -> Option<Seq<u8>>;

/// Calls `Base64UrlUnpadded::decode_vec` of `base64ct`, which depends on
/// `text` alone; its error is turned into `None`.
#[verifier::external_body]
fn decode_base64url(text: &str) -> (r: Option<Vec<u8>>)
    ensures
        r is Some <==> base64url_decoding(text@) is Some,
        r matches Some(bytes) ==> base64url_decoding(text@) == Some(bytes@),
{
    Base64UrlUnpadded::decode_vec(text).ok()
}

/// Calls `Uri::from_str` of `http` through `str::parse`; its error is turned
/// into `None`. Nothing is claimed of when it succeeds.
#[verifier::external_body]
fn parse_endpoint(endpoint: &str) -> (r: Option<Uri>) {
    endpoint.parse().ok()
}

/// Calls `ES256KeyPair::from_bytes` of `jwt_simple`, which panics unless it is
/// handed 32 bytes; its error is turned into `None`. Nothing is claimed of
/// which 32 bytes it takes for a key.
#[verifier::external_body]
fn signing_key(raw: &Vec<u8>) -> (r: Option<ES256KeyPair>)
    requires
        raw@.len() == PRIVATE_KEY_LEN,
{
    ES256KeyPair::from_bytes(raw).ok()
}

/// Calls `WebPushBuilder::new`, `with_vapid` and `build` of `web_push_native`
/// on a public key read by `PublicKey::from_sec1_bytes` and a secret copied
/// by `Auth::clone_from_slice`, which panics unless it is handed 16 bytes.
/// The request is encrypted under a fresh key and salt and signed with an
/// expiry, so nothing is claimed of it; an error of either call is turned
/// into `None`.
#[verifier::external_body]
fn build_request(
    endpoint: Uri,
    p256dh: &Vec<u8>,
    auth: &Vec<u8>,
    key: &ES256KeyPair,
    subject: &str,
    payload: &str,
) -> (r: Option<Request<Vec<u8>>>)
    requires
        auth@.len() == AUTH_SECRET_LEN,
{
    let ua_public = PublicKey::from_sec1_bytes(p256dh).ok()?;
    let ua_auth = Auth::clone_from_slice(auth);
    WebPushBuilder::new(endpoint, ua_public, ua_auth).with_vapid(key, subject).build(payload).ok()
}

/// The three keys of one push, decoded.
#[derive(Debug)]
pub struct PushKeys {
    pub p256dh: Vec<u8>,
    pub auth: Vec<u8>,
    pub private_key: Vec<u8>,
}

/// The bytes of the three keys.
pub struct PushKeysView {
    pub p256dh: Seq<u8>,
    pub auth: Seq<u8>,
    pub private_key: Seq<u8>,
}

impl View for PushKeys {
    type V = PushKeysView;

    open spec fn view(&self) -> PushKeysView {
        PushKeysView { p256dh: self.p256dh@, auth: self.auth@, private_key: self.private_key@ }
    }
}

/// The keys that three decodings give: all three must have decoded, the
/// secret to 16 bytes and the private key to 32.
pub open spec fn keys_of(
    p256dh: Option<Seq<u8>>,
    auth: Option<Seq<u8>>,
    private_key: Option<Seq<u8>>,
) -> Option<PushKeysView> {
    if p256dh is Some && auth is Some && private_key is Some && auth->0.len() == AUTH_SECRET_LEN
        && private_key->0.len() == PRIVATE_KEY_LEN {
        Some(PushKeysView { p256dh: p256dh->0, auth: auth->0, private_key: private_key->0 })
    } else {
        None
    }
}

/// The decoded keys of a subscription and of the relay.
pub open spec fn decoded_keys(
    p256dh: Seq<char>,
    auth: Seq<char>,
    private_key: Seq<char>,
) -> Option<PushKeysView> {
    keys_of(
        base64url_decoding(p256dh),
        base64url_decoding(auth),
        base64url_decoding(private_key),
    )
}

/// Puts three decodings together, or reports an encoding error where one is
/// missing or the secret or the private key has the wrong length.
pub fn check_keys(
    p256dh: Option<Vec<u8>>,
    auth: Option<Vec<u8>>,
    private_key: Option<Vec<u8>>,
) -> (r: Result<PushKeys, RelayError>)
    ensures
        r is Ok <==> keys_of(bytes_of(p256dh), bytes_of(auth), bytes_of(private_key)) is Some,
        r matches Ok(keys) ==> Some(keys@) == keys_of(
            bytes_of(p256dh),
            bytes_of(auth),
            bytes_of(private_key),
        ),
        r matches Err(e) ==> e is Encoding,
{
    match (p256dh, auth, private_key) {
        (Some(p256dh), Some(auth), Some(private_key)) => {
            if auth.len() == AUTH_SECRET_LEN && private_key.len() == PRIVATE_KEY_LEN {
                Ok(PushKeys { p256dh, auth, private_key })
            } else {
                Err(RelayError::Encoding)
            }
        },
        _ => Err(RelayError::Encoding),
    }
}

/// The bytes held in an optional vector.
pub open spec fn bytes_of(bytes: Option<Vec<u8>>) -> Option<Seq<u8>> {
    match bytes {
        Some(v) => Some(v@),
        None => None,
    }
}

/// Decodes the stored keys of a subscription and the relay's private key.
pub fn decode_keys(p256dh: &str, auth: &str, private_key: &str) -> (r: Result<
    PushKeys,
    RelayError,
>)
    ensures
        r is Ok <==> decoded_keys(p256dh@, auth@, private_key@) is Some,
        r matches Ok(keys) ==> Some(keys@) == decoded_keys(p256dh@, auth@, private_key@),
        r matches Err(e) ==> e is Encoding,
{
    check_keys(decode_base64url(p256dh), decode_base64url(auth), decode_base64url(private_key))
}

/// What became of the push for one message before anything was sent.
#[derive(Debug)]
pub enum PushAttempt {
    /// The user has no push subscription: nothing to do.
    Skipped,
    /// The request could not be prepared; it is given up.
    Failed(RelayError),
    /// The request to post to the provider.
    Ready(Request<Vec<u8>>),
}

impl PushAttempt {
    /// The number of push attempts that this stands for.
    pub open spec fn attempts(self) -> nat {
        if self is Skipped {
            0
        } else {
            1
        }
    }

    /// Whether a push was attempted.
    pub fn attempted(&self) -> (r: bool)
        ensures
            r == (self.attempts() == 1),
    {
        match self {
            PushAttempt::Skipped => false,
            _ => true,
        }
    }
}

/// The attempt that a built request, or the lack of one, stands for.
pub fn attempt_of(built: Option<Request<Vec<u8>>>) -> (r: PushAttempt)
    ensures
        match built {
            Some(request) => r == PushAttempt::Ready(request),
            None => r == PushAttempt::Failed(RelayError::Encoding),
        },
{
    match built {
        Some(request) => PushAttempt::Ready(request),
        None => PushAttempt::Failed(RelayError::Encoding),
    }
}

/// The signing key and the address that one push request is made with.
#[derive(Debug)]
pub struct PushTarget {
    pub key_pair: ES256KeyPair,
    pub endpoint: Uri,
}

/// Puts a signing key and an address together, or reports an encoding error
/// where either was refused.
pub fn target_of(key_pair: Option<ES256KeyPair>, endpoint: Option<Uri>) -> (r: Result<
    PushTarget,
    RelayError,
>)
    ensures
        r is Ok <==> key_pair is Some && endpoint is Some,
        r matches Ok(target) ==> Some(target.key_pair) == key_pair && Some(target.endpoint)
            == endpoint,
        r matches Err(e) ==> e is Encoding,
{
    match (key_pair, endpoint) {
        (Some(key_pair), Some(endpoint)) => Ok(PushTarget { key_pair, endpoint }),
        _ => Err(RelayError::Encoding),
    }
}

/// Builds the encrypted and signed request that carries `payload` to the
/// subscription's endpoint. Keys that do not decode give an encoding error;
/// so does an endpoint or a key that the libraries refuse.
pub fn build_push(
    endpoint: &str,
    p256dh: &str,
    auth: &str,
    vapid: &VapidKey,
    payload: &str,
) -> (r: PushAttempt)
    ensures
        r.attempts() == 1,
        r matches PushAttempt::Failed(e) ==> e is Encoding,
        decoded_keys(p256dh@, auth@, vapid.private_key@) is None ==> r is Failed,
{
    let keys = match decode_keys(p256dh, auth, vapid.private_key.as_str()) {
        Ok(keys) => keys,
        Err(e) => { return PushAttempt::Failed(e); },
    };
    let target = match target_of(signing_key(&keys.private_key), parse_endpoint(endpoint)) {
        Ok(target) => target,
        Err(e) => { return PushAttempt::Failed(e); },
    };
    attempt_of(
        build_request(
            target.endpoint,
            &keys.p256dh,
            &keys.auth,
            &target.key_pair,
            vapid.subject.as_str(),
            payload,
        ),
    )
}

/// The push for `payload` to the user of `record`: skipped where the record
/// holds no subscription, else one attempt.
pub fn prepare_push(record: &UserRegistration, vapid: &VapidKey, payload: &str) -> (r:
    PushAttempt)
    ensures
        r.attempts() == push_attempts(record@),
        r matches PushAttempt::Failed(e) ==> e is Encoding,
        record@.has_push() && decoded_keys(
            record@.p256dh->0,
            record@.auth->0,
            vapid.private_key@,
        ) is None ==> r is Failed,
{
    match (&record.endpoint, &record.p256dh, &record.auth) {
        (Some(endpoint), Some(p256dh), Some(auth)) => build_push(
            endpoint.as_str(),
            p256dh.as_str(),
            auth.as_str(),
            vapid,
            payload,
        ),
        _ => PushAttempt::Skipped,
    }
}

/// The number of push attempts that one message to the user of `record`
/// makes.
pub open spec fn push_attempts(record: RegistrationView) -> nat {
    if record.has_push() {
        1
    } else {
        0
    }
}

/// How a push ended.
#[derive(Debug)]
pub enum PushOutcome {
    /// None was attempted.
    Skipped,
    /// The provider accepted the request.
    Delivered,
    /// The attempt failed, in preparation or in delivery.
    Failed(RelayError),
}

/// What a provider's answer means: `status` is its status code, or nothing
/// where the provider could not be reached.
pub open spec fn outcome_of_status(status: Option<u16>) -> PushOutcome {
    match status {
        Some(code) => if 200 <= code < 300 {
            PushOutcome::Delivered
        } else {
            PushOutcome::Failed(RelayError::Delivery)
        },
        None => PushOutcome::Failed(RelayError::Delivery),
    }
}

/// Judges a provider's answer: a status from 200 to 299 is a delivery,
/// anything else a delivery error.
pub fn push_outcome(status: Option<u16>) -> (r: PushOutcome)
    ensures
        r == outcome_of_status(status),
{
    match status {
        Some(code) => {
            if 200 <= code && code < 300 {
                PushOutcome::Delivered
            } else {
                PushOutcome::Failed(RelayError::Delivery)
            }
        },
        None => PushOutcome::Failed(RelayError::Delivery),
    }
}

} // verus!
