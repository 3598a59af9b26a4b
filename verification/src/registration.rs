//! The records the relay keeps and the messages it is handed.

use vstd::prelude::*;
use tokio::sync::mpsc::Sender;

verus! {

/// Query of a client that opens a stream.
#[derive(Debug)]
pub struct UserInfo {
    pub user_id: String,
}

/// A message addressed to one user.
#[derive(Debug)]
pub struct SendData {
    pub user_id: String,
    pub data: String,
}

/// The key material of a push subscription, as the client encoded it.
#[derive(Debug)]
pub struct UserRegistrationKey {
    pub p256dh: String,
    pub auth: String,
}

/// What a client hands in to register a push subscription.
#[derive(Debug)]
pub struct UserRegistrationRequest {
    pub user_id: String,
    pub endpoint: String,
    pub keys: UserRegistrationKey,
}

/// How one user can be reached: a push subscription, a live stream, both or
/// neither.
#[derive(Debug)]
pub struct UserRegistration {
    pub sse_sender: Option<Sender<String>>,
    pub endpoint: Option<String>,
    pub p256dh: Option<String>,
    pub auth: Option<String>,
}

/// The mathematical value of a [`UserRegistration`].
pub struct RegistrationView {
    pub sse_sender: Option<Sender<String>>,
    pub endpoint: Option<Seq<char>>,
    pub p256dh: Option<Seq<char>>,
    pub auth: Option<Seq<char>>,
}

/// The text held in an optional string.
pub open spec fn text_of(field: Option<String>) -> Option<Seq<char>> {
    match field {
        Some(s) => Some(s@),
        None => None,
    }
}

impl RegistrationView {
    /// A push subscription is present when the endpoint and both keys are.
    pub open spec fn has_push(self) -> bool {
        self.endpoint is Some && self.p256dh is Some && self.auth is Some
    }

    /// A producer handle is attached.
    pub open spec fn has_stream(self) -> bool {
        self.sse_sender is Some
    }

    /// The record that a registration request stands for: its subscription,
    /// and no stream.
    pub open spec fn of_request(request: UserRegistrationRequest) -> RegistrationView {
        RegistrationView {
            sse_sender: None,
            endpoint: Some(request.endpoint@),
            p256dh: Some(request.keys.p256dh@),
            auth: Some(request.keys.auth@),
        }
    }

    /// The same record with `sender` as its producer handle.
    pub open spec fn with_stream(self, sender: Sender<String>) -> RegistrationView {
        RegistrationView { sse_sender: Some(sender), ..self }
    }
}

impl View for UserRegistration {
    type V = RegistrationView;

    open spec fn view(&self) -> RegistrationView {
        RegistrationView {
            sse_sender: self.sse_sender,
            endpoint: text_of(self.endpoint),
            p256dh: text_of(self.p256dh),
            auth: text_of(self.auth),
        }
    }
}

impl UserRegistration {
    /// A record without a subscription and without a stream.
    pub fn bare() -> (r: UserRegistration)
        ensures
            !r@.has_push(),
            !r@.has_stream(),
            r@.endpoint is None,
            r@.p256dh is None,
            r@.auth is None,
    {
        UserRegistration { sse_sender: None, endpoint: None, p256dh: None, auth: None }
    }

    /// Whether the endpoint and both keys are stored.
    pub fn has_push(&self) -> (r: bool)
        ensures
            r == self@.has_push(),
    {
        self.endpoint.is_some() && self.p256dh.is_some() && self.auth.is_some()
    }

    /// Whether a producer handle is attached.
    pub fn has_stream(&self) -> (r: bool)
        ensures
            r == self@.has_stream(),
    {
        self.sse_sender.is_some()
    }
}

impl From<UserRegistrationRequest> for UserRegistration {
    fn from(value: UserRegistrationRequest) -> (r: UserRegistration) {
        UserRegistration {
            sse_sender: None,
            endpoint: Some(value.endpoint),
            p256dh: Some(value.keys.p256dh),
            auth: Some(value.keys.auth),
        }
    }
}

impl vstd::std_specs::convert::FromSpecImpl<UserRegistrationRequest> for UserRegistration {
    open spec fn obeys_from_spec() -> bool {
        true
    }

    open spec fn from_spec(value: UserRegistrationRequest) -> UserRegistration {
        UserRegistration {
            sse_sender: None,
            endpoint: Some(value.endpoint),
            p256dh: Some(value.keys.p256dh),
            auth: Some(value.keys.auth),
        }
    }
}

/// The key pair by which the relay identifies itself to push providers.
#[derive(Debug)]
pub struct VapidKey {
    pub subject: String,
    pub public_key: String,
    pub private_key: String,
}

/// The public half of a [`VapidKey`], which clients need to subscribe.
#[derive(Debug)]
pub struct PushConfig {
    pub subject: String,
    pub public_key: String,
}

impl VapidKey {
    /// The contact subject and the public key; the private key stays behind.
    pub fn push_config(&self) -> (r: PushConfig)
        ensures
            r.subject@ == self.subject@,
            r.public_key@ == self.public_key@,
    {
        PushConfig { subject: self.subject.clone(), public_key: self.public_key.clone() }
    }
}

} // verus!
