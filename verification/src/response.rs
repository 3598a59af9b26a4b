//! What a request is answered with, and the errors of the relay.

use vstd::prelude::*;

verus! {

/// Status of a request that was served.
pub const STATUS_OK: u16 = 200;

/// Status of a request that addressed an unregistered user.
pub const STATUS_NOT_FOUND: u16 = 404;

/// Status of a request whose live stream was found closed.
pub const STATUS_INTERNAL_SERVER_ERROR: u16 = 500;

/// An answer to a request: a status code and a body of text.
#[derive(Debug)]
pub struct Response {
    pub status: u16,
    pub body: String,
}

/// The mathematical value of a [`Response`].
pub struct ResponseView {
    pub status: int,
    pub body: Seq<char>,
}

impl View for Response {
    type V = ResponseView;

    open spec fn view(&self) -> ResponseView {
        ResponseView { status: self.status as int, body: self.body@ }
    }
}

/// What can go wrong while a message is relayed.
#[derive(Debug)]
pub enum RelayError {
    /// The addressed user is not registered.
    NotFound,
    /// The user's conduit is closed; the text says what the channel reported.
    ChannelClosed(String),
    /// Stored subscription keys cannot be decoded.
    Encoding,
    /// The push provider could not be reached, or refused the request.
    Delivery,
}

} // verus!
