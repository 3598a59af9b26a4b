//! The dispatcher: what one request makes the relay do, and what the client
//! is told.

use vstd::prelude::*;
use tokio::sync::mpsc::{Receiver, Sender};
use crate::conduit::{receiver_bound, sender_bound, CONDUIT_CAPACITY};
use crate::push::{decoded_keys, prepare_push, push_attempts, PushAttempt, PushOutcome};
use crate::registration::{
    RegistrationView,
    SendData,
    UserInfo,
    UserRegistration,
    UserRegistrationRequest,
    VapidKey,
};
use crate::registry::Registry;
use crate::response::{
    RelayError,
    Response,
    ResponseView,
    STATUS_INTERNAL_SERVER_ERROR,
    STATUS_NOT_FOUND,
    STATUS_OK,
};

verus! {

/// What is to be done for one message to a registered user.
#[derive(Debug)]
pub struct SendPlan<'a> {
    /// The push to make, if any.
    pub push: PushAttempt,
    /// The conduit to write to, if a stream is attached.
    pub stream: Option<&'a Sender<String>>,
    /// The payload to write there.
    pub data: String,
}

impl<'a> SendPlan<'a> {
    /// The payloads that this plan hands to the conduit, in order.
    pub open spec fn writes(self) -> Seq<Seq<char>> {
        if self.stream is Some {
            seq![self.data@]
        } else {
            Seq::empty()
        }
    }
}

/// The payloads that one message to `user_id` hands to a conduit, in order:
/// the message itself where the user has a stream, else nothing.
pub open spec fn stream_writes(
    registry: Map<Seq<char>, RegistrationView>,
    user_id: Seq<char>,
    data: Seq<char>,
) -> Seq<Seq<char>> {
    if registry.contains_key(user_id) && registry[user_id].has_stream() {
        seq![data]
    } else {
        Seq::empty()
    }
}

/// The number of push attempts that one message to `user_id` makes: one where
/// the user has a subscription, else none.
pub open spec fn pushes(registry: Map<Seq<char>, RegistrationView>, user_id: Seq<char>) -> nat {
    if registry.contains_key(user_id) {
        push_attempts(registry[user_id])
    } else {
        0
    }
}

/// The payloads that the result of [`send`] hands to a conduit.
pub open spec fn planned_writes(r: Result<SendPlan<'_>, RelayError>) -> Seq<Seq<char>> {
    match r {
        Ok(plan) => plan.writes(),
        Err(_) => Seq::empty(),
    }
}

/// The number of push attempts in the result of [`send`].
pub open spec fn planned_pushes(r: Result<SendPlan<'_>, RelayError>) -> nat {
    match r {
        Ok(plan) => plan.push.attempts(),
        Err(_) => 0,
    }
}

/// Stores the subscription of a registration request under its user, in place
/// of any record the user had, and acknowledges it.
pub fn register(registry: &mut Registry, request: UserRegistrationRequest) -> (r: Response)
    requires
        old(registry).wf(),
    ensures
        final(registry).wf(),
        final(registry)@ == old(registry)@.insert(
            request.user_id@,
            RegistrationView::of_request(request),
        ),
        r@ == (ResponseView { status: STATUS_OK as int, body: "Success"@ }),
{
    let user_id = request.user_id.clone();
    registry.register(user_id, UserRegistration::from(request));
    Response { status: STATUS_OK, body: "Success".to_owned() }
}

/// Opens a stream for a registered user: a fresh conduit whose producing end
/// takes the place of any the record held. An unregistered user is refused and
/// the registry stays as it was.
pub fn sse(registry: &mut Registry, user_info: &UserInfo) -> (r: Result<
    Receiver<String>,
    RelayError,
>)
    requires
        old(registry).wf(),
    ensures
        final(registry).wf(),
        r is Ok <==> old(registry)@.contains_key(user_info.user_id@),
        r matches Err(e) ==> e is NotFound && final(registry)@ == old(registry)@,
        r matches Ok(receiver) ==> {
            &&& receiver_bound(receiver) == CONDUIT_CAPACITY
            &&& final(registry)@.contains_key(user_info.user_id@)
            &&& final(registry)@[user_info.user_id@].sse_sender matches Some(sender)
            &&& sender_bound(sender) == CONDUIT_CAPACITY
            &&& final(registry)@ == old(registry)@.insert(
                user_info.user_id@,
                old(registry)@[user_info.user_id@].with_stream(sender),
            )
        },
{
    registry.attach_stream(&user_info.user_id)
}

/// Plans the delivery of one message. An unregistered user gives `NotFound`
/// and nothing to do. Otherwise the plan holds one push attempt where the user
/// has a subscription, and the user's conduit with the payload where a stream
/// is attached.
pub fn send<'a>(registry: &'a Registry, vapid: &VapidKey, message: SendData) -> (r: Result<
    SendPlan<'a>,
    RelayError,
>)
    requires
        registry.wf(),
    ensures
        r is Ok <==> registry@.contains_key(message.user_id@),
        r matches Err(e) ==> e is NotFound,
        planned_writes(r) == stream_writes(registry@, message.user_id@, message.data@),
        planned_pushes(r) == pushes(registry@, message.user_id@),
        r matches Ok(plan) ==> {
            &&& plan.data@ == message.data@
            &&& plan.stream is Some <==> registry@[message.user_id@].has_stream()
            &&& plan.stream matches Some(sender) ==> Some(*sender)
                == registry@[message.user_id@].sse_sender
            &&& plan.push matches PushAttempt::Failed(e) ==> e is Encoding
            &&& registry@[message.user_id@].has_push() && decoded_keys(
                registry@[message.user_id@].p256dh->0,
                registry@[message.user_id@].auth->0,
                vapid.private_key@,
            ) is None ==> plan.push is Failed
        },
{
    let record = match registry.lookup(&message.user_id) {
        Ok(record) => record,
        Err(e) => { return Err(e); },
    };
    let push = prepare_push(record, vapid, message.data.as_str());
    Ok(SendPlan { push, stream: record.sse_sender.as_ref(), data: message.data })
}

/// What became of the write to the user's conduit.
#[derive(Debug)]
pub enum StreamDelivery {
    /// No stream was attached: nothing was written.
    NoStream,
    /// The conduit took the payload.
    Delivered,
    /// The conduit was closed; the text says what the channel reported.
    Closed(String),
}

/// The answer to a message for a registered user. It goes by the stream
/// alone: how the push ended changes nothing.
pub open spec fn response_of(push: PushOutcome, delivery: StreamDelivery) -> ResponseView {
    match delivery {
        StreamDelivery::NoStream => ResponseView {
            status: STATUS_OK as int,
            body: "Sent without sending event due to no channel available."@,
        },
        StreamDelivery::Delivered => ResponseView { status: STATUS_OK as int, body: "Sent"@ },
        StreamDelivery::Closed(detail) => ResponseView {
            status: STATUS_INTERNAL_SERVER_ERROR as int,
            body: detail@,
        },
    }
}

/// Answers a message for a registered user once the push and the write to
/// the stream have ended.
pub fn send_response(push: PushOutcome, delivery: StreamDelivery) -> (r: Response)
    ensures
        r@ == response_of(push, delivery),
{
    match delivery {
        StreamDelivery::NoStream => Response {
            status: STATUS_OK,
            body: "Sent without sending event due to no channel available.".to_owned(),
        },
        StreamDelivery::Delivered => Response { status: STATUS_OK, body: "Sent".to_owned() },
        StreamDelivery::Closed(detail) => Response {
            status: STATUS_INTERNAL_SERVER_ERROR,
            body: detail,
        },
    }
}

/// Answers a message for an unregistered user.
pub fn not_found_response() -> (r: Response)
    ensures
        r@ == (ResponseView { status: STATUS_NOT_FOUND as int, body: "User not found"@ }),
{
    Response { status: STATUS_NOT_FOUND, body: "User not found".to_owned() }
}

/// The error that a failed write to the stream is surfaced as.
pub fn stream_error(delivery: &StreamDelivery) -> (r: Option<RelayError>)
    ensures
        match *delivery {
            StreamDelivery::Closed(detail) => r matches Some(RelayError::ChannelClosed(text))
                && text@ == detail@,
            _ => r is None,
        },
{
    match delivery {
        StreamDelivery::Closed(detail) => Some(RelayError::ChannelClosed(detail.clone())),
        _ => None,
    }
}

/// A message to a user with a stream hands the payload to that stream's
/// conduit once, and nothing else.
pub proof fn lemma_stream_gets_payload_once(
    registry: Map<Seq<char>, RegistrationView>,
    user_id: Seq<char>,
    data: Seq<char>,
)
    requires
        registry.contains_key(user_id),
        registry[user_id].has_stream(),
    ensures
        stream_writes(registry, user_id, data).len() == 1,
        stream_writes(registry, user_id, data)[0] == data,
{
}

/// A message to an unregistered user makes no push attempt and no stream
/// write.
pub proof fn lemma_unknown_user_is_left_alone(
    registry: Map<Seq<char>, RegistrationView>,
    user_id: Seq<char>,
    data: Seq<char>,
)
    requires
        !registry.contains_key(user_id),
    ensures
        pushes(registry, user_id) == 0,
        stream_writes(registry, user_id, data).len() == 0,
{
}

/// A message to a user with a subscription and no stream makes one push
/// attempt and no stream write, and is answered with success however the push
/// ended.
pub proof fn lemma_fallback_reports_success(
    registry: Map<Seq<char>, RegistrationView>,
    user_id: Seq<char>,
    data: Seq<char>,
    push: PushOutcome,
)
    requires
        registry.contains_key(user_id),
        registry[user_id].has_push(),
        !registry[user_id].has_stream(),
    ensures
        pushes(registry, user_id) == 1,
        stream_writes(registry, user_id, data).len() == 0,
        response_of(push, StreamDelivery::NoStream).status == STATUS_OK,
{
}

/// Messages sent one after another to a user with a stream are handed to its
/// conduit in the order in which they were sent, none dropped and none added.
pub proof fn lemma_writes_keep_order(
    registry: Map<Seq<char>, RegistrationView>,
    user_id: Seq<char>,
    messages: Seq<Seq<char>>,
)
    requires
        registry.contains_key(user_id),
        registry[user_id].has_stream(),
    ensures
        all_writes(registry, user_id, messages) == messages,
    decreases messages.len(),
{
    if messages.len() > 0 {
        lemma_writes_keep_order(registry, user_id, messages.drop_last());
        assert(messages.drop_last().push(messages.last()) =~= messages);
    }
}

/// The payloads that `messages`, sent to `user_id` one after another against
/// the same registry, hand to the conduit.
pub open spec fn all_writes(
    registry: Map<Seq<char>, RegistrationView>,
    user_id: Seq<char>,
    messages: Seq<Seq<char>>,
) -> Seq<Seq<char>>
    decreases messages.len(),
{
    if messages.len() == 0 {
        Seq::empty()
    } else {
        all_writes(registry, user_id, messages.drop_last()) + stream_writes(
            registry,
            user_id,
            messages.last(),
        )
    }
}

} // verus!
