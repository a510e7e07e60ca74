//! The handshake: connect, authenticate, subscribe.
//!
//! After the service has confirmed the connection, the client sends
//! its credential and then one request for all its subscriptions. Each
//! step is confirmed by status messages, which may arrive in batches
//! and mixed with event data; the client counts them.

use vstd::prelude::*;
use vstd::string::StringExecFns;
use vstd::string::StringSliceAdditionalSpecFns;

use crate::error::EventError;
use crate::error::EventErrorView;
use crate::error::Fault;
use crate::events::channel::Frame;
use crate::events::channel::FrameView;
use crate::events::channel::Received;
use crate::events::channel::ReceivedView;
use crate::events::codec::decoded_messages;
use crate::events::codec::spec_message;
use crate::events::codec::spec_status;
use crate::events::codec::writes_status;
use crate::events::codec::spec_text_field;
use crate::events::codec::status_from_members;
use crate::events::codec::text_field;
use crate::events::codec::Members;
use crate::events::stream::Code;
use crate::events::stream::MessageView;
use crate::events::stream::Status;
use crate::events::stream::StatusView;
use crate::events::subscription::Subscription;
use crate::json::array_elements;
use crate::json::error_text;
use crate::json::json_elements;
use crate::json::json_members;
use crate::json::is_plain;
use crate::json::spec_quoted;
use crate::json::object_members;
use crate::json::pairs;
use crate::json::quoted;
use crate::json::texts;
use crate::text::text_eq;

verus! {

/// What a request asks for.
#[derive(Clone, Copy, Debug, PartialEq, Eq, Structural)]
pub enum Action {
    /// To accept a credential.
    Authenticate,
    /// To send the events of some subscriptions.
    Subscribe,
}

/// A request of the handshake.
#[derive(Clone, Debug, PartialEq, Eq)]
pub struct Request {
    pub action: Action,
    pub params: String,
}

/// What a [`Request`] holds, as mathematical values.
pub struct RequestView {
    pub action: Action,
    pub params: Seq<char>,
}

impl View for Request {
    type V = RequestView;

    open spec fn view(&self) -> RequestView {
        RequestView { action: self.action, params: self.params@ }
    }
}

impl RequestView {
    /// The JSON text of the request: an object with the members
    /// `action` and `params`, in this order and without white space.
    /// The parameter stands between two quotes as it is, where none of
    /// its characters needs an escape.
    pub open spec fn json(self) -> Seq<char> {
        let head = match self.action {
            Action::Authenticate => "{\"action\":\"auth\",\"params\":"@,
            Action::Subscribe => "{\"action\":\"subscribe\",\"params\":"@,
        };
        head + spec_quoted(self.params) + "}"@
    }
}

impl Request {
    pub fn new(action: Action, params: String) -> (request: Self)
        ensures
            request@ == (RequestView { action, params: params@ }),
            request.action == action,
            request.params == params,
    {
        Self { action, params }
    }

    /// The request as the JSON text that is sent.
    pub fn to_json(&self) -> (json: String)
        ensures
            json@ == self@.json(),
    {
        let mut json = match self.action {
            Action::Authenticate => String::from_str("{\"action\":\"auth\",\"params\":"),
            Action::Subscribe => String::from_str("{\"action\":\"subscribe\",\"params\":"),
        };
        let params = quoted(self.params.as_str());
        json.append(params.as_str());
        json.append("}");
        json
    }
}

/// A parameter without characters that need an escape is sent as it
/// is: the request is the fixed text up to the parameter, the
/// parameter between two quotes, and the closing brace.
pub proof fn lemma_plain_params_are_sent_as_they_are(request: RequestView)
    requires
        is_plain(request.params),
    ensures
        request.action == Action::Authenticate ==> request.json()
            == "{\"action\":\"auth\",\"params\":"@ + "\""@ + request.params + "\""@ + "}"@,
        request.action == Action::Subscribe ==> request.json()
            == "{\"action\":\"subscribe\",\"params\":"@ + "\""@ + request.params + "\""@ + "}"@,
{
    let quoted = "\""@ + request.params + "\""@;
    assert("{\"action\":\"auth\",\"params\":"@ + quoted + "}"@
        =~= "{\"action\":\"auth\",\"params\":"@ + "\""@ + request.params + "\""@ + "}"@);
    assert("{\"action\":\"subscribe\",\"params\":"@ + quoted + "}"@
        =~= "{\"action\":\"subscribe\",\"params\":"@ + "\""@ + request.params + "\""@ + "}"@);
}

/// A message as the handshake reads it: a status in full, event data by
/// its kind alone. Event data may arrive before the status that
/// confirms its subscription; the handshake passes over it.
#[derive(Clone, Debug, PartialEq)]
pub enum Response {
    Status(Status),
    SecondAggregate,
    MinuteAggregate,
    Trade,
    Quote,
}

/// What a [`Response`] holds, as mathematical values.
pub enum ResponseView {
    Status(StatusView),
    SecondAggregate,
    MinuteAggregate,
    Trade,
    Quote,
}

impl View for Response {
    type V = ResponseView;

    open spec fn view(&self) -> ResponseView {
        match self {
            Response::Status(status) => ResponseView::Status(status@),
            Response::SecondAggregate => ResponseView::SecondAggregate,
            Response::MinuteAggregate => ResponseView::MinuteAggregate,
            Response::Trade => ResponseView::Trade,
            Response::Quote => ResponseView::Quote,
        }
    }
}

impl Response {
    /// The status that a control message carries.
    pub fn into_status(self) -> (status: Option<Status>)
        ensures
            match self {
                Response::Status(inner) => status == Some(inner),
                _ => status is None,
            },
    {
        match self {
            Response::Status(status) => Some(status),
            _ => None,
        }
    }
}

/// The response that an object of kind `tag` with the given members
/// makes.
pub open spec fn spec_tagged_response(tag: Seq<char>, members: Members) -> Option<ResponseView> {
    if tag == "status"@ {
        match spec_status(members) {
            Some(status) => Some(ResponseView::Status(status)),
            None => None,
        }
    } else if tag == "A"@ {
        Some(ResponseView::SecondAggregate)
    } else if tag == "AM"@ {
        Some(ResponseView::MinuteAggregate)
    } else if tag == "T"@ {
        Some(ResponseView::Trade)
    } else if tag == "Q"@ {
        Some(ResponseView::Quote)
    } else {
        None
    }
}

/// The response that the JSON text of one array element makes.
pub open spec fn spec_response(text: Seq<char>) -> Option<ResponseView> {
    match json_members(text) {
        Some(members) => match spec_text_field(members, "ev"@) {
            Some(tag) => spec_tagged_response(tag, members),
            None => None,
        },
        None => None,
    }
}

/// The batch that the elements of an array make: every element has to
/// make a response.
pub open spec fn spec_responses(elements: Seq<Seq<char>>) -> Option<Seq<ResponseView>> {
    if forall|i: int| 0 <= i < elements.len() ==> (#[trigger] spec_response(elements[i])) is Some {
        Some(Seq::new(elements.len(), |i: int| spec_response(elements[i]).unwrap()))
    } else {
        None
    }
}

/// The batch of responses that the bytes of one frame hold.
pub open spec fn decoded_responses(bytes: Seq<u8>) -> Option<Seq<ResponseView>> {
    match json_elements(bytes) {
        Some(elements) => spec_responses(elements),
        None => None,
    }
}

/// The views of the responses of a batch.
pub open spec fn response_views(batch: Seq<Response>) -> Seq<ResponseView> {
    Seq::new(batch.len(), |i: int| batch[i]@)
}

/// Makes the response of kind `tag` from the members of an object.
pub fn response_from_members(tag: &str, members: &Vec<(String, String)>) -> (r: Result<
    Response,
    EventError,
>)
    ensures
        match r {
            Ok(response) => spec_tagged_response(tag@, pairs(members@)) == Some(response@),
            Err(error) => spec_tagged_response(tag@, pairs(members@)) is None && error@.fault()
                == Fault::Decode,
        },
{
    if text_eq(tag, "status") {
        Ok(Response::Status(status_from_members(members)?))
    } else if text_eq(tag, "A") {
        Ok(Response::SecondAggregate)
    } else if text_eq(tag, "AM") {
        Ok(Response::MinuteAggregate)
    } else if text_eq(tag, "T") {
        Ok(Response::Trade)
    } else if text_eq(tag, "Q") {
        Ok(Response::Quote)
    } else {
        let mut text = String::from_str("unknown message kind `");
        text.append(tag);
        text.append("`");
        Err(EventError::Decode(text))
    }
}

/// Makes a response from the JSON text of one array element.
pub fn response_from_text(text: &str) -> (r: Result<Response, EventError>)
    ensures
        match r {
            Ok(response) => spec_response(text@) == Some(response@),
            Err(error) => spec_response(text@) is None && error@.fault() == Fault::Decode,
        },
{
    let members = match object_members(text) {
        Ok(members) => members,
        Err(error) => {
            return Err(EventError::Decode(error_text(&error)));
        },
    };
    let tag = text_field(&members, "ev")?;
    response_from_members(tag.as_str(), &members)
}

/// Makes the batch of responses from the elements of an array.
pub fn responses_from_elements(elements: &Vec<String>) -> (r: Result<Vec<Response>, EventError>)
    ensures
        match r {
            Ok(batch) => spec_responses(texts(elements@)) == Some(response_views(batch@)),
            Err(error) => spec_responses(texts(elements@)) is None && error@.fault()
                == Fault::Decode,
        },
{
    let mut batch: Vec<Response> = Vec::new();
    let mut i: usize = 0;
    while i < elements.len()
        invariant
            i <= elements@.len(),
            batch@.len() == i,
            forall|k: int|
                0 <= k < i ==> (#[trigger] spec_response(texts(elements@)[k])) == Some(batch@[k]@),
        decreases elements@.len() - i,
    {
        match response_from_text(elements[i].as_str()) {
            Ok(response) => {
                batch.push(response);
            },
            Err(error) => {
                assert(spec_response(texts(elements@)[i as int]) is None);
                return Err(error);
            },
        }
        i += 1;
    }
    proof {
        assert(spec_responses(texts(elements@)).unwrap() =~= response_views(batch@));
    }
    Ok(batch)
}

/// Decodes the bytes of one frame into a batch of responses.
pub fn decode_responses(bytes: &[u8]) -> (r: Result<Vec<Response>, EventError>)
    ensures
        match r {
            Ok(batch) => decoded_responses(bytes@) == Some(response_views(batch@)),
            Err(error) => decoded_responses(bytes@) is None && error@.fault() == Fault::Decode,
        },
{
    match array_elements(bytes) {
        Ok(elements) => responses_from_elements(&elements),
        Err(error) => Err(EventError::Decode(error_text(&error))),
    }
}

/// A message as the handshake reads it.
pub open spec fn response_of(message: MessageView) -> ResponseView {
    match message {
        MessageView::Status(status) => ResponseView::Status(status),
        MessageView::SecondAggregate(_) => ResponseView::SecondAggregate,
        MessageView::MinuteAggregate(_) => ResponseView::MinuteAggregate,
        MessageView::Trade(_) => ResponseView::Trade,
        MessageView::Quote(_) => ResponseView::Quote,
    }
}

/// The handshake reads a frame as the stream does: where the frame
/// decodes to a batch of messages, it decodes to the responses of
/// those messages; statuses are the same in both.
pub proof fn lemma_responses_of_messages(bytes: Seq<u8>)
    requires
        decoded_messages(bytes) is Some,
    ensures
        decoded_responses(bytes) == Some(
            decoded_messages(bytes).unwrap().map_values(|message: MessageView| response_of(message)),
        ),
{
    let elements = json_elements(bytes).unwrap();
    let messages = decoded_messages(bytes).unwrap();
    assert forall|i: int| 0 <= i < elements.len() implies (#[trigger] spec_response(elements[i]))
        == Some(response_of(messages[i])) by {
        assert(spec_message(elements[i]) is Some);
    }
    assert(spec_responses(elements).unwrap() =~= messages.map_values(
        |message: MessageView| response_of(message),
    ));
}

/// Decoding an array of statuses for the handshake keeps the code and
/// the message of each, in order.
pub proof fn lemma_status_responses_are_kept(elements: Seq<Seq<char>>, statuses: Seq<StatusView>)
    requires
        elements.len() == statuses.len(),
        forall|i: int| 0 <= i < elements.len() ==> writes_status(#[trigger] elements[i], statuses[i]),
    ensures
        spec_responses(elements) == Some(
            Seq::new(statuses.len(), |i: int| ResponseView::Status(statuses[i])),
        ),
{
    assert forall|i: int| 0 <= i < elements.len() implies (#[trigger] spec_response(elements[i]))
        == Some(ResponseView::Status(statuses[i])) by {
        assert(writes_status(elements[i], statuses[i]));
    }
    assert(spec_responses(elements).unwrap() =~= Seq::new(
        statuses.len(),
        |i: int| ResponseView::Status(statuses[i]),
    ));
}

/// The parameter of a subscribe request: the subscriptions' texts,
/// joined by commas.
pub open spec fn spec_params(subscriptions: Seq<Subscription>) -> Seq<char>
    decreases subscriptions.len(),
{
    if subscriptions.len() == 0 {
        Seq::empty()
    } else if subscriptions.len() == 1 {
        subscriptions[0].spec_text()
    } else {
        spec_params(subscriptions.drop_last()) + ","@ + subscriptions.last().spec_text()
    }
}

/// The parameter for two sets of subscriptions, one after the other, is
/// the parameter for the first, a comma, and the parameter for the
/// second: the texts are joined by single commas, in order.
pub proof fn lemma_params_are_joined(first: Seq<Subscription>, second: Seq<Subscription>)
    requires
        first.len() > 0,
        second.len() > 0,
    ensures
        spec_params(first + second) == spec_params(first) + ","@ + spec_params(second),
    decreases second.len(),
{
    let all = first + second;
    assert(all.last() == second.last());
    if second.len() == 1 {
        assert(all.drop_last() =~= first);
        assert(spec_params(second) == second[0].spec_text());
    } else {
        assert(all.drop_last() =~= first + second.drop_last());
        lemma_params_are_joined(first, second.drop_last());
        assert(spec_params(first) + ","@ + spec_params(second.drop_last()) + ","@
            + second.last().spec_text() =~= spec_params(first) + ","@ + (spec_params(
            second.drop_last(),
        ) + ","@ + second.last().spec_text()));
    }
}

/// The text of the error for an empty set of subscriptions.
pub open spec fn spec_nothing_to_subscribe() -> Seq<char> {
    "failed to subscribe to event stream: no subscriptions supplied"@
}

/// Create a request to subscribe to events for certain assets, and say
/// how many confirmations it will draw: one for each subscription.
pub fn make_subscribe_request(subscriptions: Vec<Subscription>) -> (r: Result<
    (Request, usize),
    EventError,
>)
    ensures
        match r {
            Ok((request, count)) => {
                &&& subscriptions@.len() > 0
                &&& request@ == (RequestView {
                    action: Action::Subscribe,
                    params: spec_params(subscriptions@),
                })
                &&& count == subscriptions@.len()
            },
            Err(error) => {
                &&& subscriptions@.len() == 0
                &&& error@ == EventErrorView::Protocol(spec_nothing_to_subscribe())
            },
        },
{
    let count = subscriptions.len();
    if count == 0 {
        let text = String::from_str(
            "failed to subscribe to event stream: no subscriptions supplied",
        );
        return Err(EventError::Protocol(text));
    }
    let mut params = subscriptions[0].to_string();
    proof {
        assert(subscriptions@.take(1) =~= seq![subscriptions@[0]]);
    }
    let mut i: usize = 1;
    while i < count
        invariant
            1 <= i <= count,
            count == subscriptions@.len(),
            params@ == spec_params(subscriptions@.take(i as int)),
        decreases count - i,
    {
        let next = subscriptions[i].to_string();
        params.append(",");
        params.append(next.as_str());
        proof {
            let longer = subscriptions@.take(i as int + 1);
            assert(longer.drop_last() =~= subscriptions@.take(i as int));
            assert(longer.last() == subscriptions@[i as int]);
        }
        i += 1;
    }
    proof {
        assert(subscriptions@.take(count as int) =~= subscriptions@);
    }
    Ok((Request::new(Action::Subscribe, params), count))
}

/// The request that presents the credential, as the JSON text to send.
pub fn auth(api_key: String) -> (json: String)
    ensures
        json@ == (RequestView { action: Action::Authenticate, params: api_key@ }).json(),
{
    let request = Request::new(Action::Authenticate, api_key);
    request.to_json()
}

/// The request for the given subscriptions, as the JSON text to send,
/// and the number of confirmations that it will draw.
pub fn subscribe_stocks(subscriptions: Vec<Subscription>) -> (r: Result<(String, usize), EventError>)
    ensures
        match r {
            Ok((json, count)) => {
                &&& subscriptions@.len() > 0
                &&& json@ == (RequestView {
                    action: Action::Subscribe,
                    params: spec_params(subscriptions@),
                }).json()
                &&& count == subscriptions@.len()
            },
            Err(error) => {
                &&& subscriptions@.len() == 0
                &&& error@ == EventErrorView::Protocol(spec_nothing_to_subscribe())
            },
        },
{
    let (request, count) = make_subscribe_request(subscriptions)?;
    Ok((request.to_json(), count))
}

/// What counting the confirmations of one batch gives: how many are
/// still awaited, or the message of the first status of another code.
/// Responses that are no status are passed over, and so is all that
/// follows the last awaited confirmation.
pub open spec fn spec_confirm(batch: Seq<ResponseView>, expected: Code, count: nat) -> Result<
    nat,
    Seq<char>,
>
    decreases batch.len(),
{
    if count == 0 || batch.len() == 0 {
        Ok(count)
    } else {
        match batch[0] {
            ResponseView::Status(status) => if status.code != expected {
                Err(status.message)
            } else {
                spec_confirm(batch.drop_first(), expected, (count - 1) as nat)
            },
            _ => spec_confirm(batch.drop_first(), expected, count),
        }
    }
}

/// The text of the error for a status of an unexpected code.
pub open spec fn spec_not_successful(operation: Seq<char>, message: Seq<char>) -> Seq<char> {
    operation + " not successful: "@ + message
}

/// What a batch means for an operation that awaits `count`
/// confirmations of the code `expected`.
pub open spec fn spec_checked(
    batch: Seq<ResponseView>,
    expected: Code,
    count: nat,
    operation: Seq<char>,
) -> Result<nat, Fault> {
    match spec_confirm(batch, expected, count) {
        Ok(left) => Ok(left),
        Err(message) => Err(Fault::Protocol(spec_not_successful(operation, message))),
    }
}

/// Counts the confirmations in a decoded batch: returns how many are
/// still awaited, or fails on the first status of another code.
pub fn count_confirmations(
    batch: &Vec<Response>,
    expected: Code,
    count: usize,
    operation: &str,
) -> (r: Result<usize, EventError>)
    requires
        count > 0,
    ensures
        match r {
            Ok(left) => spec_checked(response_views(batch@), expected, count as nat, operation@)
                == Ok::<nat, Fault>(left as nat),
            Err(error) => spec_checked(response_views(batch@), expected, count as nat, operation@)
                == Err::<nat, Fault>(error@.fault()),
        },
{
    let ghost views = response_views(batch@);
    let mut left = count;
    let mut i: usize = 0;
    proof {
        assert(views.skip(0) =~= views);
    }
    while i < batch.len() && left > 0
        invariant
            i <= batch@.len(),
            views == response_views(batch@),
            spec_confirm(views, expected, count as nat) == spec_confirm(
                views.skip(i as int),
                expected,
                left as nat,
            ),
        decreases batch@.len() - i,
    {
        proof {
            assert(views.skip(i as int).drop_first() =~= views.skip(i as int + 1));
            assert(views.skip(i as int)[0] == batch@[i as int]@);
        }
        match &batch[i] {
            Response::Status(status) => {
                if status.code != expected {
                    let mut text = String::from_str(operation);
                    text.append(" not successful: ");
                    text.append(status.message.as_str());
                    return Err(EventError::Protocol(text));
                }
                left -= 1;
            },
            _ => {},
        }
        i += 1;
    }
    Ok(left)
}

/// What the bytes of one frame mean for an operation that awaits
/// `count` confirmations of the code `expected`.
pub open spec fn spec_check(bytes: Seq<u8>, expected: Code, count: nat, operation: Seq<char>) -> Result<
    nat,
    Fault,
> {
    match decoded_responses(bytes) {
        Some(batch) => spec_checked(batch, expected, count, operation),
        None => Err(Fault::Decode),
    }
}

/// Check the response to some operation: decodes the bytes of one
/// frame and counts the confirmations in it.
pub fn check_responses(msg: &[u8], expected: Code, count: usize, operation: &str) -> (r: Result<
    usize,
    EventError,
>)
    requires
        count > 0,
    ensures
        match r {
            Ok(left) => spec_check(msg@, expected, count as nat, operation@) == Ok::<nat, Fault>(
                left as nat,
            ),
            Err(error) => spec_check(msg@, expected, count as nat, operation@) == Err::<
                nat,
                Fault,
            >(error@.fault()),
        },
{
    let batch = decode_responses(msg)?;
    count_confirmations(&batch, expected, count, operation)
}

/// The text of the error for a channel that ends while confirmations
/// are awaited.
pub open spec fn spec_closed_unexpectedly() -> Seq<char> {
    "websocket connection closed unexpectedly"@
}

/// What one read of the channel means for an operation that awaits
/// `count` confirmations of the code `expected`: how many are still
/// awaited and the frame to answer with, if any; or the failure.
pub open spec fn spec_await(
    received: ReceivedView,
    expected: Code,
    count: nat,
    operation: Seq<char>,
) -> Result<(nat, Option<FrameView>), Fault> {
    match received {
        ReceivedView::Exhausted => Err(Fault::Transport(spec_closed_unexpectedly())),
        ReceivedView::Failed(text) => Err(Fault::Transport(text)),
        ReceivedView::Frame(frame) => match frame {
            FrameView::Ping(data) => Ok((count, Some(FrameView::Pong(data)))),
            FrameView::Pong(_) => Ok((count, None)),
            FrameView::Close => Err(Fault::Transport(spec_closed_unexpectedly())),
            _ => match spec_check(frame.payload().unwrap(), expected, count, operation) {
                Ok(left) => Ok((left, None)),
                Err(fault) => Err(fault),
            },
        },
    }
}

/// The view of a frame that may be there.
pub open spec fn reply_view(reply: Option<Frame>) -> Option<FrameView> {
    match reply {
        Some(frame) => Some(frame@),
        None => None,
    }
}

/// The error for a channel that ends while confirmations are awaited.
fn closed_unexpectedly() -> (error: EventError)
    ensures
        error@ == EventErrorView::Transport(spec_closed_unexpectedly()),
{
    EventError::Transport(String::from_str("websocket connection closed unexpectedly"))
}

/// Takes one read of the channel for an operation that awaits `count`
/// confirmations of the code `expected`. A text or binary frame is
/// decoded and its confirmations are counted. A ping is to be answered
/// by a pong of the same data and counts for nothing, as does a pong.
/// A close frame, a failed channel and an exhausted one are failures.
/// Returns how many confirmations are still awaited, zero when the
/// operation is confirmed, and the frame to send before the next read.
pub fn await_responses(received: Received, expected: Code, count: usize, operation: &str) -> (r:
    Result<(usize, Option<Frame>), EventError>)
    requires
        count > 0,
    ensures
        match r {
            Ok((left, reply)) => spec_await(received@, expected, count as nat, operation@) == Ok::<
                (nat, Option<FrameView>),
                Fault,
            >((left as nat, reply_view(reply))),
            Err(error) => spec_await(received@, expected, count as nat, operation@) == Err::<
                (nat, Option<FrameView>),
                Fault,
            >(error@.fault()),
        },
{
    match received {
        Received::Exhausted => Err(closed_unexpectedly()),
        Received::Failed(text) => Err(EventError::Transport(text)),
        Received::Frame(frame) => match frame {
            Frame::Text(text) => {
                let left = check_responses(text.as_str().as_bytes(), expected, count, operation)?;
                Ok((left, None))
            },
            Frame::Binary(data) => {
                let left = check_responses(data.as_slice(), expected, count, operation)?;
                Ok((left, None))
            },
            Frame::Ping(data) => Ok((count, Some(Frame::Pong(data)))),
            Frame::Pong(_) => Ok((count, None)),
            Frame::Close => Err(closed_unexpectedly()),
        },
    }
}

/// Where a handshake stands and what it still holds for the steps to
/// come.
#[derive(Debug)]
enum State {
    Connecting { api_key: String, subscriptions: Vec<Subscription> },
    Authenticating { subscriptions: Vec<Subscription> },
    Subscribing { remaining: usize },
}

/// A handshake under way. It awaits the confirmation of the
/// connection, of the credential or of the subscriptions.
#[derive(Debug)]
pub struct Handshake {
    state: State,
}

/// Where a handshake stands, as mathematical values.
pub enum HandshakeView {
    /// The service has yet to confirm the connection.
    Connecting { api_key: Seq<char>, subscriptions: Seq<Subscription> },
    /// The credential was sent; the service has yet to accept it.
    Authenticating { subscriptions: Seq<Subscription> },
    /// The subscriptions were sent; `remaining` of them are yet to be
    /// confirmed.
    Subscribing { remaining: nat },
}

impl HandshakeView {
    /// A handshake never awaits zero confirmations.
    pub open spec fn wf(self) -> bool {
        self matches HandshakeView::Subscribing { remaining } ==> remaining > 0
    }

    /// The status code that confirms the current step.
    pub open spec fn expected(self) -> Code {
        match self {
            HandshakeView::Connecting { .. } => Code::Connected,
            HandshakeView::Authenticating { .. } => Code::AuthSuccess,
            HandshakeView::Subscribing { .. } => Code::Success,
        }
    }

    /// The name of the current step in error texts.
    pub open spec fn operation(self) -> Seq<char> {
        match self {
            HandshakeView::Connecting { .. } => "connection"@,
            HandshakeView::Authenticating { .. } => "authentication"@,
            HandshakeView::Subscribing { .. } => "subscription"@,
        }
    }

    /// The number of confirmations that the current step still awaits.
    pub open spec fn awaited(self) -> nat {
        match self {
            HandshakeView::Connecting { .. } => 1,
            HandshakeView::Authenticating { .. } => 1,
            HandshakeView::Subscribing { remaining } => remaining,
        }
    }

    /// The handshake after its current step was confirmed, with the
    /// request to send; or the end of the handshake.
    pub open spec fn confirmed(self) -> StepView {
        match self {
            HandshakeView::Connecting { api_key, subscriptions } => StepView::Send(
                FrameView::Text(
                    (RequestView { action: Action::Authenticate, params: api_key }).json(),
                ),
                HandshakeView::Authenticating { subscriptions },
            ),
            HandshakeView::Authenticating { subscriptions } => if subscriptions.len() == 0 {
                StepView::Failed(Fault::Protocol(spec_nothing_to_subscribe()))
            } else {
                StepView::Send(
                    FrameView::Text(
                        (RequestView {
                            action: Action::Subscribe,
                            params: spec_params(subscriptions),
                        }).json(),
                    ),
                    HandshakeView::Subscribing { remaining: subscriptions.len() },
                )
            },
            HandshakeView::Subscribing { .. } => StepView::Done,
        }
    }

    /// The handshake with `left` confirmations of its current step
    /// still awaited.
    pub open spec fn awaiting(self, left: nat) -> HandshakeView {
        match self {
            HandshakeView::Subscribing { .. } => HandshakeView::Subscribing { remaining: left },
            _ => self,
        }
    }

    /// What the handshake does with one read of the channel.
    pub open spec fn step(self, received: ReceivedView) -> StepView {
        match spec_await(received, self.expected(), self.awaited(), self.operation()) {
            Err(fault) => StepView::Failed(fault),
            Ok((left, reply)) => if left == 0 {
                self.confirmed()
            } else {
                match reply {
                    Some(frame) => StepView::Send(frame, self.awaiting(left)),
                    None => StepView::Receive(self.awaiting(left)),
                }
            },
        }
    }
}

impl View for Handshake {
    type V = HandshakeView;

    closed spec fn view(&self) -> HandshakeView {
        match self.state {
            State::Connecting { api_key, subscriptions } => HandshakeView::Connecting {
                api_key: api_key@,
                subscriptions: subscriptions@,
            },
            State::Authenticating { subscriptions } => HandshakeView::Authenticating {
                subscriptions: subscriptions@,
            },
            State::Subscribing { remaining } => HandshakeView::Subscribing {
                remaining: remaining as nat,
            },
        }
    }
}

/// What the caller of a handshake has to do next.
#[derive(Debug)]
pub enum Step {
    /// Read the channel and hand the result to the handshake.
    Receive(Handshake),
    /// Send the frame, then read the channel and hand the result to the
    /// handshake; a failure to send is handed over in place of the
    /// read.
    Send(Frame, Handshake),
    /// The handshake is complete: the channel carries events from now
    /// on.
    Done,
    /// The handshake failed: the connection is of no further use.
    Failed(EventError),
}

/// What a [`Step`] holds, as mathematical values.
pub enum StepView {
    Receive(HandshakeView),
    Send(FrameView, HandshakeView),
    Done,
    Failed(Fault),
}

impl View for Step {
    type V = StepView;

    open spec fn view(&self) -> StepView {
        match self {
            Step::Receive(next) => StepView::Receive(next@),
            Step::Send(frame, next) => StepView::Send(frame@, next@),
            Step::Done => StepView::Done,
            Step::Failed(error) => StepView::Failed(error@.fault()),
        }
    }
}

/// Begins a handshake for the given credential and subscriptions. The
/// caller reads the channel and hands what it reads to
/// [`Handshake::on_received`], step by step.
pub fn handshake(api_key: String, subscriptions: Vec<Subscription>) -> (start: Handshake)
    ensures
        start@ == (HandshakeView::Connecting { api_key: api_key@, subscriptions: subscriptions@ }),
        start@.wf(),
{
    Handshake { state: State::Connecting { api_key, subscriptions } }
}

impl Handshake {
    #[verifier::type_invariant]
    spec fn inv(self) -> bool {
        self.state matches State::Subscribing { remaining } ==> remaining > 0
    }

    /// Takes one read of the channel and says what to do next.
    pub fn on_received(self, received: Received) -> (step: Step)
        ensures
            self@.wf(),
            step@ == self@.step(received@),
    {
        proof {
            use_type_invariant(&self);
        }
        match self.state {
            State::Connecting { api_key, subscriptions } => {
                match await_responses(received, Code::Connected, 1, "connection") {
                    Err(error) => Step::Failed(error),
                    Ok((left, reply)) => if left == 0 {
                        let next = Handshake { state: State::Authenticating { subscriptions } };
                        Step::Send(Frame::Text(auth(api_key)), next)
                    } else {
                        let next = Handshake { state: State::Connecting { api_key, subscriptions } };
                        match reply {
                            Some(frame) => Step::Send(frame, next),
                            None => Step::Receive(next),
                        }
                    },
                }
            },
            State::Authenticating { subscriptions } => {
                match await_responses(received, Code::AuthSuccess, 1, "authentication") {
                    Err(error) => Step::Failed(error),
                    Ok((left, reply)) => if left == 0 {
                        match subscribe_stocks(subscriptions) {
                            Err(error) => Step::Failed(error),
                            Ok((json, count)) => {
                                let next = Handshake {
                                    state: State::Subscribing { remaining: count },
                                };
                                Step::Send(Frame::Text(json), next)
                            },
                        }
                    } else {
                        let next = Handshake { state: State::Authenticating { subscriptions } };
                        match reply {
                            Some(frame) => Step::Send(frame, next),
                            None => Step::Receive(next),
                        }
                    },
                }
            },
            State::Subscribing { remaining } => {
                match await_responses(received, Code::Success, remaining, "subscription") {
                    Err(error) => Step::Failed(error),
                    Ok((left, reply)) => if left == 0 {
                        Step::Done
                    } else {
                        let next = Handshake { state: State::Subscribing { remaining: left } };
                        match reply {
                            Some(frame) => Step::Send(frame, next),
                            None => Step::Receive(next),
                        }
                    },
                }
            },
        }
    }
}

} // verus!
