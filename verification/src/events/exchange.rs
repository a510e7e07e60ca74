//! Whole exchanges of the handshake: what holds of a handshake that is
//! fed one read after another.

use vstd::prelude::*;

use crate::error::Fault;
use crate::events::channel::FrameView;
use crate::events::channel::ReceivedView;
use crate::events::handshake::decoded_responses;
use crate::events::handshake::spec_confirm;
use crate::events::handshake::spec_not_successful;
use crate::events::handshake::spec_nothing_to_subscribe;
use crate::events::handshake::spec_params;
use crate::events::handshake::Action;
use crate::events::handshake::HandshakeView;
use crate::events::handshake::RequestView;
use crate::events::handshake::ResponseView;
use crate::events::handshake::StepView;
use crate::events::stream::Code;
use crate::events::stream::StatusView;
use crate::events::subscription::Subscription;

verus! {

/// The number of statuses in a batch.
pub open spec fn status_count(batch: Seq<ResponseView>) -> nat
    decreases batch.len(),
{
    if batch.len() == 0 {
        0
    } else if batch[0] is Status {
        1 + status_count(batch.drop_first())
    } else {
        status_count(batch.drop_first())
    }
}

/// Whether every status of a batch has the code `code`.
pub open spec fn only_code(batch: Seq<ResponseView>, code: Code) -> bool {
    forall|i: int|
        0 <= i < batch.len() ==> (#[trigger] batch[i] matches ResponseView::Status(status)
            ==> status.code == code)
}

/// `count` less `taken`, and zero where `taken` is the larger.
pub open spec fn less(count: nat, taken: nat) -> nat {
    if count >= taken {
        (count - taken) as nat
    } else {
        0
    }
}

/// In a batch whose statuses all have the expected code, each status
/// is one confirmation, whatever event data stands between them.
pub proof fn lemma_confirm_counts(batch: Seq<ResponseView>, expected: Code, count: nat)
    requires
        only_code(batch, expected),
    ensures
        spec_confirm(batch, expected, count) == Ok::<nat, Seq<char>>(
            less(count, status_count(batch)),
        ),
    decreases batch.len(),
{
    if count == 0 || batch.len() == 0 {
    } else {
        let rest = batch.drop_first();
        assert forall|i: int| 0 <= i < rest.len() implies (#[trigger] rest[i]
            matches ResponseView::Status(status) ==> status.code == expected) by {
            assert(rest[i] == batch[i + 1]);
        }
        assert(batch[0] matches ResponseView::Status(status) ==> status.code == expected);
        match batch[0] {
            ResponseView::Status(_) => {
                lemma_confirm_counts(rest, expected, (count - 1) as nat);
            },
            _ => {
                lemma_confirm_counts(rest, expected, count);
            },
        }
    }
}

/// Event data put anywhere into a batch changes nothing in what the
/// batch confirms.
pub proof fn lemma_data_is_passed_over(
    batch: Seq<ResponseView>,
    at: int,
    data: ResponseView,
    expected: Code,
    count: nat,
)
    requires
        0 <= at <= batch.len(),
        !(data is Status),
    ensures
        spec_confirm(batch.insert(at, data), expected, count) == spec_confirm(
            batch,
            expected,
            count,
        ),
    decreases at,
{
    let longer = batch.insert(at, data);
    if count == 0 {
    } else if at == 0 {
        assert(longer.drop_first() =~= batch);
    } else {
        assert(longer[0] == batch[0]);
        assert(longer.drop_first() =~= batch.drop_first().insert(at - 1, data));
        lemma_data_is_passed_over(batch.drop_first(), at - 1, data, expected, count);
        lemma_data_is_passed_over(batch.drop_first(), at - 1, data, expected, (count - 1) as nat);
    }
}

/// How a handshake stands after some reads.
pub enum RunView {
    /// It awaits further reads.
    Pending(HandshakeView),
    /// It is complete.
    Done,
    /// It failed.
    Failed(Fault),
}

/// A handshake after some reads: how it stands, and the frames that it
/// had its caller send, in order.
pub struct Run {
    pub end: RunView,
    pub sent: Seq<FrameView>,
}

/// What a step leaves of a handshake.
pub open spec fn settled(step: StepView) -> RunView {
    match step {
        StepView::Receive(next) => RunView::Pending(next),
        StepView::Send(_, next) => RunView::Pending(next),
        StepView::Done => RunView::Done,
        StepView::Failed(fault) => RunView::Failed(fault),
    }
}

/// The frames that a step has the caller send.
pub open spec fn sent_by(step: StepView) -> Seq<FrameView> {
    match step {
        StepView::Send(frame, _) => seq![frame],
        _ => Seq::empty(),
    }
}

/// The handshake after the given reads, taken in order. No read is
/// taken once the handshake is complete or has failed.
pub open spec fn run(start: HandshakeView, reads: Seq<ReceivedView>) -> Run
    decreases reads.len(),
{
    if reads.len() == 0 {
        Run { end: RunView::Pending(start), sent: Seq::empty() }
    } else {
        let step = start.step(reads[0]);
        match settled(step) {
            RunView::Pending(next) => {
                let rest = run(next, reads.drop_first());
                Run { end: rest.end, sent: sent_by(step) + rest.sent }
            },
            end => Run { end, sent: sent_by(step) },
        }
    }
}

/// The answer that a read asks for: a pong of the same data for a
/// ping, and nothing for anything else.
pub open spec fn answer(read: ReceivedView) -> Seq<FrameView> {
    match read {
        ReceivedView::Frame(FrameView::Ping(data)) => seq![FrameView::Pong(data)],
        _ => Seq::empty(),
    }
}

/// The answers that the reads ask for, in order.
pub open spec fn answers(reads: Seq<ReceivedView>) -> Seq<FrameView>
    decreases reads.len(),
{
    if reads.len() == 0 {
        Seq::empty()
    } else {
        answer(reads[0]) + answers(reads.drop_first())
    }
}

/// The number of confirmations of the code `code` that a read brings,
/// where it brings nothing that fails a handshake awaiting them: a
/// text or binary frame that decodes to a batch whose statuses all
/// have that code brings as many as it has statuses; a ping and a pong
/// bring none.
pub open spec fn confirmations(read: ReceivedView, code: Code) -> Option<nat> {
    match read {
        ReceivedView::Frame(FrameView::Ping(_)) => Some(0),
        ReceivedView::Frame(FrameView::Pong(_)) => Some(0),
        ReceivedView::Frame(FrameView::Close) => None,
        ReceivedView::Frame(frame) => match decoded_responses(frame.payload().unwrap()) {
            Some(batch) => if only_code(batch, code) {
                Some(status_count(batch))
            } else {
                None
            },
            None => None,
        },
        _ => None,
    }
}

/// Whether the reads bring `count` confirmations of the code `code`
/// and nothing that fails a handshake awaiting them, the last of the
/// confirmations with the last read.
pub open spec fn completes(reads: Seq<ReceivedView>, code: Code, count: nat) -> bool
    decreases reads.len(),
{
    reads.len() > 0 && match confirmations(reads[0], code) {
        None => false,
        Some(brought) => if brought >= count {
            reads.len() == 1
        } else {
            completes(reads.drop_first(), code, (count - brought) as nat)
        },
    }
}

/// A read that brings confirmations of the awaited code moves the
/// handshake on by as many: to its next step when all have come, and
/// else to awaiting the rest. Nothing is sent but the request of the
/// next step and the answer to a ping.
pub proof fn lemma_step_counts(handshake: HandshakeView, read: ReceivedView)
    requires
        handshake.wf(),
        confirmations(read, handshake.expected()) is Some,
    ensures
        ({
            let brought = confirmations(read, handshake.expected()).unwrap();
            let step = handshake.step(read);
            if brought >= handshake.awaited() {
                step == handshake.confirmed() && answer(read) == Seq::<FrameView>::empty()
            } else {
                &&& settled(step) == RunView::Pending(
                    handshake.awaiting((handshake.awaited() - brought) as nat),
                )
                &&& sent_by(step) == answer(read)
            }
        }),
{
    match read {
        ReceivedView::Frame(FrameView::Ping(_)) => {},
        ReceivedView::Frame(FrameView::Pong(_)) => {},
        ReceivedView::Frame(frame) => {
            let batch = decoded_responses(frame.payload().unwrap()).unwrap();
            lemma_confirm_counts(batch, handshake.expected(), handshake.awaited());
        },
        _ => {},
    }
}

/// A handshake that has taken some reads and is left pending goes on
/// from there with the reads that follow.
pub proof fn lemma_run_append(start: HandshakeView, first: Seq<ReceivedView>, then: Seq<ReceivedView>)
    ensures
        run(start, first + then) == match run(start, first).end {
            RunView::Pending(next) => Run {
                end: run(next, then).end,
                sent: run(start, first).sent + run(next, then).sent,
            },
            _ => run(start, first),
        },
    decreases first.len(),
{
    if first.len() == 0 {
        assert(first + then =~= then);
        assert(Seq::<FrameView>::empty() + run(start, then).sent =~= run(start, then).sent);
    } else {
        assert((first + then)[0] == first[0]);
        assert((first + then).drop_first() =~= first.drop_first() + then);
        let step = start.step(first[0]);
        match settled(step) {
            RunView::Pending(next) => {
                lemma_run_append(next, first.drop_first(), then);
                match run(next, first.drop_first()).end {
                    RunView::Pending(after) => {
                        assert(sent_by(step) + (run(next, first.drop_first()).sent + run(
                            after,
                            then,
                        ).sent) =~= sent_by(step) + run(next, first.drop_first()).sent + run(
                            after,
                            then,
                        ).sent);
                    },
                    _ => {},
                }
            },
            _ => {},
        }
    }
}

/// Reads that bring the confirmations that a step awaits, and nothing
/// that fails it, take the handshake to its next step. On the way each
/// ping is answered, and at the end the request of the next step is
/// sent; nothing else is.
pub proof fn lemma_step_completes(handshake: HandshakeView, reads: Seq<ReceivedView>)
    requires
        handshake.wf(),
        completes(reads, handshake.expected(), handshake.awaited()),
    ensures
        run(handshake, reads) == (Run {
            end: settled(handshake.confirmed()),
            sent: answers(reads) + sent_by(handshake.confirmed()),
        }),
    decreases reads.len(),
{
    let brought = confirmations(reads[0], handshake.expected()).unwrap();
    let rest = reads.drop_first();
    lemma_step_counts(handshake, reads[0]);
    if brought >= handshake.awaited() {
        assert(rest.len() == 0);
        assert(answers(reads) =~= Seq::<FrameView>::empty());
        let step = handshake.confirmed();
        assert(answers(reads) + sent_by(step) =~= sent_by(step));
        match settled(step) {
            RunView::Pending(next) => {
                assert(run(next, rest) == Run { end: RunView::Pending(next), sent: Seq::empty() });
                assert(sent_by(step) + run(next, rest).sent =~= sent_by(step));
            },
            _ => {},
        }
    } else {
        let next = handshake.awaiting((handshake.awaited() - brought) as nat);
        assert(next.confirmed() == handshake.confirmed());
        lemma_step_completes(next, rest);
        assert(answer(reads[0]) + (answers(rest) + sent_by(handshake.confirmed())) =~= answers(
            reads,
        ) + sent_by(handshake.confirmed()));
    }
}

/// The frame that carries the credential.
pub open spec fn auth_frame(api_key: Seq<char>) -> FrameView {
    FrameView::Text((RequestView { action: Action::Authenticate, params: api_key }).json())
}

/// The frame that carries the one request for all the subscriptions.
pub open spec fn subscribe_frame(subscriptions: Seq<Subscription>) -> FrameView {
    FrameView::Text(
        (RequestView { action: Action::Subscribe, params: spec_params(subscriptions) }).json(),
    )
}

/// A handshake succeeds on every exchange in which the service
/// confirms the connection, then the credential, then each of the
/// subscriptions, whatever event data, pings and pongs come between.
/// The client sends the credential when the connection is confirmed
/// and one request for all subscriptions when the credential is
/// accepted; besides these it sends only the answers to pings.
pub proof fn lemma_handshake_completes(
    api_key: Seq<char>,
    subscriptions: Seq<Subscription>,
    connect: Seq<ReceivedView>,
    authenticate: Seq<ReceivedView>,
    subscribe: Seq<ReceivedView>,
)
    requires
        subscriptions.len() > 0,
        completes(connect, Code::Connected, 1),
        completes(authenticate, Code::AuthSuccess, 1),
        completes(subscribe, Code::Success, subscriptions.len()),
    ensures
        run(
            HandshakeView::Connecting { api_key, subscriptions },
            connect + authenticate + subscribe,
        ) == (Run {
            end: RunView::Done,
            sent: answers(connect) + seq![auth_frame(api_key)] + answers(authenticate)
                + seq![subscribe_frame(subscriptions)] + answers(subscribe),
        }),
{
    let connecting = HandshakeView::Connecting { api_key, subscriptions };
    let authenticating = HandshakeView::Authenticating { subscriptions };
    let subscribing = HandshakeView::Subscribing { remaining: subscriptions.len() };
    lemma_step_completes(connecting, connect);
    lemma_step_completes(authenticating, authenticate);
    lemma_step_completes(subscribing, subscribe);
    lemma_run_append(authenticating, authenticate, subscribe);
    lemma_run_append(connecting, connect, authenticate + subscribe);
    assert(connect + (authenticate + subscribe) =~= connect + authenticate + subscribe);
    assert(answers(connect) + seq![auth_frame(api_key)] + (answers(authenticate)
        + seq![subscribe_frame(subscriptions)] + (answers(subscribe) + Seq::<FrameView>::empty()))
        =~= answers(connect) + seq![auth_frame(api_key)] + answers(authenticate)
        + seq![subscribe_frame(subscriptions)] + answers(subscribe));
}

/// While fewer confirmations have come than a step awaits, the
/// handshake awaits the rest: it is not complete before the last one.
pub proof fn lemma_step_awaits_all(handshake: HandshakeView, read: ReceivedView)
    requires
        handshake.wf(),
        confirmations(read, handshake.expected()) is Some,
        confirmations(read, handshake.expected()).unwrap() < handshake.awaited(),
    ensures
        run(handshake, seq![read]).end == RunView::Pending(
            handshake.awaiting(
                (handshake.awaited() - confirmations(read, handshake.expected()).unwrap()) as nat,
            ),
        ),
{
    lemma_step_counts(handshake, read);
    let reads = seq![read];
    let next = handshake.awaiting(
        (handshake.awaited() - confirmations(read, handshake.expected()).unwrap()) as nat,
    );
    assert(reads[0] == read);
    assert(reads.drop_first().len() == 0);
    assert(run(next, reads.drop_first()).end == RunView::Pending(next));
}

/// After the credential is accepted, a handshake with subscriptions
/// sends one request that names them all and then awaits one
/// confirmation for each.
pub proof fn lemma_one_request_for_all(subscriptions: Seq<Subscription>)
    requires
        subscriptions.len() >= 1,
    ensures
        (HandshakeView::Authenticating { subscriptions }).confirmed() == StepView::Send(
            subscribe_frame(subscriptions),
            HandshakeView::Subscribing { remaining: subscriptions.len() },
        ),
        (HandshakeView::Subscribing { remaining: subscriptions.len() }).awaited()
            == subscriptions.len(),
{
}

/// The status that decides a batch: the first one, where no status
/// stands before it.
pub open spec fn first_status(batch: Seq<ResponseView>, at: int, status: StatusView) -> bool {
    &&& 0 <= at < batch.len()
    &&& batch[at] == ResponseView::Status(status)
    &&& forall|k: int| 0 <= k < at ==> !(#[trigger] batch[k] is Status)
}

/// A batch whose first status has another code than the expected one
/// fails with that status's message.
pub proof fn lemma_first_status_fails(
    batch: Seq<ResponseView>,
    at: int,
    status: StatusView,
    expected: Code,
    count: nat,
)
    requires
        count > 0,
        first_status(batch, at, status),
        status.code != expected,
    ensures
        spec_confirm(batch, expected, count) == Err::<nat, Seq<char>>(status.message),
    decreases at,
{
    if at > 0 {
        let rest = batch.drop_first();
        assert(!(batch[0] is Status));
        assert(rest[at - 1] == batch[at]);
        assert forall|k: int| 0 <= k < at - 1 implies !(#[trigger] rest[k] is Status) by {
            assert(rest[k] == batch[k + 1]);
        }
        lemma_first_status_fails(rest, at - 1, status, expected, count);
    }
}

/// Where the service answers the credential with the status
/// `auth_failed`, the handshake fails with a protocol error whose text
/// ends in the service's message; it sends nothing and takes no
/// further read.
pub proof fn lemma_rejected_credential_fails(
    subscriptions: Seq<Subscription>,
    frame: FrameView,
    batch: Seq<ResponseView>,
    at: int,
    message: Seq<char>,
    later: Seq<ReceivedView>,
)
    requires
        frame is Text || frame is Binary,
        decoded_responses(frame.payload().unwrap()) == Some(batch),
        first_status(batch, at, StatusView { code: Code::AuthFailure, message }),
    ensures
        ({
            let text = spec_not_successful("authentication"@, message);
            &&& run(
                HandshakeView::Authenticating { subscriptions },
                seq![ReceivedView::Frame(frame)] + later,
            ) == (Run { end: RunView::Failed(Fault::Protocol(text)), sent: Seq::empty() })
            &&& text.len() >= message.len()
            &&& text.subrange(text.len() - message.len(), text.len() as int) == message
        }),
{
    let status = StatusView { code: Code::AuthFailure, message };
    lemma_first_status_fails(batch, at, status, Code::AuthSuccess, 1);
    let text = spec_not_successful("authentication"@, message);
    assert(text.subrange(text.len() - message.len(), text.len() as int) =~= message);
    assert((seq![ReceivedView::Frame(frame)] + later)[0] == ReceivedView::Frame(frame));
}

/// A handshake without subscriptions fails with a protocol error as
/// soon as the credential is accepted. It has sent the credential and
/// the answers to pings, and no subscribe request; it takes no further
/// read.
pub proof fn lemma_nothing_to_subscribe_fails(
    api_key: Seq<char>,
    connect: Seq<ReceivedView>,
    authenticate: Seq<ReceivedView>,
    later: Seq<ReceivedView>,
)
    requires
        completes(connect, Code::Connected, 1),
        completes(authenticate, Code::AuthSuccess, 1),
    ensures
        run(
            HandshakeView::Connecting { api_key, subscriptions: Seq::empty() },
            connect + authenticate + later,
        ) == (Run {
            end: RunView::Failed(Fault::Protocol(spec_nothing_to_subscribe())),
            sent: answers(connect) + seq![auth_frame(api_key)] + answers(authenticate),
        }),
{
    let subscriptions = Seq::<Subscription>::empty();
    let connecting = HandshakeView::Connecting { api_key, subscriptions };
    let authenticating = HandshakeView::Authenticating { subscriptions };
    lemma_step_completes(connecting, connect);
    lemma_step_completes(authenticating, authenticate);
    lemma_run_append(authenticating, authenticate, later);
    lemma_run_append(connecting, connect, authenticate + later);
    assert(connect + (authenticate + later) =~= connect + authenticate + later);
    assert(answers(connect) + seq![auth_frame(api_key)] + (answers(authenticate) + Seq::<
        FrameView,
    >::empty()) =~= answers(connect) + seq![auth_frame(api_key)] + answers(authenticate));
}

/// A ping is answered by a pong of the same data and a pong is passed
/// over; neither counts as a confirmation or changes the handshake.
pub proof fn lemma_keep_alive_counts_for_nothing(handshake: HandshakeView, data: Seq<u8>)
    requires
        handshake.wf(),
    ensures
        handshake.step(ReceivedView::Frame(FrameView::Ping(data))) == StepView::Send(
            FrameView::Pong(data),
            handshake,
        ),
        handshake.step(ReceivedView::Frame(FrameView::Pong(data))) == StepView::Receive(handshake),
{
}

/// A step leaves a handshake that awaits at least one confirmation.
pub proof fn lemma_step_keeps_wf(handshake: HandshakeView, read: ReceivedView)
    requires
        handshake.wf(),
    ensures
        settled(handshake.step(read)) matches RunView::Pending(next) ==> next.wf(),
{
}

} // verus!
