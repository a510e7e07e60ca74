//! The messages of the feed and the stream of events made from them.

use vstd::prelude::*;
use vstd::string::StringExecFns;
use vstd::string::StringSliceAdditionalSpecFns;

use crate::error::EventError;
use crate::error::Fault;
use crate::events::channel::Frame;
use crate::events::channel::FrameView;
use crate::events::channel::Received;
use crate::events::channel::ReceivedView;
use crate::events::codec::decode_messages;
use crate::events::codec::decoded_messages;
use crate::events::codec::message_views;

verus! {

/// A data point for a trade.
#[derive(Clone, Debug, PartialEq)]
pub struct Trade {
    /// The stock's symbol.
    pub symbol: String,
    /// The exchange the trade occurred on.
    pub exchange: u64,
    /// The price.
    pub price: num_decimal::Num,
    /// The number of shares traded.
    pub quantity: u64,
    /// The trade's time stamp.
    pub timestamp: std::time::SystemTime,
}

/// What a [`Trade`] holds, as mathematical values.
pub struct TradeView {
    pub symbol: Seq<char>,
    pub exchange: u64,
    pub price: num_decimal::Num,
    pub quantity: u64,
    pub timestamp: std::time::SystemTime,
}

impl View for Trade {
    type V = TradeView;

    open spec fn view(&self) -> TradeView {
        TradeView {
            symbol: self.symbol@,
            exchange: self.exchange,
            price: self.price,
            quantity: self.quantity,
            timestamp: self.timestamp,
        }
    }
}

/// A quote for a stock.
#[derive(Clone, Debug, PartialEq)]
pub struct Quote {
    /// The stock's symbol.
    pub symbol: String,
    /// The exchange of the bid.
    pub bid_exchange: u64,
    /// The bid price.
    pub bid_price: num_decimal::Num,
    /// The bid quantity.
    pub bid_quantity: u64,
    /// The exchange of the ask.
    pub ask_exchange: u64,
    /// The ask price.
    pub ask_price: num_decimal::Num,
    /// The ask quantity.
    pub ask_quantity: u64,
    /// The quote's time stamp.
    pub timestamp: std::time::SystemTime,
}

/// What a [`Quote`] holds, as mathematical values.
pub struct QuoteView {
    pub symbol: Seq<char>,
    pub bid_exchange: u64,
    pub bid_price: num_decimal::Num,
    pub bid_quantity: u64,
    pub ask_exchange: u64,
    pub ask_price: num_decimal::Num,
    pub ask_quantity: u64,
    pub timestamp: std::time::SystemTime,
}

impl View for Quote {
    type V = QuoteView;

    open spec fn view(&self) -> QuoteView {
        QuoteView {
            symbol: self.symbol@,
            bid_exchange: self.bid_exchange,
            bid_price: self.bid_price,
            bid_quantity: self.bid_quantity,
            ask_exchange: self.ask_exchange,
            ask_price: self.ask_price,
            ask_quantity: self.ask_quantity,
            timestamp: self.timestamp,
        }
    }
}

/// An aggregate for a stock.
#[derive(Clone, Debug, PartialEq)]
pub struct Aggregate {
    /// The stock's symbol.
    pub symbol: String,
    /// The tick volume.
    pub volume: u64,
    /// Volume weighted average price.
    pub volume_weighted_average_price: num_decimal::Num,
    /// The tick's open price.
    pub open_price: num_decimal::Num,
    /// The tick's close price.
    pub close_price: num_decimal::Num,
    /// The tick's high price.
    pub high_price: num_decimal::Num,
    /// The tick's low price.
    pub low_price: num_decimal::Num,
    /// The tick's start time stamp.
    pub start_timestamp: std::time::SystemTime,
    /// The tick's end time stamp.
    pub end_timestamp: std::time::SystemTime,
}

/// What an [`Aggregate`] holds, as mathematical values.
pub struct AggregateView {
    pub symbol: Seq<char>,
    pub volume: u64,
    pub volume_weighted_average_price: num_decimal::Num,
    pub open_price: num_decimal::Num,
    pub close_price: num_decimal::Num,
    pub high_price: num_decimal::Num,
    pub low_price: num_decimal::Num,
    pub start_timestamp: std::time::SystemTime,
    pub end_timestamp: std::time::SystemTime,
}

impl View for Aggregate {
    type V = AggregateView;

    open spec fn view(&self) -> AggregateView {
        AggregateView {
            symbol: self.symbol@,
            volume: self.volume,
            volume_weighted_average_price: self.volume_weighted_average_price,
            open_price: self.open_price,
            close_price: self.close_price,
            high_price: self.high_price,
            low_price: self.low_price,
            start_timestamp: self.start_timestamp,
            end_timestamp: self.end_timestamp,
        }
    }
}

/// A status code indication for an operation.
#[derive(Clone, Copy, Debug, PartialEq, Eq, Structural)]
pub enum Code {
    Connected,
    Disconnected,
    AuthSuccess,
    AuthFailure,
    Success,
}

/// A control message: how an operation ended, with the service's text.
#[derive(Clone, Debug, PartialEq)]
pub struct Status {
    pub code: Code,
    pub message: String,
}

/// What a [`Status`] holds, as mathematical values.
pub struct StatusView {
    pub code: Code,
    pub message: Seq<char>,
}

impl View for Status {
    type V = StatusView;

    open spec fn view(&self) -> StatusView {
        StatusView { code: self.code, message: self.message@ }
    }
}

/// A message as the service sends it. Control messages (status
/// messages) and event data arrive freely mixed.
#[derive(Clone, Debug, PartialEq)]
pub enum Message {
    Status(Status),
    SecondAggregate(Aggregate),
    MinuteAggregate(Aggregate),
    Trade(Trade),
    Quote(Quote),
}

/// What a [`Message`] holds, as mathematical values.
pub enum MessageView {
    Status(StatusView),
    SecondAggregate(AggregateView),
    MinuteAggregate(AggregateView),
    Trade(TradeView),
    Quote(QuoteView),
}

impl View for Message {
    type V = MessageView;

    open spec fn view(&self) -> MessageView {
        match self {
            Message::Status(status) => MessageView::Status(status@),
            Message::SecondAggregate(aggregate) => MessageView::SecondAggregate(aggregate@),
            Message::MinuteAggregate(aggregate) => MessageView::MinuteAggregate(aggregate@),
            Message::Trade(trade) => MessageView::Trade(trade@),
            Message::Quote(quote) => MessageView::Quote(quote@),
        }
    }
}

impl Message {
    /// The status that a control message carries.
    pub fn into_status(self) -> (status: Option<Status>)
        ensures
            match self {
                Message::Status(inner) => status == Some(inner),
                _ => status is None,
            },
    {
        match self {
            Message::Status(status) => Some(status),
            _ => None,
        }
    }
}

/// An event of the feed, as a caller of the stream sees it.
#[derive(Clone, Debug, PartialEq)]
pub enum Event {
    /// A tick for a second aggregate for a stock.
    SecondAggregate(Aggregate),
    /// A tick for a minute aggregate for a stock.
    MinuteAggregate(Aggregate),
    /// A tick for a trade of a stock.
    Trade(Trade),
    /// A tick for a quote for a stock.
    Quote(Quote),
}

/// What an [`Event`] holds, as mathematical values.
pub enum EventView {
    SecondAggregate(AggregateView),
    MinuteAggregate(AggregateView),
    Trade(TradeView),
    Quote(QuoteView),
}

impl View for Event {
    type V = EventView;

    open spec fn view(&self) -> EventView {
        match self {
            Event::SecondAggregate(aggregate) => EventView::SecondAggregate(aggregate@),
            Event::MinuteAggregate(aggregate) => EventView::MinuteAggregate(aggregate@),
            Event::Trade(trade) => EventView::Trade(trade@),
            Event::Quote(quote) => EventView::Quote(quote@),
        }
    }
}

impl EventView {
    /// The symbol of the stock that the event is about.
    pub open spec fn symbol(self) -> Seq<char> {
        match self {
            EventView::SecondAggregate(aggregate) => aggregate.symbol,
            EventView::MinuteAggregate(aggregate) => aggregate.symbol,
            EventView::Trade(trade) => trade.symbol,
            EventView::Quote(quote) => quote.symbol,
        }
    }
}

impl Event {
    /// Retrieve the event's symbol.
    pub fn symbol(&self) -> (symbol: &str)
        ensures
            symbol@ == self@.symbol(),
    {
        match self {
            Event::SecondAggregate(aggregate) => aggregate.symbol.as_str(),
            Event::MinuteAggregate(aggregate) => aggregate.symbol.as_str(),
            Event::Trade(trade) => trade.symbol.as_str(),
            Event::Quote(quote) => quote.symbol.as_str(),
        }
    }

    /// The trade that the event carries.
    pub fn to_trade(&self) -> (trade: Option<&Trade>)
        ensures
            match self {
                Event::Trade(inner) => trade == Some(inner),
                _ => trade is None,
            },
    {
        match self {
            Event::Trade(trade) => Some(trade),
            _ => None,
        }
    }

    /// The quote that the event carries.
    pub fn to_quote(&self) -> (quote: Option<&Quote>)
        ensures
            match self {
                Event::Quote(inner) => quote == Some(inner),
                _ => quote is None,
            },
    {
        match self {
            Event::Quote(quote) => Some(quote),
            _ => None,
        }
    }
}

/// The text of the error for a client that the service disconnected.
pub open spec fn spec_disconnected(message: Seq<char>) -> Seq<char> {
    "service disconnected client: "@ + message
}

/// What a message means for the caller of the stream: an event for
/// event data, an error for a status that disconnects the client, and
/// nothing for any other status.
pub open spec fn spec_process(message: MessageView) -> Option<Result<EventView, Fault>> {
    match message {
        MessageView::Status(status) => if status.code == Code::Disconnected {
            Some(Err(Fault::Protocol(spec_disconnected(status.message))))
        } else {
            None
        },
        MessageView::SecondAggregate(aggregate) => Some(Ok(EventView::SecondAggregate(aggregate))),
        MessageView::MinuteAggregate(aggregate) => Some(Ok(EventView::MinuteAggregate(aggregate))),
        MessageView::Trade(trade) => Some(Ok(EventView::Trade(trade))),
        MessageView::Quote(quote) => Some(Ok(EventView::Quote(quote))),
    }
}

/// The view of what the stream yields.
pub open spec fn yield_view(item: Result<Event, EventError>) -> Result<EventView, Fault> {
    match item {
        Ok(event) => Ok(event@),
        Err(error) => Err(error@.fault()),
    }
}

/// The view of what a message was processed into.
pub open spec fn processed_view(item: Option<Result<Event, EventError>>) -> Option<
    Result<EventView, Fault>,
> {
    match item {
        Some(item) => Some(yield_view(item)),
        None => None,
    }
}

/// Process the given message, converting it into an event and
/// checking for a disconnect. On disconnect (and only then) an error
/// is returned. A status of any other code is dropped.
pub fn process_message(message: Message) -> (item: Option<Result<Event, EventError>>)
    ensures
        processed_view(item) == spec_process(message@),
{
    let event = match message {
        Message::Status(status) => {
            if status.code == Code::Disconnected {
                let mut text = String::from_str("service disconnected client: ");
                text.append(status.message.as_str());
                return Some(Err(EventError::Protocol(text)));
            } else {
                return None;
            }
        },
        Message::SecondAggregate(aggregate) => Event::SecondAggregate(aggregate),
        Message::MinuteAggregate(aggregate) => Event::MinuteAggregate(aggregate),
        Message::Trade(trade) => Event::Trade(trade),
        Message::Quote(quote) => Event::Quote(quote),
    };
    Some(Ok(event))
}

/// The stream of events after the handshake: whether it has stopped,
/// and the messages of the last batch that were not looked at yet.
#[derive(Debug)]
pub struct EventStream {
    stopped: bool,
    pending: Vec<Message>,
}

/// What an [`EventStream`] holds, as mathematical values.
pub struct EventStreamView {
    pub stopped: bool,
    pub pending: Seq<MessageView>,
}

impl View for EventStream {
    type V = EventStreamView;

    closed spec fn view(&self) -> EventStreamView {
        EventStreamView { stopped: self.stopped, pending: message_views(self.pending@) }
    }
}

/// What the caller of the stream has to do next.
#[derive(Debug, PartialEq)]
pub enum Pull {
    /// Hand this item to the consumer. After an error the stream has
    /// stopped.
    Yield(Result<Event, EventError>),
    /// Read the channel and hand the result to the stream.
    Receive,
    /// Send the frame, then read the channel and hand the result to the
    /// stream; a failure to send is handed over in place of the read.
    Send(Frame),
    /// The sequence has ended: the stream has stopped on an error, or
    /// the channel was closed or has no further frame.
    End,
}

/// What a [`Pull`] holds, as mathematical values.
pub enum PullView {
    Yield(Result<EventView, Fault>),
    Receive,
    Send(FrameView),
    End,
}

impl View for Pull {
    type V = PullView;

    open spec fn view(&self) -> PullView {
        match self {
            Pull::Yield(item) => PullView::Yield(yield_view(*item)),
            Pull::Receive => PullView::Receive,
            Pull::Send(frame) => PullView::Send(frame@),
            Pull::End => PullView::End,
        }
    }
}

impl EventStreamView {
    /// What a pull does to the stream and what it gives. A stopped
    /// stream has ended. Else the pending messages are taken from the
    /// back: a status that does not disconnect is dropped, event data
    /// is yielded, and a disconnect is yielded as an error and stops
    /// the stream. With nothing pending the channel is to be read.
    pub open spec fn pull(self) -> (EventStreamView, PullView)
        decreases self.pending.len(),
    {
        if self.stopped {
            (self, PullView::End)
        } else if self.pending.len() == 0 {
            (self, PullView::Receive)
        } else {
            let rest = EventStreamView { stopped: false, pending: self.pending.drop_last() };
            match spec_process(self.pending.last()) {
                None => rest.pull(),
                Some(Ok(event)) => (rest, PullView::Yield(Ok(event))),
                Some(Err(fault)) => (
                    EventStreamView { stopped: true, pending: rest.pending },
                    PullView::Yield(Err(fault)),
                ),
            }
        }
    }

    /// The stream, stopped.
    pub open spec fn stop(self) -> EventStreamView {
        EventStreamView { stopped: true, pending: self.pending }
    }

    /// What one read of the channel does to the stream and what it
    /// gives. A stopped stream has ended. A text or binary frame is
    /// decoded: its batch takes the place of the pending messages and
    /// is pulled from; a frame that does not decode is yielded as an
    /// error and stops the stream, as does a failed channel. A ping is
    /// to be answered by a pong of the same data; a pong is passed over.
    /// A close frame and an exhausted channel give the end of the
    /// sequence and leave the stream as it is: only an error stops it.
    pub open spec fn receive(self, received: ReceivedView) -> (EventStreamView, PullView) {
        if self.stopped {
            (self, PullView::End)
        } else {
            match received {
                ReceivedView::Exhausted => (self, PullView::End),
                ReceivedView::Failed(text) => (
                    self.stop(),
                    PullView::Yield(Err(Fault::Transport(text))),
                ),
                ReceivedView::Frame(frame) => match frame {
                    FrameView::Ping(data) => (self, PullView::Send(FrameView::Pong(data))),
                    FrameView::Pong(_) => (self, PullView::Receive),
                    FrameView::Close => (self, PullView::End),
                    _ => match decoded_messages(frame.payload().unwrap()) {
                        Some(batch) => (EventStreamView { stopped: false, pending: batch }).pull(),
                        None => (self.stop(), PullView::Yield(Err(Fault::Decode))),
                    },
                },
            }
        }
    }
}

/// Begins the stream of events on a channel whose handshake is
/// complete. The caller pulls with [`EventStream::handle_msg`] and
/// hands what it reads from the channel to
/// [`EventStream::on_received`].
pub fn stream() -> (events: EventStream)
    ensures
        events@ == (EventStreamView { stopped: false, pending: Seq::empty() }),
{
    let events = EventStream { stopped: false, pending: Vec::new() };
    proof {
        assert(message_views(events.pending@) =~= Seq::empty());
    }
    events
}

impl EventStream {
    /// Whether the stream has stopped: it has yielded an error and
    /// yields nothing further. The end of the channel does not set
    /// this.
    pub fn is_stopped(&self) -> (stopped: bool)
        ensures
            stopped == self@.stopped,
    {
        self.stopped
    }

    /// Pulls the next item from the pending messages.
    pub fn handle_msg(&mut self) -> (pull: Pull)
        ensures
            (final(self)@, pull@) == old(self)@.pull(),
    {
        if self.stopped {
            return Pull::End;
        }
        loop
            invariant
                !self.stopped,
                old(self)@.pull() == self@.pull(),
            decreases self.pending@.len(),
        {
            proof {
                let views = message_views(self.pending@);
                if views.len() > 0 {
                    assert(views.drop_last() =~= message_views(self.pending@.drop_last()));
                    assert(views.last() == self.pending@.last()@);
                }
            }
            match self.pending.pop() {
                None => {
                    return Pull::Receive;
                },
                Some(message) => match process_message(message) {
                    None => {},
                    Some(Ok(event)) => {
                        return Pull::Yield(Ok(event));
                    },
                    Some(Err(error)) => {
                        self.stopped = true;
                        return Pull::Yield(Err(error));
                    },
                },
            }
        }
    }

    /// Takes one read of the channel and pulls the next item.
    pub fn on_received(&mut self, received: Received) -> (pull: Pull)
        ensures
            (final(self)@, pull@) == old(self)@.receive(received@),
    {
        if self.stopped {
            return Pull::End;
        }
        let decoded = match received {
            Received::Exhausted => {
                return Pull::End;
            },
            Received::Failed(text) => {
                self.stopped = true;
                return Pull::Yield(Err(EventError::Transport(text)));
            },
            Received::Frame(frame) => match frame {
                Frame::Text(text) => decode_messages(text.as_str().as_bytes()),
                Frame::Binary(data) => decode_messages(data.as_slice()),
                Frame::Ping(data) => {
                    return Pull::Send(Frame::Pong(data));
                },
                Frame::Pong(_) => {
                    return Pull::Receive;
                },
                Frame::Close => {
                    return Pull::End;
                },
            },
        };
        match decoded {
            Ok(batch) => {
                self.pending = batch;
                self.handle_msg()
            },
            Err(error) => {
                self.stopped = true;
                Pull::Yield(Err(error))
            },
        }
    }
}

/// One move of the caller of a stream: a pull from the pending
/// messages, or a read of the channel handed over.
pub enum Move {
    Pull,
    Read(ReceivedView),
}

impl EventStreamView {
    /// What a move does to the stream and what it gives.
    pub open spec fn make(self, step: Move) -> (EventStreamView, PullView) {
        match step {
            Move::Pull => self.pull(),
            Move::Read(received) => self.receive(received),
        }
    }

    /// What the stream gives for each of the moves, made in order.
    pub open spec fn session(self, moves: Seq<Move>) -> Seq<PullView>
        decreases moves.len(),
    {
        if moves.len() == 0 {
            Seq::empty()
        } else {
            let (next, pull) = self.make(moves[0]);
            seq![pull] + next.session(moves.drop_first())
        }
    }
}

/// A stopped stream has ended: whatever is pending and whatever is
/// read, it stays as it is and yields nothing.
pub proof fn lemma_stopped_stream_has_ended(events: EventStreamView, step: Move)
    requires
        events.stopped,
    ensures
        events.make(step) == (events, PullView::End),
{
}

/// A pull leaves the stream stopped exactly when it yields an error.
pub proof fn lemma_pull_stops_on_error(events: EventStreamView)
    requires
        !events.stopped,
    ensures
        events.pull().0.stopped <==> events.pull().1 matches PullView::Yield(Err(_)),
    decreases events.pending.len(),
{
    if events.pending.len() > 0 {
        let rest = EventStreamView { stopped: false, pending: events.pending.drop_last() };
        if spec_process(events.pending.last()) is None {
            lemma_pull_stops_on_error(rest);
        }
    }
}

/// An error that the stream yields is its last item: the stream has
/// stopped.
pub proof fn lemma_error_stops_the_stream(events: EventStreamView, step: Move)
    ensures
        events.make(step).1 matches PullView::Yield(Err(_)) ==> events.make(step).0.stopped,
{
    if !events.stopped {
        lemma_pull_stops_on_error(events);
        match step {
            Move::Read(ReceivedView::Frame(frame)) => {
                if frame is Text || frame is Binary {
                    match decoded_messages(frame.payload().unwrap()) {
                        Some(batch) => {
                            lemma_pull_stops_on_error(
                                EventStreamView { stopped: false, pending: batch },
                            );
                        },
                        None => {},
                    }
                }
            },
            _ => {},
        }
    }
}

/// A stopped stream gives the end of the stream for every move.
pub proof fn lemma_stopped_session_is_over(events: EventStreamView, moves: Seq<Move>, i: int)
    requires
        events.stopped,
        0 <= i < moves.len(),
    ensures
        events.session(moves).len() == moves.len(),
        events.session(moves)[i] == PullView::End,
    decreases moves.len(),
{
    lemma_session_len(events, moves);
    lemma_stopped_stream_has_ended(events, moves[0]);
    if i > 0 {
        lemma_stopped_session_is_over(events, moves.drop_first(), i - 1);
    }
}

/// A session gives one answer for each move.
pub proof fn lemma_session_len(events: EventStreamView, moves: Seq<Move>)
    ensures
        events.session(moves).len() == moves.len(),
    decreases moves.len(),
{
    if moves.len() > 0 {
        lemma_session_len(events.make(moves[0]).0, moves.drop_first());
    }
}

/// Once a stream has yielded an error it yields nothing further:
/// every later move gives the end of the stream, whatever was still
/// pending and whatever frames are read.
pub proof fn lemma_nothing_follows_an_error(
    events: EventStreamView,
    moves: Seq<Move>,
    i: int,
    j: int,
)
    requires
        0 <= i < j < moves.len(),
        events.session(moves)[i] matches PullView::Yield(Err(_)),
    ensures
        events.session(moves)[j] == PullView::End,
    decreases moves.len(),
{
    let (next, pull) = events.make(moves[0]);
    lemma_session_len(next, moves.drop_first());
    if i == 0 {
        lemma_error_stops_the_stream(events, moves[0]);
        lemma_stopped_session_is_over(next, moves.drop_first(), j - 1);
    } else {
        lemma_nothing_follows_an_error(next, moves.drop_first(), i - 1, j - 1);
    }
}

/// A status that disconnects the client, when its turn comes, is
/// yielded as a protocol error with the service's message, and stops
/// the stream with the rest of the batch unseen.
pub proof fn lemma_disconnect_is_fatal(events: EventStreamView, message: Seq<char>)
    requires
        !events.stopped,
        events.pending.len() > 0,
        events.pending.last() == MessageView::Status(
            StatusView { code: Code::Disconnected, message },
        ),
    ensures
        events.pull() == (
            EventStreamView { stopped: true, pending: events.pending.drop_last() },
            PullView::Yield(Err(Fault::Protocol(spec_disconnected(message)))),
        ),
{
}

/// The pending messages are taken from the back: event data that
/// stands last is yielded next.
pub proof fn lemma_batch_is_taken_from_the_back(events: EventStreamView, event: EventView)
    requires
        !events.stopped,
        events.pending.len() > 0,
        spec_process(events.pending.last()) == Some(Ok::<EventView, Fault>(event)),
    ensures
        events.pull() == (
            EventStreamView { stopped: false, pending: events.pending.drop_last() },
            PullView::Yield(Ok(event)),
        ),
{
}

/// As many pulls as given, with no read between them.
pub open spec fn pulls(count: nat) -> Seq<Move> {
    Seq::new(count, |i: int| Move::Pull)
}

/// A batch of event data is yielded whole and in reverse: the pull
/// numbered `k` yields what stands `k` places from the back.
pub proof fn lemma_batch_is_yielded_in_reverse(events: EventStreamView, k: int)
    requires
        !events.stopped,
        forall|i: int|
            0 <= i < events.pending.len() ==> (#[trigger] spec_process(events.pending[i])) matches Some(
                Ok(_),
            ),
        0 <= k < events.pending.len(),
    ensures
        events.session(pulls(events.pending.len()))[k] == PullView::Yield(
            spec_process(events.pending[events.pending.len() - 1 - k]).unwrap(),
        ),
    decreases k,
{
    let moves = pulls(events.pending.len());
    let rest = EventStreamView { stopped: false, pending: events.pending.drop_last() };
    assert(spec_process(events.pending.last()) matches Some(Ok(_))) by {
        assert(events.pending.last() == events.pending[events.pending.len() - 1]);
    }
    assert(events.make(moves[0]).0 == rest);
    assert(moves.drop_first() =~= pulls(rest.pending.len()));
    lemma_session_len(rest, moves.drop_first());
    if k > 0 {
        assert forall|i: int| 0 <= i < rest.pending.len() implies (#[trigger] spec_process(
            rest.pending[i],
        )) matches Some(Ok(_)) by {
            assert(rest.pending[i] == events.pending[i]);
        }
        lemma_batch_is_yielded_in_reverse(rest, k - 1);
    }
}

/// A ping is answered by a pong of the same data and a pong is passed
/// over; neither yields an item or changes the stream.
pub proof fn lemma_keep_alive_yields_nothing(events: EventStreamView, data: Seq<u8>)
    requires
        !events.stopped,
    ensures
        events.receive(ReceivedView::Frame(FrameView::Ping(data))) == (
            events,
            PullView::Send(FrameView::Pong(data)),
        ),
        events.receive(ReceivedView::Frame(FrameView::Pong(data))) == (events, PullView::Receive),
{
}

/// No status is ever yielded as an event: what a pull yields is event
/// data of the batch, or an error.
pub proof fn lemma_no_status_is_yielded(events: EventStreamView)
    ensures
        events.pull().1 matches PullView::Yield(Ok(event)) ==> exists|i: int|
            0 <= i < events.pending.len() && !(#[trigger] events.pending[i] is Status)
                && spec_process(events.pending[i]) == Some(Ok::<EventView, Fault>(event)),
    decreases events.pending.len(),
{
    if !events.stopped && events.pending.len() > 0 {
        let rest = EventStreamView { stopped: false, pending: events.pending.drop_last() };
        match spec_process(events.pending.last()) {
            None => {
                lemma_no_status_is_yielded(rest);
                if let PullView::Yield(Ok(event)) = rest.pull().1 {
                    let i = choose|i: int|
                        0 <= i < rest.pending.len() && !(#[trigger] rest.pending[i] is Status)
                            && spec_process(rest.pending[i]) == Some(Ok::<EventView, Fault>(event));
                    assert(events.pending[i] == rest.pending[i]);
                }
            },
            Some(Ok(event)) => {
                let i = events.pending.len() - 1;
                assert(!(events.pending[i] is Status));
            },
            Some(Err(_)) => {},
        }
    }
}

} // verus!
