//! The message codec: from the bytes of one frame to a batch of
//! messages.
//!
//! A frame holds a JSON array of objects. Each object names its kind in
//! the member `ev`: `status` for a control message, `A`, `AM`, `T` and
//! `Q` for second aggregates, minute aggregates, trades and quotes.
//! Members that a kind does not use are passed over. A member that an
//! object writes more than once is read with the value written last,
//! as `serde_json` reads an object into a map. An object of an
//! unknown kind, a status of an unknown code and a member that is
//! missing or of the wrong type each make the whole frame fail to
//! decode.

use vstd::prelude::*;
use vstd::string::StringExecFns;

use crate::error::EventError;
use crate::error::EventErrorView;
use crate::error::Fault;
use crate::events::stream::Aggregate;
use crate::events::stream::AggregateView;
use crate::events::stream::Code;
use crate::events::stream::Event;
use crate::events::stream::EventView;
use crate::events::stream::Message;
use crate::events::stream::MessageView;
use crate::events::stream::Quote;
use crate::events::stream::QuoteView;
use crate::events::stream::Status;
use crate::events::stream::StatusView;
use crate::events::stream::Trade;
use crate::events::stream::TradeView;
use crate::json::array_elements;
use crate::json::decimal_value;
use crate::json::error_text;
use crate::json::json_decimal;
use crate::json::json_elements;
use crate::json::json_error_message;
use crate::json::json_members;
use crate::json::json_string;
use crate::json::json_u64;
use crate::json::member;
use crate::json::object_members;
use crate::json::pairs;
use crate::json::spec_member;
use crate::json::string_value;
use crate::json::texts;
use crate::json::u64_value;
use crate::text::text_eq;
use crate::time::new_york_time;
use crate::time::system_time_from_millis_in_new_york;
use crate::time::MAX_TIMESTAMP_MILLIS;

verus! {

/// The members of a decoded JSON object, as mathematical values.
pub type Members = Seq<(Seq<char>, Seq<char>)>;

/// The status code that a wire name stands for.
pub open spec fn spec_code(name: Seq<char>) -> Option<Code> {
    if name == "connected"@ {
        Some(Code::Connected)
    } else if name == "disconnected"@ {
        Some(Code::Disconnected)
    } else if name == "auth_success"@ {
        Some(Code::AuthSuccess)
    } else if name == "auth_failed"@ {
        Some(Code::AuthFailure)
    } else if name == "success"@ {
        Some(Code::Success)
    } else {
        None
    }
}

/// The string held by the member `key`.
pub open spec fn spec_text_field(members: Members, key: Seq<char>) -> Option<Seq<char>> {
    match spec_member(members, key) {
        Some(raw) => json_string(raw),
        None => None,
    }
}

/// The integer held by the member `key`.
pub open spec fn spec_u64_field(members: Members, key: Seq<char>) -> Option<u64> {
    match spec_member(members, key) {
        Some(raw) => json_u64(raw),
        None => None,
    }
}

/// The decimal number held by the member `key`.
pub open spec fn spec_decimal_field(members: Members, key: Seq<char>) -> Option<num_decimal::Num> {
    match spec_member(members, key) {
        Some(raw) => json_decimal(raw),
        None => None,
    }
}

/// The point in time held by the member `key`, a count of milliseconds
/// on a New York clock of at most `MAX_TIMESTAMP_MILLIS`.
pub open spec fn spec_time_field(members: Members, key: Seq<char>) -> Option<
    std::time::SystemTime,
> {
    match spec_u64_field(members, key) {
        Some(millis) => if millis <= MAX_TIMESTAMP_MILLIS {
            new_york_time(millis)
        } else {
            None
        },
        None => None,
    }
}

/// The status that an object's members `status` and `message` make.
pub open spec fn spec_status(members: Members) -> Option<StatusView> {
    match spec_text_field(members, "status"@) {
        Some(name) => match spec_code(name) {
            Some(code) => match spec_text_field(members, "message"@) {
                Some(message) => Some(StatusView { code, message }),
                None => None,
            },
            None => None,
        },
        None => None,
    }
}

/// The trade that an object's members make.
pub open spec fn spec_trade(members: Members) -> Option<TradeView> {
    if spec_text_field(members, "sym"@) is Some && spec_u64_field(members, "x"@) is Some
        && spec_decimal_field(members, "p"@) is Some && spec_u64_field(members, "s"@) is Some
        && spec_time_field(members, "t"@) is Some {
        Some(
            TradeView {
                symbol: spec_text_field(members, "sym"@).unwrap(),
                exchange: spec_u64_field(members, "x"@).unwrap(),
                price: spec_decimal_field(members, "p"@).unwrap(),
                quantity: spec_u64_field(members, "s"@).unwrap(),
                timestamp: spec_time_field(members, "t"@).unwrap(),
            },
        )
    } else {
        None
    }
}

/// The quote that an object's members make.
pub open spec fn spec_quote(members: Members) -> Option<QuoteView> {
    if spec_text_field(members, "sym"@) is Some && spec_u64_field(members, "bx"@) is Some
        && spec_decimal_field(members, "bp"@) is Some && spec_u64_field(members, "bs"@) is Some
        && spec_u64_field(members, "ax"@) is Some && spec_decimal_field(members, "ap"@) is Some
        && spec_u64_field(members, "as"@) is Some && spec_time_field(members, "t"@) is Some {
        Some(
            QuoteView {
                symbol: spec_text_field(members, "sym"@).unwrap(),
                bid_exchange: spec_u64_field(members, "bx"@).unwrap(),
                bid_price: spec_decimal_field(members, "bp"@).unwrap(),
                bid_quantity: spec_u64_field(members, "bs"@).unwrap(),
                ask_exchange: spec_u64_field(members, "ax"@).unwrap(),
                ask_price: spec_decimal_field(members, "ap"@).unwrap(),
                ask_quantity: spec_u64_field(members, "as"@).unwrap(),
                timestamp: spec_time_field(members, "t"@).unwrap(),
            },
        )
    } else {
        None
    }
}

/// The aggregate that an object's members make.
pub open spec fn spec_aggregate(members: Members) -> Option<AggregateView> {
    if spec_text_field(members, "sym"@) is Some && spec_u64_field(members, "v"@) is Some
        && spec_decimal_field(members, "vw"@) is Some && spec_decimal_field(members, "o"@) is Some
        && spec_decimal_field(members, "c"@) is Some && spec_decimal_field(members, "h"@) is Some
        && spec_decimal_field(members, "l"@) is Some && spec_time_field(members, "s"@) is Some
        && spec_time_field(members, "e"@) is Some {
        Some(
            AggregateView {
                symbol: spec_text_field(members, "sym"@).unwrap(),
                volume: spec_u64_field(members, "v"@).unwrap(),
                volume_weighted_average_price: spec_decimal_field(members, "vw"@).unwrap(),
                open_price: spec_decimal_field(members, "o"@).unwrap(),
                close_price: spec_decimal_field(members, "c"@).unwrap(),
                high_price: spec_decimal_field(members, "h"@).unwrap(),
                low_price: spec_decimal_field(members, "l"@).unwrap(),
                start_timestamp: spec_time_field(members, "s"@).unwrap(),
                end_timestamp: spec_time_field(members, "e"@).unwrap(),
            },
        )
    } else {
        None
    }
}

/// The message that an object of kind `tag` with the given members
/// makes.
pub open spec fn spec_tagged(tag: Seq<char>, members: Members) -> Option<MessageView> {
    if tag == "status"@ {
        match spec_status(members) {
            Some(status) => Some(MessageView::Status(status)),
            None => None,
        }
    } else if tag == "A"@ {
        match spec_aggregate(members) {
            Some(aggregate) => Some(MessageView::SecondAggregate(aggregate)),
            None => None,
        }
    } else if tag == "AM"@ {
        match spec_aggregate(members) {
            Some(aggregate) => Some(MessageView::MinuteAggregate(aggregate)),
            None => None,
        }
    } else if tag == "T"@ {
        match spec_trade(members) {
            Some(trade) => Some(MessageView::Trade(trade)),
            None => None,
        }
    } else if tag == "Q"@ {
        match spec_quote(members) {
            Some(quote) => Some(MessageView::Quote(quote)),
            None => None,
        }
    } else {
        None
    }
}

/// The message that the JSON text of one array element makes.
pub open spec fn spec_message(text: Seq<char>) -> Option<MessageView> {
    match json_members(text) {
        Some(members) => match spec_text_field(members, "ev"@) {
            Some(tag) => spec_tagged(tag, members),
            None => None,
        },
        None => None,
    }
}

/// The batch that the elements of an array make: every element has to
/// make a message.
pub open spec fn spec_messages(elements: Seq<Seq<char>>) -> Option<Seq<MessageView>> {
    if forall|i: int| 0 <= i < elements.len() ==> (#[trigger] spec_message(elements[i])) is Some {
        Some(Seq::new(elements.len(), |i: int| spec_message(elements[i]).unwrap()))
    } else {
        None
    }
}

/// The batch of messages that the bytes of one frame hold.
pub open spec fn decoded_messages(bytes: Seq<u8>) -> Option<Seq<MessageView>> {
    match json_elements(bytes) {
        Some(elements) => spec_messages(elements),
        None => None,
    }
}

/// The views of the messages of a batch.
pub open spec fn message_views(batch: Seq<Message>) -> Seq<MessageView> {
    Seq::new(batch.len(), |i: int| batch[i]@)
}

/// The text of the error for a member that an object lacks.
pub open spec fn spec_missing_field(key: Seq<char>) -> Seq<char> {
    "missing field `"@ + key + "`"@
}

/// The decode error for a member that an object lacks: it names the
/// member.
fn missing_field(key: &str) -> (error: EventError)
    ensures
        error@ == EventErrorView::Decode(spec_missing_field(key@)),
        error@.fault() == Fault::Decode,
{
    let mut text = String::from_str("missing field `");
    text.append(key);
    text.append("`");
    EventError::Decode(text)
}

/// The decode error for what `serde_json` refused: it carries the
/// message of `serde_json`'s error.
fn refused(error: &serde_json::Error) -> (refusal: EventError)
    ensures
        refusal@ == EventErrorView::Decode(json_error_message(*error)),
        refusal@.fault() == Fault::Decode,
{
    EventError::Decode(error_text(error))
}

/// The status code that a wire name stands for.
pub fn code_from_name(name: &str) -> (code: Option<Code>)
    ensures
        code == spec_code(name@),
{
    if text_eq(name, "connected") {
        Some(Code::Connected)
    } else if text_eq(name, "disconnected") {
        Some(Code::Disconnected)
    } else if text_eq(name, "auth_success") {
        Some(Code::AuthSuccess)
    } else if text_eq(name, "auth_failed") {
        Some(Code::AuthFailure)
    } else if text_eq(name, "success") {
        Some(Code::Success)
    } else {
        None
    }
}

/// Reads the string that the member `key` holds.
pub fn text_field(members: &Vec<(String, String)>, key: &str) -> (r: Result<String, EventError>)
    ensures
        match r {
            Ok(value) => spec_text_field(pairs(members@), key@) == Some(value@),
            Err(error) => {
                &&& spec_text_field(pairs(members@), key@) is None
                &&& error@.fault() == Fault::Decode
                &&& spec_member(pairs(members@), key@) is None ==> error@
                    == EventErrorView::Decode(spec_missing_field(key@))
            },
        },
{
    match member(members, key) {
        None => Err(missing_field(key)),
        Some(raw) => match string_value(raw.as_str()) {
            Ok(value) => Ok(value),
            Err(error) => Err(refused(&error)),
        },
    }
}

/// Reads the integer that the member `key` holds.
pub fn u64_field(members: &Vec<(String, String)>, key: &str) -> (r: Result<u64, EventError>)
    ensures
        match r {
            Ok(value) => spec_u64_field(pairs(members@), key@) == Some(value),
            Err(error) => {
                &&& spec_u64_field(pairs(members@), key@) is None
                &&& error@.fault() == Fault::Decode
                &&& spec_member(pairs(members@), key@) is None ==> error@
                    == EventErrorView::Decode(spec_missing_field(key@))
            },
        },
{
    match member(members, key) {
        None => Err(missing_field(key)),
        Some(raw) => match u64_value(raw.as_str()) {
            Ok(value) => Ok(value),
            Err(error) => Err(refused(&error)),
        },
    }
}

/// Reads the decimal number that the member `key` holds.
pub fn decimal_field(members: &Vec<(String, String)>, key: &str) -> (r: Result<
    num_decimal::Num,
    EventError,
>)
    ensures
        match r {
            Ok(value) => spec_decimal_field(pairs(members@), key@) == Some(value),
            Err(error) => {
                &&& spec_decimal_field(pairs(members@), key@) is None
                &&& error@.fault() == Fault::Decode
                &&& spec_member(pairs(members@), key@) is None ==> error@
                    == EventErrorView::Decode(spec_missing_field(key@))
            },
        },
{
    match member(members, key) {
        None => Err(missing_field(key)),
        Some(raw) => match decimal_value(raw.as_str()) {
            Ok(value) => Ok(value),
            Err(error) => Err(refused(&error)),
        },
    }
}

/// The text of the error for a time stamp that cannot be held.
pub open spec fn spec_out_of_range() -> Seq<char> {
    "time stamp out of range"@
}

/// The decode error for a time stamp that cannot be held.
fn out_of_range() -> (error: EventError)
    ensures
        error@ == EventErrorView::Decode(spec_out_of_range()),
{
    EventError::Decode(String::from_str("time stamp out of range"))
}

/// Reads the point in time that the member `key` holds.
pub fn time_field(members: &Vec<(String, String)>, key: &str) -> (r: Result<
    std::time::SystemTime,
    EventError,
>)
    ensures
        match r {
            Ok(value) => spec_time_field(pairs(members@), key@) == Some(value),
            Err(error) => {
                &&& spec_time_field(pairs(members@), key@) is None
                &&& error@.fault() == Fault::Decode
                &&& spec_member(pairs(members@), key@) is None ==> error@
                    == EventErrorView::Decode(spec_missing_field(key@))
                &&& spec_u64_field(pairs(members@), key@) is Some ==> error@
                    == EventErrorView::Decode(spec_out_of_range())
            },
        },
{
    let millis = u64_field(members, key)?;
    if millis > MAX_TIMESTAMP_MILLIS {
        return Err(out_of_range());
    }
    match system_time_from_millis_in_new_york(millis) {
        Some(time) => Ok(time),
        None => Err(out_of_range()),
    }
}

/// Makes a status from the members `status` and `message` of an
/// object.
pub fn status_from_members(members: &Vec<(String, String)>) -> (r: Result<Status, EventError>)
    ensures
        match r {
            Ok(status) => spec_status(pairs(members@)) == Some(status@),
            Err(error) => spec_status(pairs(members@)) is None && error@.fault() == Fault::Decode,
        },
{
    let name = text_field(members, "status")?;
    let code = match code_from_name(name.as_str()) {
        Some(code) => code,
        None => {
            let mut text = String::from_str("unknown status `");
            text.append(name.as_str());
            text.append("`");
            return Err(EventError::Decode(text));
        },
    };
    let message = text_field(members, "message")?;
    Ok(Status { code, message })
}

/// Makes a trade from the members of an object.
pub fn trade_from_members(members: &Vec<(String, String)>) -> (r: Result<Trade, EventError>)
    ensures
        match r {
            Ok(trade) => spec_trade(pairs(members@)) == Some(trade@),
            Err(error) => spec_trade(pairs(members@)) is None && error@.fault() == Fault::Decode,
        },
{
    let symbol = text_field(members, "sym")?;
    let exchange = u64_field(members, "x")?;
    let price = decimal_field(members, "p")?;
    let quantity = u64_field(members, "s")?;
    let timestamp = time_field(members, "t")?;
    Ok(Trade { symbol, exchange, price, quantity, timestamp })
}

/// Makes a quote from the members of an object.
pub fn quote_from_members(members: &Vec<(String, String)>) -> (r: Result<Quote, EventError>)
    ensures
        match r {
            Ok(quote) => spec_quote(pairs(members@)) == Some(quote@),
            Err(error) => spec_quote(pairs(members@)) is None && error@.fault() == Fault::Decode,
        },
{
    let symbol = text_field(members, "sym")?;
    let bid_exchange = u64_field(members, "bx")?;
    let bid_price = decimal_field(members, "bp")?;
    let bid_quantity = u64_field(members, "bs")?;
    let ask_exchange = u64_field(members, "ax")?;
    let ask_price = decimal_field(members, "ap")?;
    let ask_quantity = u64_field(members, "as")?;
    let timestamp = time_field(members, "t")?;
    Ok(
        Quote {
            symbol,
            bid_exchange,
            bid_price,
            bid_quantity,
            ask_exchange,
            ask_price,
            ask_quantity,
            timestamp,
        },
    )
}

/// Makes an aggregate from the members of an object.
pub fn aggregate_from_members(members: &Vec<(String, String)>) -> (r: Result<Aggregate, EventError>)
    ensures
        match r {
            Ok(aggregate) => spec_aggregate(pairs(members@)) == Some(aggregate@),
            Err(error) => spec_aggregate(pairs(members@)) is None && error@.fault() == Fault::Decode,
        },
{
    let symbol = text_field(members, "sym")?;
    let volume = u64_field(members, "v")?;
    let volume_weighted_average_price = decimal_field(members, "vw")?;
    let open_price = decimal_field(members, "o")?;
    let close_price = decimal_field(members, "c")?;
    let high_price = decimal_field(members, "h")?;
    let low_price = decimal_field(members, "l")?;
    let start_timestamp = time_field(members, "s")?;
    let end_timestamp = time_field(members, "e")?;
    Ok(
        Aggregate {
            symbol,
            volume,
            volume_weighted_average_price,
            open_price,
            close_price,
            high_price,
            low_price,
            start_timestamp,
            end_timestamp,
        },
    )
}

/// Makes the message of kind `tag` from the members of an object.
pub fn message_from_members(tag: &str, members: &Vec<(String, String)>) -> (r: Result<
    Message,
    EventError,
>)
    ensures
        match r {
            Ok(message) => spec_tagged(tag@, pairs(members@)) == Some(message@),
            Err(error) => spec_tagged(tag@, pairs(members@)) is None && error@.fault() == Fault::Decode,
        },
{
    if text_eq(tag, "status") {
        Ok(Message::Status(status_from_members(members)?))
    } else if text_eq(tag, "A") {
        Ok(Message::SecondAggregate(aggregate_from_members(members)?))
    } else if text_eq(tag, "AM") {
        Ok(Message::MinuteAggregate(aggregate_from_members(members)?))
    } else if text_eq(tag, "T") {
        Ok(Message::Trade(trade_from_members(members)?))
    } else if text_eq(tag, "Q") {
        Ok(Message::Quote(quote_from_members(members)?))
    } else {
        let mut text = String::from_str("unknown message kind `");
        text.append(tag);
        text.append("`");
        Err(EventError::Decode(text))
    }
}

/// Makes a message from the JSON text of one array element.
pub fn message_from_text(text: &str) -> (r: Result<Message, EventError>)
    ensures
        match r {
            Ok(message) => spec_message(text@) == Some(message@),
            Err(error) => spec_message(text@) is None && error@.fault() == Fault::Decode,
        },
{
    let members = match object_members(text) {
        Ok(members) => members,
        Err(error) => {
            return Err(refused(&error));
        },
    };
    let tag = text_field(&members, "ev")?;
    message_from_members(tag.as_str(), &members)
}

/// Makes the batch of messages from the elements of an array.
pub fn messages_from_elements(elements: &Vec<String>) -> (r: Result<Vec<Message>, EventError>)
    ensures
        match r {
            Ok(batch) => spec_messages(texts(elements@)) == Some(message_views(batch@)),
            Err(error) => spec_messages(texts(elements@)) is None && error@.fault() == Fault::Decode,
        },
{
    let mut batch: Vec<Message> = Vec::new();
    let mut i: usize = 0;
    while i < elements.len()
        invariant
            i <= elements@.len(),
            batch@.len() == i,
            forall|k: int|
                0 <= k < i ==> (#[trigger] spec_message(texts(elements@)[k])) == Some(batch@[k]@),
        decreases elements@.len() - i,
    {
        match message_from_text(elements[i].as_str()) {
            Ok(message) => {
                batch.push(message);
            },
            Err(error) => {
                assert(spec_message(texts(elements@)[i as int]) is None);
                return Err(error);
            },
        }
        i += 1;
    }
    proof {
        assert(spec_messages(texts(elements@)).unwrap() =~= message_views(batch@));
    }
    Ok(batch)
}

/// Decodes the bytes of one frame into a batch of messages.
pub fn decode_messages(bytes: &[u8]) -> (r: Result<Vec<Message>, EventError>)
    ensures
        match r {
            Ok(batch) => decoded_messages(bytes@) == Some(message_views(batch@)),
            Err(error) => decoded_messages(bytes@) is None && error@.fault() == Fault::Decode,
        },
{
    match array_elements(bytes) {
        Ok(elements) => messages_from_elements(&elements),
        Err(error) => Err(refused(&error)),
    }
}

/// The trade that the JSON text of one object makes.
pub open spec fn spec_trade_text(text: Seq<char>) -> Option<TradeView> {
    match json_members(text) {
        Some(members) => spec_trade(members),
        None => None,
    }
}

/// The quote that the JSON text of one object makes.
pub open spec fn spec_quote_text(text: Seq<char>) -> Option<QuoteView> {
    match json_members(text) {
        Some(members) => spec_quote(members),
        None => None,
    }
}

/// The aggregate that the JSON text of one object makes.
pub open spec fn spec_aggregate_text(text: Seq<char>) -> Option<AggregateView> {
    match json_members(text) {
        Some(members) => spec_aggregate(members),
        None => None,
    }
}

/// The event that the JSON text of one object makes: the message that
/// it makes, unless that is a status.
pub open spec fn spec_event_text(text: Seq<char>) -> Option<EventView> {
    match spec_message(text) {
        Some(MessageView::SecondAggregate(aggregate)) => Some(EventView::SecondAggregate(aggregate)),
        Some(MessageView::MinuteAggregate(aggregate)) => Some(EventView::MinuteAggregate(aggregate)),
        Some(MessageView::Trade(trade)) => Some(EventView::Trade(trade)),
        Some(MessageView::Quote(quote)) => Some(EventView::Quote(quote)),
        _ => None,
    }
}

/// Makes a trade from the JSON text of one object.
pub fn trade_from_text(text: &str) -> (r: Result<Trade, EventError>)
    ensures
        match r {
            Ok(trade) => spec_trade_text(text@) == Some(trade@),
            Err(error) => spec_trade_text(text@) is None && error@.fault() == Fault::Decode,
        },
{
    match object_members(text) {
        Ok(members) => trade_from_members(&members),
        Err(error) => Err(refused(&error)),
    }
}

/// Makes a quote from the JSON text of one object.
pub fn quote_from_text(text: &str) -> (r: Result<Quote, EventError>)
    ensures
        match r {
            Ok(quote) => spec_quote_text(text@) == Some(quote@),
            Err(error) => spec_quote_text(text@) is None && error@.fault() == Fault::Decode,
        },
{
    match object_members(text) {
        Ok(members) => quote_from_members(&members),
        Err(error) => Err(refused(&error)),
    }
}

/// Makes an aggregate from the JSON text of one object.
pub fn aggregate_from_text(text: &str) -> (r: Result<Aggregate, EventError>)
    ensures
        match r {
            Ok(aggregate) => spec_aggregate_text(text@) == Some(aggregate@),
            Err(error) => spec_aggregate_text(text@) is None && error@.fault() == Fault::Decode,
        },
{
    match object_members(text) {
        Ok(members) => aggregate_from_members(&members),
        Err(error) => Err(refused(&error)),
    }
}

/// Makes an event from the JSON text of one object. A status is no
/// event.
pub fn event_from_text(text: &str) -> (r: Result<Event, EventError>)
    ensures
        match r {
            Ok(event) => spec_event_text(text@) == Some(event@),
            Err(error) => spec_event_text(text@) is None && error@.fault() == Fault::Decode,
        },
{
    match message_from_text(text)? {
        Message::SecondAggregate(aggregate) => Ok(Event::SecondAggregate(aggregate)),
        Message::MinuteAggregate(aggregate) => Ok(Event::MinuteAggregate(aggregate)),
        Message::Trade(trade) => Ok(Event::Trade(trade)),
        Message::Quote(quote) => Ok(Event::Quote(quote)),
        Message::Status(_) => Err(EventError::Decode(String::from_str("a status is no event"))),
    }
}

/// Whether the JSON text of an array element writes the given status:
/// an object of kind `status` whose member `status` names the code and
/// whose member `message` holds the message.
pub open spec fn writes_status(text: Seq<char>, status: StatusView) -> bool {
    &&& json_members(text) matches Some(members)
    &&& spec_text_field(members, "ev"@) == Some("status"@)
    &&& spec_text_field(members, "status"@) matches Some(name)
    &&& spec_code(name) == Some(status.code)
    &&& spec_text_field(members, "message"@) == Some(status.message)
}

/// Decoding an array of statuses keeps the code and the message of
/// each, in order.
pub proof fn lemma_statuses_are_kept(elements: Seq<Seq<char>>, statuses: Seq<StatusView>)
    requires
        elements.len() == statuses.len(),
        forall|i: int| 0 <= i < elements.len() ==> writes_status(#[trigger] elements[i], statuses[i]),
    ensures
        spec_messages(elements) == Some(
            Seq::new(statuses.len(), |i: int| MessageView::Status(statuses[i])),
        ),
{
    assert forall|i: int| 0 <= i < elements.len() implies (#[trigger] spec_message(elements[i]))
        == Some(MessageView::Status(statuses[i])) by {
        assert(writes_status(elements[i], statuses[i]));
    }
    assert(spec_messages(elements).unwrap() =~= Seq::new(
        statuses.len(),
        |i: int| MessageView::Status(statuses[i]),
    ));
}

} // verus!
