use polyio::error::EventError;
use polyio::events::channel::Frame;
use polyio::events::channel::Received;
use polyio::events::handshake::auth;
use polyio::events::handshake::await_responses;
use polyio::events::handshake::check_responses;
use polyio::events::handshake::count_confirmations;
use polyio::events::handshake::decode_responses;
use polyio::events::handshake::handshake;
use polyio::events::handshake::make_subscribe_request;
use polyio::events::handshake::subscribe_stocks;
use polyio::events::handshake::Action;
use polyio::events::handshake::Request;
use polyio::events::handshake::Response;
use polyio::events::handshake::Step;
use polyio::events::stream::Code;
use polyio::events::stream::Status;
use polyio::events::subscription::Stock;
use polyio::events::subscription::Subscription;

const CONNECTED_MSG: &str =
    r#"[{"ev":"status","status":"connected","message":"Connected Successfully"}]"#;
const AUTH_RESP: &str = r#"[{"ev":"status","status":"auth_success","message":"authenticated"}]"#;
const AUTH_FAILED: &str =
    r#"[{"ev":"status","status":"auth_failed","message":"authentication failed"}]"#;
const SUB_RESP: &str = r#"[
      {"ev":"status","status":"success","message":"subscribed to: T.MSFT"},
      {"ev":"status","status":"success","message":"subscribed to: Q.*"}]
    "#;
const MSFT_TRADE_MSG: &str = r#"[{"ev":"T","sym":"MSFT","i":8310,"x":4,"p":156.9799,"s":3,"c":[37],"t":1577818283019,"z":3}]"#;

fn text(payload: &str) -> Received {
    Received::Frame(Frame::Text(payload.to_string()))
}

fn subscriptions() -> Vec<Subscription> {
    vec![
        Subscription::Trades(Stock::Symbol("MSFT".into())),
        Subscription::Quotes(Stock::All),
    ]
}

/// Feeds the reads to a handshake, as the caller of the library does,
/// and returns how it ended, the frames that were sent and the number
/// of reads that were used.
fn drive(
    api_key: &str,
    subscriptions: Vec<Subscription>,
    reads: Vec<Received>,
) -> (Option<Result<(), EventError>>, Vec<Frame>, usize) {
    let mut sent = Vec::new();
    let mut used = 0;
    let mut state = handshake(api_key.to_string(), subscriptions);
    for read in reads {
        used += 1;
        match state.on_received(read) {
            Step::Receive(next) => state = next,
            Step::Send(frame, next) => {
                sent.push(frame);
                state = next;
            },
            Step::Done => return (Some(Ok(())), sent, used),
            Step::Failed(error) => return (Some(Err(error)), sent, used),
        }
    }
    (None, sent, used)
}

#[test]
fn encode_auth_request() {
    let api_key = "some-key".to_string();
    let expected = { r#"{"action":"auth","params":"some-key"}"# };

    let request = Request::new(Action::Authenticate, api_key);
    let json = request.to_json();

    assert_eq!(json, expected)
}

#[test]
fn encode_subscribe_request() {
    let subscriptions = vec![
        Subscription::Trades(Stock::Symbol("MSFT".into())),
        Subscription::Quotes(Stock::All),
    ];
    let (request, count) = make_subscribe_request(subscriptions).unwrap();
    assert_eq!(count, 2);

    let expected = r#"{"action":"subscribe","params":"T.MSFT,Q.*"}"#;
    let json = request.to_json();

    assert_eq!(json, expected)
}

#[test]
fn decode_auth_response() {
    let json = r#"[{"ev":"status","status":"success","message":"authenticated"}]"#;
    let mut resp = decode_responses(json.as_bytes()).unwrap();

    assert_eq!(resp.len(), 1);

    let status = resp.remove(0).into_status().unwrap();
    assert_eq!(status.code, Code::Success);
    assert_eq!(status.message, "authenticated".to_string());
}

#[test]
fn decode_auth_response_unauthorized() {
    let json = r#"[{"ev":"status","status":"auth_failed","message":"authentication failed"}]"#;
    let mut resp = decode_responses(json.as_bytes()).unwrap();

    assert_eq!(resp.len(), 1);

    let status = resp.remove(0).into_status().unwrap();
    assert_eq!(status.code, Code::AuthFailure);
    assert_eq!(status.message, "authentication failed".to_string());
}

#[test]
fn decode_subscribe_response() {
    let json = r#"[{"ev":"status","status":"success","message":"subscribed to: T.MSFT"}]"#;
    let mut resp = decode_responses(json.as_bytes()).unwrap();

    assert_eq!(resp.len(), 1);

    let status = resp.remove(0).into_status().unwrap();
    assert_eq!(status.code, Code::Success);
    assert_eq!(status.message, "subscribed to: T.MSFT".to_string());
}

#[test]
fn request_new_keeps_its_arguments() {
    let request = Request::new(Action::Subscribe, "T.MSFT".to_string());
    assert_eq!(request.action, Action::Subscribe);
    assert_eq!(request.params, "T.MSFT");
}

#[test]
fn request_params_are_escaped() {
    let request = Request::new(Action::Authenticate, "a\"b\\c\n".to_string());
    assert_eq!(request.to_json(), r#"{"action":"auth","params":"a\"b\\c\n"}"#);
}

#[test]
fn auth_request_text() {
    assert_eq!(
        auth("USER12345678".to_string()),
        r#"{"action":"auth","params":"USER12345678"}"#
    );
}

#[test]
fn subscription_texts() {
    assert_eq!(Subscription::SecondAggregates(Stock::All).to_string(), "A.*");
    assert_eq!(
        Subscription::MinuteAggregates(Stock::Symbol("SPY".into())).to_string(),
        "AM.SPY"
    );
    assert_eq!(Subscription::Trades(Stock::Symbol("MSFT".into())).to_string(), "T.MSFT");
    assert_eq!(Subscription::Quotes(Stock::All).to_string(), "Q.*");
    assert_eq!(Stock::All.to_string(), "*");
    assert_eq!(Stock::Symbol("AAPL".into()).to_string(), "AAPL");
}

#[test]
fn subscribe_request_for_one_and_for_three() {
    let (request, count) =
        make_subscribe_request(vec![Subscription::Quotes(Stock::Symbol("UFO".into()))]).unwrap();
    assert_eq!(count, 1);
    assert_eq!(request.action, Action::Subscribe);
    assert_eq!(request.params, "Q.UFO");

    let (json, count) = subscribe_stocks(vec![
        Subscription::Trades(Stock::All),
        Subscription::SecondAggregates(Stock::Symbol("SPY".into())),
        Subscription::MinuteAggregates(Stock::Symbol("SPY".into())),
    ])
    .unwrap();
    assert_eq!(count, 3);
    assert_eq!(json, r#"{"action":"subscribe","params":"T.*,A.SPY,AM.SPY"}"#);
}

#[test]
fn no_subscriptions_is_a_protocol_error() {
    let expected = EventError::Protocol(
        "failed to subscribe to event stream: no subscriptions supplied".to_string(),
    );
    assert_eq!(make_subscribe_request(Vec::new()).unwrap_err(), expected);
    assert_eq!(subscribe_stocks(Vec::new()).unwrap_err(), expected);
}

#[test]
fn response_into_status() {
    let status = Status { code: Code::Connected, message: "hello".to_string() };
    assert_eq!(Response::Status(status.clone()).into_status(), Some(status));
    assert_eq!(Response::Trade.into_status(), None);
    assert_eq!(Response::Quote.into_status(), None);
    assert_eq!(Response::SecondAggregate.into_status(), None);
    assert_eq!(Response::MinuteAggregate.into_status(), None);
}

#[test]
fn responses_keep_kind_and_order() {
    let json = r#"[{"ev":"T","sym":"MSFT"},
        {"ev":"status","status":"disconnected","message":"bye"},
        {"ev":"Q"}, {"ev":"A","extra":[1,{"deep":null}]}, {"ev":"AM"}]"#;
    let responses = decode_responses(json.as_bytes()).unwrap();
    assert_eq!(
        responses,
        vec![
            Response::Trade,
            Response::Status(Status { code: Code::Disconnected, message: "bye".to_string() }),
            Response::Quote,
            Response::SecondAggregate,
            Response::MinuteAggregate,
        ]
    );
}

#[test]
fn responses_that_do_not_decode() {
    let cases = [
        r#"{"ev":"status","status":"success","message":"not in an array"}"#,
        r#"[{"ev":"status","status":"success","message":"cut off"}"#,
        r#"[{"status":"success","message":"no kind"}]"#,
        r#"[{"ev":"X"}]"#,
        r#"[{"ev":"status","status":"okay","message":"unknown code"}]"#,
        r#"[{"ev":"status","message":"no code"}]"#,
        r#"[{"ev":"status","status":"success"}]"#,
        r#"[{"ev":"status","status":"success","message":7}]"#,
        r#"[{"ev":12}]"#,
        r#"[17]"#,
        r#""#,
    ];
    for json in cases {
        match decode_responses(json.as_bytes()) {
            Err(EventError::Decode(_)) => (),
            other => panic!("unexpected result for {}: {:?}", json, other),
        }
    }
}

#[test]
fn an_empty_array_is_an_empty_batch() {
    assert_eq!(decode_responses(b"[]").unwrap(), Vec::new());
    assert_eq!(check_responses(b" [ ] ", Code::Success, 2, "subscription").unwrap(), 2);
}

#[test]
fn confirmations_are_counted() {
    let success = |text: &str| {
        Response::Status(Status { code: Code::Success, message: text.to_string() })
    };
    let batch = vec![Response::Trade, success("one"), Response::Quote, success("two")];
    assert_eq!(count_confirmations(&batch, Code::Success, 5, "subscription").unwrap(), 3);
    assert_eq!(count_confirmations(&batch, Code::Success, 2, "subscription").unwrap(), 0);
    assert_eq!(count_confirmations(&Vec::new(), Code::Success, 2, "subscription").unwrap(), 2);
}

#[test]
fn what_follows_the_last_confirmation_is_not_read() {
    let batch = vec![
        Response::Status(Status { code: Code::Success, message: "one".to_string() }),
        Response::Status(Status { code: Code::AuthFailure, message: "late".to_string() }),
    ];
    assert_eq!(count_confirmations(&batch, Code::Success, 1, "subscription").unwrap(), 0);
    assert_eq!(
        count_confirmations(&batch, Code::Success, 2, "subscription").unwrap_err(),
        EventError::Protocol("subscription not successful: late".to_string())
    );
}

#[test]
fn an_unexpected_status_names_operation_and_message() {
    let error = check_responses(AUTH_FAILED.as_bytes(), Code::AuthSuccess, 1, "authentication")
        .unwrap_err();
    assert_eq!(
        error,
        EventError::Protocol("authentication not successful: authentication failed".to_string())
    );
    assert_eq!(error.to_string(), "authentication not successful: authentication failed");
}

#[test]
fn check_responses_counts_in_bytes() {
    assert_eq!(check_responses(SUB_RESP.as_bytes(), Code::Success, 2, "subscription").unwrap(), 0);
    assert_eq!(check_responses(SUB_RESP.as_bytes(), Code::Success, 3, "subscription").unwrap(), 1);
    assert_eq!(
        check_responses(MSFT_TRADE_MSG.as_bytes(), Code::Success, 3, "subscription").unwrap(),
        3
    );
    match check_responses(b"[{]", Code::Success, 3, "subscription") {
        Err(EventError::Decode(_)) => (),
        other => panic!("unexpected result: {:?}", other),
    }
}

#[test]
fn await_responses_on_each_kind_of_read() {
    let awaited = |read: Received| await_responses(read, Code::Success, 2, "subscription");
    assert_eq!(awaited(text(SUB_RESP)).unwrap(), (0, None));
    assert_eq!(
        awaited(Received::Frame(Frame::Binary(SUB_RESP.as_bytes().to_vec()))).unwrap(),
        (0, None)
    );
    assert_eq!(awaited(text(MSFT_TRADE_MSG)).unwrap(), (2, None));
    assert_eq!(
        awaited(Received::Frame(Frame::Ping(vec![1, 2, 3]))).unwrap(),
        (2, Some(Frame::Pong(vec![1, 2, 3])))
    );
    assert_eq!(awaited(Received::Frame(Frame::Pong(vec![9]))).unwrap(), (2, None));
    let closed = EventError::Transport("websocket connection closed unexpectedly".to_string());
    assert_eq!(awaited(Received::Frame(Frame::Close)).unwrap_err(), closed);
    assert_eq!(awaited(Received::Exhausted).unwrap_err(), closed);
    assert_eq!(
        awaited(Received::Failed("broken pipe".to_string())).unwrap_err(),
        EventError::Transport("broken pipe".to_string())
    );
    assert_eq!(
        awaited(text(AUTH_RESP)).unwrap_err(),
        EventError::Protocol("subscription not successful: authenticated".to_string())
    );
}

#[test]
fn handshake_runs_to_completion() {
    let reads = vec![text(CONNECTED_MSG), text(AUTH_RESP), text(SUB_RESP), text(MSFT_TRADE_MSG)];
    let (end, sent, used) = drive("USER12345678", subscriptions(), reads);
    assert_eq!(end, Some(Ok(())));
    assert_eq!(used, 3);
    assert_eq!(
        sent,
        vec![
            Frame::Text(r#"{"action":"auth","params":"USER12345678"}"#.to_string()),
            Frame::Text(r#"{"action":"subscribe","params":"T.MSFT,Q.*"}"#.to_string()),
        ]
    );
}

#[test]
fn handshake_counts_confirmations_over_frames() {
    let one = r#"[{"ev":"status","status":"success","message":"subscribed to: T.MSFT"}]"#;
    let reads = vec![
        text(CONNECTED_MSG),
        text(AUTH_RESP),
        text(one),
        text(MSFT_TRADE_MSG),
        text("[]"),
        text(one),
        text(one),
    ];
    let (end, sent, used) = drive("key", subscriptions(), reads.clone());
    assert_eq!(end, Some(Ok(())));
    assert_eq!(used, 6);
    assert_eq!(sent.len(), 2);

    let (end, _, used) = drive("key", subscriptions(), reads[..5].to_vec());
    assert_eq!(end, None);
    assert_eq!(used, 5);
}

#[test]
fn handshake_fails_on_rejected_credential() {
    let reads = vec![text(CONNECTED_MSG), text(AUTH_FAILED), text(SUB_RESP)];
    let (end, sent, used) = drive("wrong", subscriptions(), reads);
    assert_eq!(
        end,
        Some(Err(EventError::Protocol(
            "authentication not successful: authentication failed".to_string()
        )))
    );
    assert_eq!(used, 2);
    assert_eq!(sent, vec![Frame::Text(r#"{"action":"auth","params":"wrong"}"#.to_string())]);
}

#[test]
fn handshake_without_subscriptions_sends_no_subscribe_request() {
    let reads = vec![text(CONNECTED_MSG), text(AUTH_RESP), text(SUB_RESP)];
    let (end, sent, used) = drive("key", Vec::new(), reads);
    assert_eq!(
        end,
        Some(Err(EventError::Protocol(
            "failed to subscribe to event stream: no subscriptions supplied".to_string()
        )))
    );
    assert_eq!(used, 2);
    assert_eq!(sent, vec![Frame::Text(r#"{"action":"auth","params":"key"}"#.to_string())]);
}

#[test]
fn handshake_answers_pings_and_counts_nothing_for_them() {
    let reads = vec![
        Received::Frame(Frame::Ping(vec![7])),
        text(CONNECTED_MSG),
        Received::Frame(Frame::Pong(vec![8])),
        text(AUTH_RESP),
        Received::Frame(Frame::Ping(Vec::new())),
        text(SUB_RESP),
    ];
    let (end, sent, used) = drive("key", subscriptions(), reads);
    assert_eq!(end, Some(Ok(())));
    assert_eq!(used, 6);
    assert_eq!(
        sent,
        vec![
            Frame::Pong(vec![7]),
            Frame::Text(r#"{"action":"auth","params":"key"}"#.to_string()),
            Frame::Text(r#"{"action":"subscribe","params":"T.MSFT,Q.*"}"#.to_string()),
            Frame::Pong(Vec::new()),
        ]
    );
}

#[test]
fn handshake_fails_when_the_channel_ends() {
    let closed = EventError::Transport("websocket connection closed unexpectedly".to_string());
    let (end, _, _) = drive("key", subscriptions(), vec![Received::Frame(Frame::Close)]);
    assert_eq!(end, Some(Err(closed.clone())));
    let (end, _, _) =
        drive("key", subscriptions(), vec![text(CONNECTED_MSG), Received::Exhausted]);
    assert_eq!(end, Some(Err(closed)));
    let reads = vec![text(CONNECTED_MSG), text(AUTH_RESP), Received::Failed("reset".to_string())];
    let (end, _, _) = drive("key", subscriptions(), reads);
    assert_eq!(end, Some(Err(EventError::Transport("reset".to_string()))));
}

#[test]
fn handshake_fails_on_a_status_of_another_step() {
    let (end, _, _) = drive("key", subscriptions(), vec![text(AUTH_RESP)]);
    assert_eq!(
        end,
        Some(Err(EventError::Protocol("connection not successful: authenticated".to_string())))
    );
}

#[test]
fn handshake_fails_on_a_frame_that_does_not_decode() {
    let (end, _, _) = drive("key", subscriptions(), vec![text("{")]);
    match end {
        Some(Err(EventError::Decode(_))) => (),
        other => panic!("unexpected end: {:?}", other),
    }
}
