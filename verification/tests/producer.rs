use pythagoras::codec::{decode, encode};
use pythagoras::data_model::{OrderbookArg, OrderbookDataElement, WebsocketPushData};
use pythagoras::mongodb_consumer::MongoDB;
use pythagoras::producer::{
    ErrorAction, FatalError, FeedState, ListenOutcome, OkexProducer, ProducerError, StartupError,
    TransportFault,
};
use pythagoras::redis_consumer::Redis;
use pythagoras::consumer::Consumer;
use tungstenite::error::Error as TungsteniteError;
use tungstenite::Message;

const SNAPSHOT: &str = "{\"arg\":{\"channel\":\"books\",\"instId\":\"BTC-USD-SWAP\"},\"action\":\"snapshot\",\"data\":[{\"asks\":[[\"33919.8\",\"105\",\"0\",\"2\"]],\"bids\":[[\"33910.0\",\"10\",\"0\",\"1\"]],\"ts\":\"1700000000000\",\"checksum\":-123}]}";

fn level(price: &str, size: &str, liquidated: &str, total: &str) -> (String, String, String, String) {
    (String::from(price), String::from(size), String::from(liquidated), String::from(total))
}

fn snapshot_message() -> WebsocketPushData {
    WebsocketPushData::Orderbook {
        arg: OrderbookArg { channel: String::from("books"), inst_id: String::from("BTC-USD-SWAP") },
        action: String::from("snapshot"),
        data: vec![OrderbookDataElement {
            asks: vec![level("33919.8", "105", "0", "2")],
            bids: vec![level("33910.0", "10", "0", "1")],
            ts: String::from("1700000000000"),
            checksum: -123,
        }],
    }
}

#[test]
fn test_parse_message_non_text() {
    let data: Vec<u8> = vec![195, 28]; // Invalid UTF-8 code point.
    let message = Message::binary(data);
    let actual = OkexProducer::parse_message(message);
    assert!(matches!(actual, Result::Err(ProducerError::NonTextError(_))));
}

#[test]
fn test_parse_message_invalid_json() {
    let data = String::from("{\"test_data\": 1}");
    let message = Message::text(data);
    let actual = OkexProducer::parse_message(message);
    assert!(matches!(actual, Result::Err(ProducerError::DeserializationError(_))));
}

#[test]
fn test_format_orderbook_request() {
    let expected = Message::Text("{\
    \"op\": \"subscribe\",
    \"args\": [
        {
            \"channel\": \"books\",
            \"instId\": \"TEST-PAIR\"
        }
    ]
}".into());
    let result = OkexProducer::format_orderbook_request("TEST-PAIR");
    assert_eq!(result, expected)
}

#[test]
fn subscription_request_is_the_wire_json() {
    let text = OkexProducer::subscription_request("BTC-USD-SWAP");
    let value: serde_json::Value = serde_json::from_str(&text).unwrap();
    let wire: serde_json::Value = serde_json::from_str(
        "{\"op\":\"subscribe\",\"args\":[{\"channel\":\"books\",\"instId\":\"BTC-USD-SWAP\"}]}",
    )
    .unwrap();
    assert_eq!(value, wire);
    assert!(text.contains("\"instId\": \"BTC-USD-SWAP\""));
}

#[test]
fn subscription_request_keeps_the_instrument_as_given() {
    let text = OkexProducer::subscription_request("");
    assert!(text.ends_with("\"instId\": \"\"\n        }\n    ]\n}"));
    let text = OkexProducer::subscription_request("a-1");
    assert!(text.starts_with("{\"op\": \"subscribe\",\n    \"args\": ["));
    assert!(text.ends_with("\"instId\": \"a-1\"\n        }\n    ]\n}"));
}

#[test]
fn request_orderbooks_follows_the_list() {
    let ids = vec![String::from("BTC-USD-SWAP"), String::from("ETH-USD-SWAP")];
    let requests = OkexProducer::request_orderbooks(&ids);
    assert_eq!(requests.len(), 2);
    assert_eq!(requests[0], OkexProducer::format_orderbook_request("BTC-USD-SWAP"));
    assert_eq!(requests[1], OkexProducer::format_orderbook_request("ETH-USD-SWAP"));
    assert!(OkexProducer::request_orderbooks(&Vec::new()).is_empty());
}

#[test]
fn parse_text_reads_the_snapshot() {
    let parsed = OkexProducer::parse_text(String::from(SNAPSHOT));
    match parsed {
        Ok(message) => assert_eq!(message, snapshot_message()),
        Err(error) => panic!("no message: {:?}", error),
    }
}

#[test]
fn parse_message_reads_a_text_frame() {
    let parsed = OkexProducer::parse_message(Message::text(SNAPSHOT));
    assert_eq!(parsed.ok(), Some(snapshot_message()));
}

#[test]
fn parse_text_keeps_the_offending_text() {
    let text = "{\"test_data\":1}";
    match OkexProducer::parse_text(String::from(text)) {
        Err(ProducerError::DeserializationError(kept)) => assert_eq!(kept, text),
        other => panic!("unexpected: {:?}", other),
    }
    match OkexProducer::parse_text(String::from("not json")) {
        Err(ProducerError::DeserializationError(kept)) => assert_eq!(kept, "not json"),
        other => panic!("unexpected: {:?}", other),
    }
}

#[test]
fn parse_decoded_wraps_the_transport_failure() {
    let parsed = OkexProducer::parse_decoded(Err(TungsteniteError::Utf8));
    assert!(matches!(parsed, Err(ProducerError::NonTextError(TungsteniteError::Utf8))));
    let parsed = OkexProducer::parse_decoded(Ok(String::from(SNAPSHOT)));
    assert_eq!(parsed.ok(), Some(snapshot_message()));
}

#[test]
fn decode_is_structural() {
    // A level needs exactly four strings.
    assert_eq!(decode("{\"arg\":{\"channel\":\"books\",\"instId\":\"X\"},\"action\":\"a\",\"data\":[{\"asks\":[[\"1\",\"2\",\"3\"]],\"bids\":[],\"ts\":\"1\",\"checksum\":1}]}"), None);
    assert_eq!(decode("{\"arg\":{\"channel\":\"books\",\"instId\":\"X\"},\"action\":\"a\",\"data\":[{\"asks\":[[\"1\",\"2\",\"3\",4]],\"bids\":[],\"ts\":\"1\",\"checksum\":1}]}"), None);
    // The checksum is an integer.
    assert_eq!(decode("{\"arg\":{\"channel\":\"books\",\"instId\":\"X\"},\"action\":\"a\",\"data\":[{\"asks\":[],\"bids\":[],\"ts\":\"1\",\"checksum\":\"1\"}]}"), None);
    assert_eq!(decode("{\"arg\":{\"channel\":\"books\",\"instId\":\"X\"},\"action\":\"a\",\"data\":[{\"asks\":[],\"bids\":[],\"ts\":\"1\",\"checksum\":1.5}]}"), None);
    // A member is missing.
    assert_eq!(decode("{\"arg\":{\"channel\":\"books\",\"instId\":\"X\"},\"data\":[]}"), None);
    assert_eq!(decode("{\"arg\":{\"channel\":\"books\"},\"action\":\"a\",\"data\":[]}"), None);
    assert_eq!(decode("[]"), None);
    // No snapshot at all is still a message; members that are not known are passed over.
    let empty = decode("{\"arg\":{\"channel\":\"books\",\"instId\":\"X\"},\"action\":\"a\",\"data\":[],\"more\":1}");
    assert_eq!(
        empty,
        Some(WebsocketPushData::Orderbook {
            arg: OrderbookArg { channel: String::from("books"), inst_id: String::from("X") },
            action: String::from("a"),
            data: Vec::new(),
        })
    );
    assert!(!empty.unwrap().has_snapshot());
}

#[test]
fn decode_keeps_levels_in_feed_order_and_the_checksum_range() {
    let text = "{\"arg\":{\"channel\":\"books\",\"instId\":\"X\"},\"action\":\"update\",\"data\":[{\"asks\":[[\"3\",\"1\",\"0\",\"1\"],[\"1\",\"1\",\"0\",\"1\"],[\"2\",\"1\",\"0\",\"1\"]],\"bids\":[],\"ts\":\"7\",\"checksum\":-9223372036854775808},{\"asks\":[],\"bids\":[],\"ts\":\"8\",\"checksum\":9223372036854775807}]}";
    let message = decode(text).unwrap();
    assert_eq!(message.instrument(), "X");
    let first = message.first_snapshot();
    let prices: Vec<&str> = first.asks.iter().map(|order| order.0.as_str()).collect();
    assert_eq!(prices, vec!["3", "1", "2"]);
    assert_eq!(first.checksum, i64::MIN);
    match message {
        WebsocketPushData::Orderbook { data, action, .. } => {
            assert_eq!(action, "update");
            assert_eq!(data.len(), 2);
            assert_eq!(data[1].checksum, i64::MAX);
            assert_eq!(data[1].ts, "8");
        }
    }
    let too_large = "{\"arg\":{\"channel\":\"books\",\"instId\":\"X\"},\"action\":\"a\",\"data\":[{\"asks\":[],\"bids\":[],\"ts\":\"7\",\"checksum\":9223372036854775808}]}";
    assert_eq!(decode(too_large), None);
}

#[test]
fn classify_fault_names_the_fatal_ones() {
    assert_eq!(OkexProducer::classify_fault(TransportFault::ConnectionClosed), Some(FatalError::ConnectionClosed));
    assert_eq!(OkexProducer::classify_fault(TransportFault::AlreadyClosed), Some(FatalError::ConnectionClosed));
    assert_eq!(OkexProducer::classify_fault(TransportFault::Io), Some(FatalError::Io));
    for fault in [
        TransportFault::Tls,
        TransportFault::Capacity,
        TransportFault::Protocol,
        TransportFault::SendQueueFull,
        TransportFault::Utf8,
        TransportFault::Url,
        TransportFault::Http,
        TransportFault::HttpFormat,
    ] {
        assert_eq!(OkexProducer::classify_fault(fault), None);
    }
}

#[test]
fn handle_error_follows_the_table() {
    let closed = OkexProducer::handle_error(ProducerError::ReadError(TungsteniteError::ConnectionClosed));
    assert!(matches!(closed, ErrorAction::Terminate(FatalError::ConnectionClosed)));
    let already = OkexProducer::handle_error(ProducerError::ReadError(TungsteniteError::AlreadyClosed));
    assert!(matches!(already, ErrorAction::Terminate(FatalError::ConnectionClosed)));
    let broken = std::io::Error::new(std::io::ErrorKind::BrokenPipe, "broken");
    let io = OkexProducer::handle_error(ProducerError::ReadError(TungsteniteError::Io(broken)));
    assert!(matches!(io, ErrorAction::Terminate(FatalError::Io)));
    let other = OkexProducer::handle_error(ProducerError::ReadError(TungsteniteError::Utf8));
    assert!(matches!(other, ErrorAction::LogUnknown(ProducerError::ReadError(TungsteniteError::Utf8))));
    let queue = OkexProducer::handle_error(ProducerError::ReadError(TungsteniteError::SendQueueFull(Message::text("x"))));
    assert!(matches!(queue, ErrorAction::LogUnknown(ProducerError::ReadError(TungsteniteError::SendQueueFull(_)))));
    // A closed connection is fatal only where the read reported it.
    let non_text = OkexProducer::handle_error(ProducerError::NonTextError(TungsteniteError::ConnectionClosed));
    assert!(matches!(non_text, ErrorAction::LogNonText));
    let schema = OkexProducer::handle_error(ProducerError::DeserializationError(String::from("{}")));
    match schema {
        ErrorAction::LogUnknownSchema(text) => assert_eq!(text, "{}"),
        other => panic!("unexpected: {:?}", other),
    }
}

#[test]
fn report_gives_the_log_lines() {
    assert_eq!(FatalError::ConnectionClosed.message(), "Websocket connection closed.");
    assert_eq!(FatalError::Io.message(), "Websocket IO error.");
    assert_eq!(ErrorAction::Terminate(FatalError::Io).report(), Some(String::from("Websocket IO error.")));
    assert_eq!(ErrorAction::LogNonText.report(), Some(String::from("Received non-text data in websocket response.")));
    assert_eq!(
        ErrorAction::LogUnknownSchema(String::from("{\"a\":1}")).report(),
        Some(String::from("Couldn't deserialize data into any known schema. JSON received: {\"a\":1}"))
    );
    assert_eq!(ErrorAction::LogUnknown(ProducerError::ReadError(TungsteniteError::Utf8)).report(), None);
}

#[test]
fn connect_refuses_a_malformed_endpoint() {
    let started = OkexProducer::connect("wss://wspap.okex.com:8443/ws/v5/public?brokerId=9999");
    assert_eq!(started.unwrap().state, FeedState::Subscribing);
    match OkexProducer::connect("not a url") {
        Err(StartupError::InvalidEndpoint(kept)) => assert_eq!(kept, "not a url"),
        Ok(_) => panic!("accepted"),
    }
    assert!(OkexProducer::accept_endpoint("x", true).is_ok());
    assert_eq!(OkexProducer::accept_endpoint("x", false).err(), Some(StartupError::InvalidEndpoint(String::from("x"))));
}

#[test]
fn listen_dispatches_and_survives_bad_frames() {
    let mut producer = OkexProducer::connect("ws://localhost:1/").unwrap();
    let mut sinks = vec![Redis::connect("redis://localhost:6379/"), Redis::connect("redis://other:6379/")];

    let outcome = producer.listen(&mut sinks, Ok(Message::binary(vec![195u8, 28u8])));
    assert!(matches!(outcome, ListenOutcome::Failed(ErrorAction::LogNonText)));
    assert_eq!(producer.state, FeedState::Listening);
    assert!(sinks.iter().all(|sink| sink.pending.is_empty()));

    let outcome = producer.listen(&mut sinks, Ok(Message::text("{\"test_data\": 1}")));
    match outcome {
        ListenOutcome::Failed(ErrorAction::LogUnknownSchema(text)) => assert_eq!(text, "{\"test_data\": 1}"),
        other => panic!("unexpected: {:?}", other),
    }
    assert_eq!(producer.state, FeedState::Listening);

    let outcome = producer.listen(&mut sinks, Err(TungsteniteError::Utf8));
    assert!(matches!(outcome, ListenOutcome::Failed(ErrorAction::LogUnknown(_))));
    assert_eq!(producer.state, FeedState::Listening);

    let outcome = producer.listen(&mut sinks, Ok(Message::text(SNAPSHOT)));
    assert!(matches!(outcome, ListenOutcome::Dispatched));
    assert!(sinks.iter().all(|sink| sink.pending.len() == 2));

    let empty = "{\"arg\":{\"channel\":\"books\",\"instId\":\"X\"},\"action\":\"a\",\"data\":[]}";
    let outcome = producer.listen(&mut sinks, Ok(Message::text(empty)));
    assert!(matches!(outcome, ListenOutcome::Unfit(_)));
    assert!(sinks.iter().all(|sink| sink.pending.len() == 2));

    let outcome = producer.listen(&mut sinks, Err(TungsteniteError::ConnectionClosed));
    assert!(matches!(outcome, ListenOutcome::Failed(ErrorAction::Terminate(FatalError::ConnectionClosed))));
    assert_eq!(producer.state, FeedState::Terminated);
}

#[test]
fn turn_classifies_a_failure_and_touches_no_sink() {
    let mut producer = OkexProducer { state: FeedState::Subscribing };
    let mut sinks = vec![MongoDB::connect("mongodb://localhost:27017/")];
    let broken = std::io::Error::new(std::io::ErrorKind::Other, "gone");
    let outcome = producer.turn(&mut sinks, Err(ProducerError::ReadError(TungsteniteError::Io(broken))));
    assert!(matches!(outcome, ListenOutcome::Failed(ErrorAction::Terminate(FatalError::Io))));
    assert_eq!(producer.state, FeedState::Terminated);
    assert!(sinks[0].pending.is_empty());
}

#[test]
fn end_to_end_snapshot_reaches_both_stores() {
    let ids = vec![String::from("BTC-USD-SWAP")];
    let requests = OkexProducer::request_orderbooks(&ids);
    assert_eq!(requests.len(), 1);
    let message = OkexProducer::parse_message(Message::text(SNAPSHOT)).unwrap();

    let mut documents = MongoDB::connect("mongodb://localhost:27017/");
    let mut hashes = Redis::connect("redis://localhost:6379/");
    documents.write(&message);
    hashes.write(&message);

    let inserts = documents.take_pending();
    assert_eq!(inserts.len(), 1);
    assert_eq!(inserts[0].database, "orderbook");
    assert_eq!(inserts[0].collection, "BTC-USD-SWAP");
    assert_eq!(
        inserts[0].document,
        OrderbookDataElement {
            asks: vec![level("33919.8", "105", "0", "2")],
            bids: vec![level("33910.0", "10", "0", "1")],
            ts: String::from("1700000000000"),
            checksum: -123,
        }
    );

    let writes = hashes.take_pending();
    assert_eq!(writes.len(), 2);
    assert_eq!(writes[0].key, "orderbook:BTC-USD-SWAP:asks");
    assert_eq!(writes[0].field, "33919.8");
    assert_eq!(writes[0].value, "105,0,2");
    assert_eq!(writes[1].key, "orderbook:BTC-USD-SWAP:bids");
    assert_eq!(writes[1].field, "33910.0");
    assert_eq!(writes[1].value, "10,0,1");
    assert!(hashes.pending.is_empty());
    assert!(documents.pending.is_empty());
}

#[test]
fn written_out_and_parsed_gives_the_message_back() {
    let plain = snapshot_message();
    let written: serde_json::Value = serde_json::from_str(&encode(&plain)).unwrap();
    let wire: serde_json::Value = serde_json::from_str(SNAPSHOT).unwrap();
    assert_eq!(written, wire);
    assert_eq!(OkexProducer::parse_text(encode(&plain)).ok(), Some(snapshot_message()));
    assert_eq!(decode(&encode(&plain)), Some(snapshot_message()));

    let odd = WebsocketPushData::Orderbook {
        arg: OrderbookArg { channel: String::from("bo\"oks\\"), inst_id: String::from("é-\n-1") },
        action: String::from(""),
        data: vec![
            OrderbookDataElement {
                asks: vec![level("1", "2", "3", "4"), level("", "\t", "{}", "[]")],
                bids: Vec::new(),
                ts: String::from("0"),
                checksum: i64::MIN,
            },
            OrderbookDataElement { asks: Vec::new(), bids: vec![level("5", "6", "7", "8")], ts: String::from("9"), checksum: 0 },
        ],
    };
    let parsed = OkexProducer::parse_message(Message::text(encode(&odd))).unwrap();
    assert_eq!(parsed, odd);
    let empty = WebsocketPushData::Orderbook {
        arg: OrderbookArg { channel: String::new(), inst_id: String::new() },
        action: String::new(),
        data: Vec::new(),
    };
    assert_eq!(decode(&encode(&empty)), Some(empty));
}

#[test]
fn binary_frame_is_never_a_message() {
    let parsed = OkexProducer::parse_message(Message::binary(SNAPSHOT.as_bytes().to_vec()));
    assert!(matches!(parsed, Err(ProducerError::NonTextError(TungsteniteError::Utf8))));
    let parsed = OkexProducer::parse_message(Message::binary(Vec::<u8>::new()));
    assert!(matches!(parsed, Err(ProducerError::NonTextError(_))));
    let parsed = OkexProducer::parse_message(Message::Ping(vec![1u8, 2u8]));
    assert!(matches!(parsed, Err(ProducerError::NonTextError(_))));
    let parsed = OkexProducer::parse_message(Message::Close(None));
    assert!(matches!(parsed, Err(ProducerError::NonTextError(_))));

    let mut producer = OkexProducer::connect("ws://localhost:1/").unwrap();
    let mut sinks = vec![Redis::connect("")];
    let outcome = producer.listen(&mut sinks, Ok(Message::binary(SNAPSHOT.as_bytes().to_vec())));
    assert!(matches!(outcome, ListenOutcome::Failed(ErrorAction::LogNonText)));
    assert!(sinks[0].pending.is_empty());
    assert_eq!(producer.state, FeedState::Listening);
}

#[test]
fn request_orderbook_goes_on_after_a_failure() {
    let mut producer = OkexProducer::connect("ws://localhost:1/").unwrap();
    assert!(!producer.request_orderbook(&Err(TungsteniteError::ConnectionClosed)));
    assert_eq!(producer.state, FeedState::Subscribing);
    // What the answer holds is not looked at.
    assert!(producer.request_orderbook(&Ok(Message::text("{\"event\":\"error\"}"))));
    assert!(producer.request_orderbook(&Ok(Message::binary(vec![0u8]))));
    assert_eq!(producer.state, FeedState::Subscribing);
}
