use inevents::client::{event_path, react, subscription_message, ClientAction, EventStreamClient, ServerMessage};
use inevents::json::{double_equal, double_less, JsonNumber, JsonValue};
use inevents::launcher::{select_modules, ModuleKind, ModuleSelectionError};
use inevents::redis_stream::{
    advance_last_id, entry_id_pattern, entry_payloads, initial_last_id, reader_after_delivery, reader_step, ReaderStep,
};
use inevents::text::{
    parse_i64, parse_usize, split_text, text_contains, text_ends_with, text_has_char, text_starts_with, u128_to_text,
    u64_to_text, usize_to_text,
};

fn s(x: &str) -> String {
    x.to_string()
}

#[test]
fn stream_positions() {
    assert_eq!(entry_id_pattern("120000000"), "120000000-*");
    assert_eq!(initial_last_id(None), "0");
    assert_eq!(initial_last_id(Some(s("17-0"))), "17-0");
    assert_eq!(advance_last_id(s("5-0"), &vec![]), "5-0");
    assert_eq!(advance_last_id(s("5-0"), &vec![s("6-0"), s("7-0")]), "7-0");
}

#[test]
fn stream_payloads() {
    let entries = vec![
        (s("1-0"), vec![(s("event"), s("[1,2]"))]),
        (s("2-0"), vec![(s("event"), s("[3]")), (s("other"), s("x"))]),
    ];
    assert_eq!(entry_payloads(&entries), vec![(s("1-0"), s("[1,2]")), (s("2-0"), s("[3]"))]);
    assert_eq!(entry_payloads(&vec![]), vec![]);
}

#[test]
fn client_messages() {
    assert_eq!(event_path("ft_transfer"), "events/ft_transfer");
    assert_eq!(subscription_message(None), "{\"And\":[]}");
    assert_eq!(subscription_message(Some(s("{\"path\":\".\"}"))), "{\"path\":\".\"}");
    assert!(matches!(react(ServerMessage::Close), ClientAction::Reconnect));
    assert!(matches!(react(ServerMessage::ConnectionError), ClientAction::Reconnect));
    assert!(matches!(react(ServerMessage::Ended), ClientAction::Reconnect));
    assert!(matches!(react(ServerMessage::Ping(vec![7])), ClientAction::SendPong(d) if d == vec![7]));
    assert!(matches!(react(ServerMessage::Text(s("[]"))), ClientAction::Deliver(t) if t == "[]"));
    assert!(matches!(react(ServerMessage::Pong), ClientAction::Ignore));
    assert!(matches!(react(ServerMessage::Binary), ClientAction::Ignore));
}

#[test]
fn client_addresses() {
    let client = EventStreamClient::default_client().unwrap();
    assert_eq!(client.0.as_str(), "wss://ws-events-v3.intear.tech/");
    let url = client.stream_url("ft_transfer").unwrap();
    assert_eq!(url.as_str(), "wss://ws-events-v3.intear.tech/events/ft_transfer");
    let mine = EventStreamClient::new(url::Url::parse("ws://localhost:7070/").unwrap());
    assert_eq!(mine.stream_url("log_text").unwrap().as_str(), "ws://localhost:7070/events/log_text");
}

#[test]
fn module_selection() {
    assert!(matches!(select_modules(&vec![]), Err(ModuleSelectionError::NoModules)));
    assert_eq!(
        select_modules(&vec![s("websocket-server"), s("all")]).unwrap(),
        vec![ModuleKind::HttpServer, ModuleKind::WebsocketServer, ModuleKind::RedisToPostgres]
    );
    assert_eq!(
        select_modules(&vec![s("redis-to-postgres"), s("http-server")]).unwrap(),
        vec![ModuleKind::RedisToPostgres, ModuleKind::HttpServer]
    );
    match select_modules(&vec![s("http-server"), s("ftp-server"), s("nope")]) {
        Err(ModuleSelectionError::UnknownModule(n)) => assert_eq!(n, "ftp-server"),
        other => panic!("unexpected {other:?}"),
    }
}

#[test]
fn text_helpers() {
    assert!(text_starts_with("hello", "he"));
    assert!(text_starts_with("hello", ""));
    assert!(!text_starts_with("he", "hello"));
    assert!(text_ends_with("hello", "llo"));
    assert!(!text_ends_with("hello", "hel"));
    assert!(text_contains("hello", "ell"));
    assert!(text_contains("hello", ""));
    assert!(!text_contains("hello", "elo"));
    assert!(text_has_char("a.b", '.'));
    assert!(!text_has_char("ab", '.'));
    assert_eq!(split_text("a.b.c", '.'), vec![s("a"), s("b"), s("c")]);
    assert_eq!(split_text(".", '.'), vec![s(""), s("")]);
}

#[test]
fn numerals() {
    assert_eq!(parse_usize("42"), Some(42));
    assert_eq!(parse_usize("+7"), Some(7));
    assert_eq!(parse_usize("007"), Some(7));
    assert_eq!(parse_usize(""), None);
    assert_eq!(parse_usize("+"), None);
    assert_eq!(parse_usize("-1"), None);
    assert_eq!(parse_usize("1a"), None);
    assert_eq!(parse_usize("18446744073709551616"), None);
    assert_eq!(parse_i64("-9223372036854775808"), Some(i64::MIN));
    assert_eq!(parse_i64("9223372036854775807"), Some(i64::MAX));
    assert_eq!(parse_i64("9223372036854775808"), None);
    assert_eq!(parse_i64("-"), None);
    assert_eq!(parse_i64("+12"), Some(12));
    assert_eq!(u64_to_text(0), "0");
    assert_eq!(u64_to_text(1200), "1200");
    assert_eq!(usize_to_text(98765), "98765");
    assert_eq!(u128_to_text(u128::MAX), "340282366920938463463374607431768211455");
}

#[test]
fn doubles() {
    let b = |x: f64| x.to_bits();
    assert!(double_less(b(-1.0), b(0.5)));
    assert!(double_less(b(-2.0), b(-1.0)));
    assert!(!double_less(b(1.0), b(1.0)));
    assert!(!double_less(b(f64::NAN), b(1.0)));
    assert!(double_less(b(1.0), b(f64::INFINITY)));
    assert!(double_equal(b(0.0), b(-0.0)));
    assert!(!double_equal(b(f64::NAN), b(f64::NAN)));
    assert!(!double_less(b(-0.0), b(0.0)));
}

fn num(n: u64) -> JsonValue {
    JsonValue::Number(JsonNumber::pos_int(n, (n as f64).to_bits()))
}

#[test]
fn json_equality() {
    let a = JsonValue::Array(vec![num(1), JsonValue::Bool(true), JsonValue::Null]);
    assert!(a.equals(&a.deep_copy()));
    let b = JsonValue::Array(vec![num(1), JsonValue::Bool(false), JsonValue::Null]);
    assert!(!a.equals(&b));
    // A float and an integer of the same value are different numbers.
    let f = JsonValue::Number(JsonNumber::float(1.0f64.to_bits()));
    assert!(!num(1).equals(&f));
    assert!(f.equals(&JsonValue::Number(JsonNumber::float(1.0f64.to_bits()))));
    let o1 = JsonValue::Object(vec![(s("x"), num(1)), (s("y"), num(2))]);
    let o2 = JsonValue::Object(vec![(s("y"), num(2)), (s("x"), num(1))]);
    let o3 = JsonValue::Object(vec![(s("x"), num(1))]);
    assert!(o1.equals(&o2));
    assert!(o2.equals(&o1));
    assert!(!o1.equals(&o3));
    assert!(!o3.equals(&o1));
}

#[test]
fn reader_resumes_after_last_batch() {
    let saved = advance_last_id(s("3-0"), &vec![s("4-0"), s("5-0")]);
    assert_eq!(initial_last_id(Some(saved)), "5-0");
    let unchanged = advance_last_id(s("3-0"), &vec![]);
    assert_eq!(initial_last_id(Some(unchanged)), "3-0");
}

#[test]
fn json_values_equal_themselves() {
    let v = JsonValue::Object(vec![
        (s("a"), JsonValue::Array(vec![num(1), JsonValue::Number(JsonNumber::float(2.5f64.to_bits()))])),
        (s("b"), JsonValue::Object(vec![(s("c"), JsonValue::Null)])),
    ]);
    assert!(v.equals(&v));
    // A NaN is the one number that is not equal to itself.
    let nan = JsonValue::Number(JsonNumber::float(f64::NAN.to_bits()));
    assert!(!nan.equals(&nan));
}

#[test]
fn reader_steps() {
    assert_eq!(reader_step(true, &vec![s("1-0")]), ReaderStep::Stop);
    assert_eq!(reader_step(true, &vec![]), ReaderStep::Stop);
    assert_eq!(reader_step(false, &vec![]), ReaderStep::Wait);
    assert_eq!(reader_step(false, &vec![s("1-0")]), ReaderStep::Deliver);
}

#[test]
fn reader_saves_only_after_full_delivery() {
    assert_eq!(reader_after_delivery(s("3-0"), &vec![s("4-0"), s("5-0")], false), Some(s("5-0")));
    assert_eq!(reader_after_delivery(s("3-0"), &vec![s("4-0"), s("5-0")], true), None);
    assert_eq!(reader_after_delivery(s("3-0"), &vec![], false), Some(s("3-0")));
}
