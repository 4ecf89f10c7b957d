use inevents::event::{Event, Query, QueryEndpoint};
use inevents::filter::{Filter, FilterError, Operator};
use inevents::json::{JsonNumber, JsonValue};
use inevents::modules::http_server::{sql_response, AppError, HttpServer};
use inevents::modules::redis_to_postgres::{insertion_is_slow, RedisToPostgres};
use inevents::modules::websocket_server::{
    BatchOutcome, ClientMessage, EventWebSocket, Server, SocketReply, WebsocketServer, CLIENT_TIMEOUT_MS,
    HEARTBEAT_INTERVAL_MS,
};

fn s(x: &str) -> String {
    x.to_string()
}

fn num(n: u64) -> JsonValue {
    JsonValue::Number(JsonNumber::pos_int(n, (n as f64).to_bits()))
}

fn obj(members: Vec<(&str, JsonValue)>) -> JsonValue {
    JsonValue::Object(members.into_iter().map(|(k, v)| (s(k), v)).collect())
}

fn endpoint(route: &str) -> QueryEndpoint {
    QueryEndpoint { route: s(route), openapi: None, query: Query::Sql(s("SELECT 1")) }
}

fn event(id: &str, sql: Option<&str>, routes: &[&str]) -> Event {
    Event {
        id: s(id),
        description: None,
        category: s("test"),
        sql_insert: sql.map(s),
        endpoints: routes.iter().map(|r| endpoint(r)).collect(),
    }
}

#[test]
fn websocket_server_keeps_redirect() {
    let w = WebsocketServer::new(Some(s("https://example.com")));
    assert_eq!(w.redirect_from_homepage, Some(s("https://example.com")));
    assert_eq!(WebsocketServer::new(None).redirect_from_homepage, None);
    assert_eq!(HEARTBEAT_INTERVAL_MS, 5000);
    assert_eq!(CLIENT_TIMEOUT_MS, 15000);
}

#[test]
fn socket_heartbeat() {
    let socket = EventWebSocket::new(s("ft_transfer"), 1000);
    assert_eq!(socket.last_heartbeat, 1000);
    assert!(socket.filter.is_none());
    assert!(!socket.heartbeat_expired(1000 + CLIENT_TIMEOUT_MS));
    assert!(socket.heartbeat_expired(1001 + CLIENT_TIMEOUT_MS));
    // A clock reading before the last heartbeat counts as no time elapsed.
    assert!(!socket.heartbeat_expired(0));
}

#[test]
fn socket_messages() {
    let mut socket = EventWebSocket::new(s("ft_transfer"), 0);
    match socket.handle_client_message(ClientMessage::Ping(vec![1, 2]), 10) {
        SocketReply::Pong(d) => assert_eq!(d, vec![1, 2]),
        other => panic!("unexpected {other:?}"),
    }
    assert_eq!(socket.last_heartbeat, 10);
    assert!(matches!(socket.handle_client_message(ClientMessage::Pong, 20), SocketReply::Nothing));
    assert_eq!(socket.last_heartbeat, 20);
    assert!(matches!(
        socket.handle_client_message(ClientMessage::Text(Ok(Operator::And(vec![]))), 30),
        SocketReply::Nothing
    ));
    assert_eq!(socket.last_heartbeat, 20);
    let f = socket.filter.as_ref().unwrap();
    assert_eq!(f.path, ".");
    assert!(matches!(f.operator, Operator::And(_)));
    match socket.handle_client_message(ClientMessage::Text(Err(s("expected value"))), 40) {
        SocketReply::CloseInvalid { text, description } => {
            assert_eq!(text, "Invalid filter: expected value");
            assert_eq!(description, "Invalid filter");
        }
        other => panic!("unexpected {other:?}"),
    }
    assert!(socket.filter.is_some());
    assert!(matches!(socket.handle_client_message(ClientMessage::Other, 50), SocketReply::Stop));
    assert_eq!(socket.event_identifier, "ft_transfer");
}

fn batch() -> Vec<(String, JsonValue)> {
    vec![
        (s("{\"amount\":5}"), obj(vec![("amount", num(5))])),
        (s("{\"amount\":50}"), obj(vec![("amount", num(50))])),
        (s("{\"amount\":500}"), obj(vec![("amount", num(500))])),
    ]
}

#[test]
fn socket_batches() {
    let mut socket = EventWebSocket::new(s("ft_transfer"), 0);
    // No filter yet: every event is sent.
    match socket.handle_events(&batch()) {
        BatchOutcome::Send(t) => assert_eq!(t, "[{\"amount\":5},{\"amount\":50},{\"amount\":500}]"),
        other => panic!("unexpected {other:?}"),
    }
    assert!(matches!(socket.handle_events(&vec![]), BatchOutcome::Nothing));
    let filter = Operator::And(vec![Filter::new("amount", Operator::GreaterThan(10.0f64.to_bits()))]);
    socket.handle_client_message(ClientMessage::Text(Ok(filter)), 0);
    match socket.handle_events(&batch()) {
        BatchOutcome::Send(t) => assert_eq!(t, "[{\"amount\":50},{\"amount\":500}]"),
        other => panic!("unexpected {other:?}"),
    }
    let none = Operator::And(vec![Filter::new("amount", Operator::GreaterThan(1000.0f64.to_bits()))]);
    socket.handle_client_message(ClientMessage::Text(Ok(none)), 0);
    assert!(matches!(socket.handle_events(&batch()), BatchOutcome::Nothing));
    let missing = Operator::And(vec![Filter::new("missing", Operator::Equals(JsonValue::Null))]);
    socket.handle_client_message(ClientMessage::Text(Ok(missing)), 0);
    match socket.handle_events(&batch()) {
        BatchOutcome::FilterFailed(FilterError::PathNotFound(p)) => assert_eq!(p, "missing"),
        other => panic!("unexpected {other:?}"),
    }
}

#[test]
fn subscriptions() {
    let mut server = Server::new(&vec![s("a"), s("b"), s("a")]);
    assert_eq!(server.event_ids, vec![s("a"), s("b")]);
    assert_eq!(server.connection_count(), 0);
    server.subscribe(1, &s("a"));
    server.subscribe(2, &s("a"));
    server.subscribe(1, &s("a"));
    server.subscribe(3, &s("b"));
    let mut a = server.recipients(&s("a"));
    a.sort();
    assert_eq!(a, vec![1, 2]);
    assert_eq!(server.recipients(&s("b")), vec![3]);
    assert_eq!(server.connection_count(), 3);
    server.unsubscribe(1, &s("a"));
    assert_eq!(server.recipients(&s("a")), vec![2]);
    assert_eq!(server.recipients(&s("b")), vec![3]);
    // Unsubscribing a socket that is not subscribed changes nothing.
    server.unsubscribe(9, &s("b"));
    assert_eq!(server.recipients(&s("b")), vec![3]);
    assert_eq!(server.connection_count(), 2);
}

#[test]
fn http_routes() {
    let server = HttpServer::new(
        None,
        vec![(s("price_token"), vec![endpoint("ohlc")]), (s("price_token"), vec![endpoint("ignored")])],
    );
    let e = event("price_token", None, &["price_token", "price_token_latest"]);
    let routes = server.routes_for(&e);
    let paths: Vec<&str> = routes.iter().map(|(p, _)| p.as_str()).collect();
    assert_eq!(paths, vec!["/v3/price_token", "/v3/price_token_latest", "/v3/ohlc"]);
    assert_eq!(routes[2].1.route, "ohlc");
    let other = event("ft_transfer", None, &["ft_transfer"]);
    assert_eq!(server.routes_for(&other).len(), 1);
}

#[test]
fn app_errors() {
    let db = AppError::Db(s("connection refused"));
    assert_eq!(db.status_code(), 500);
    assert_eq!(db.error_response(), "connection refused");
    assert_eq!(db.to_text(), "Database error: connection refused");
    let actix = AppError::Actix(s("bad request"));
    assert_eq!(actix.status_code(), 500);
    assert_eq!(actix.to_text(), "Actix error: bad request");
    let many = AppError::TooManyBlocks { requested: 1200, max: 1000 };
    assert_eq!(many.status_code(), 400);
    assert_eq!(many.error_response(), "Too many blocks requested. Requested: 1200, Max: 1000");
    assert_eq!(many.to_text(), "Too many blocks requested. Requested: 1200, Max: 1000");
}

#[test]
fn sql_answers() {
    let (status, body) = sql_response(Ok(vec![num(1), JsonValue::String(s("x"))]));
    assert_eq!(status, 200);
    match body {
        JsonValue::Object(members) => {
            assert_eq!(members.len(), 1);
            assert_eq!(members[0].0, "result");
            match &members[0].1 {
                JsonValue::Array(rows) => {
                    assert_eq!(rows.len(), 2);
                    match &rows[1] {
                        JsonValue::Array(one) => assert!(matches!(&one[0], JsonValue::String(t) if t == "x")),
                        other => panic!("unexpected {other:?}"),
                    }
                }
                other => panic!("unexpected {other:?}"),
            }
        }
        other => panic!("unexpected {other:?}"),
    }
    let (status, body) = sql_response(Err(s("relation does not exist")));
    assert_eq!(status, 500);
    match body {
        JsonValue::Object(members) => {
            assert_eq!(members[0].0, "error");
            assert!(matches!(&members[0].1, JsonValue::String(t) if t == "relation does not exist"));
        }
        other => panic!("unexpected {other:?}"),
    }
}

#[test]
fn copied_events() {
    let events = vec![
        event("a", Some("INSERT a"), &[]),
        event("b", None, &[]),
        event("c", Some("INSERT c"), &[]),
    ];
    assert_eq!(RedisToPostgres.copied_events(&events), vec![(s("a"), s("INSERT a")), (s("c"), s("INSERT c"))]);
    assert!(!insertion_is_slow(25_000_000));
    assert!(insertion_is_slow(25_000_001));
}

#[test]
fn accept_all_filter_receives_every_event() {
    let mut socket = EventWebSocket::new(s("ft_transfer"), 0);
    socket.handle_client_message(ClientMessage::Text(Ok(Operator::And(vec![]))), 0);
    match socket.handle_events(&batch()) {
        BatchOutcome::Send(t) => assert_eq!(t, "[{\"amount\":5},{\"amount\":50},{\"amount\":500}]"),
        other => panic!("unexpected {other:?}"),
    }
    assert!(matches!(socket.handle_events(&vec![]), BatchOutcome::Nothing));
}

#[test]
fn subscribe_then_unsubscribe_restores() {
    let mut server = Server::new(&vec![s("a")]);
    server.subscribe(4, &s("a"));
    let before = server.recipients(&s("a"));
    server.subscribe(5, &s("a"));
    server.unsubscribe(5, &s("a"));
    assert_eq!(server.recipients(&s("a")), before);
}
