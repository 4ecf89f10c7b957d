//! The event stream client: the address it connects to, the filter message
//! it sends, and what it does with each message of the server.
use vstd::prelude::*;

verus! {

#[verifier::external_type_specification]
#[verifier::external_body]
pub struct ExUrl(url::Url);

#[verifier::external_type_specification]
#[verifier::external_body]
pub struct ExUrlParseError(url::ParseError);

/// What `url::Url::parse` gives for a text: the absolute URL it reads, or
/// why the text is not one.
pub uninterp spec fn url_parse(text: Seq<char>) -> Result<url::Url, url::ParseError>;

/// `url::Url::parse`.
#[verifier::external_body]
fn parse_url(text: &str) -> (r: Result<url::Url, url::ParseError>)
    ensures
        r == url_parse(text@),
{
    url::Url::parse(text)
}

/// What `url::Url::join` gives for a base address and a reference resolved
/// against it (a function of the two alone: the join parses the reference
/// with the base as the base address).
pub uninterp spec fn url_join(base: url::Url, reference: Seq<char>) -> Result<url::Url, url::ParseError>;

/// `url::Url::join`: resolves a reference against a base address. Its result
/// is the join of the two; nothing more is stated of it.
#[verifier::external_body]
fn join_url(base: &url::Url, reference: &str) -> (r: Result<url::Url, url::ParseError>)
    ensures
        r == url_join(*base, reference@),
{
    base.join(reference)
}

/// The address of the public event server.
pub open spec fn default_server_text() -> Seq<char> {
    "wss://ws-events-v3.intear.tech"@
}

/// A client of an event server.
pub struct EventStreamClient(pub url::Url);

impl EventStreamClient {
    pub fn new(url: url::Url) -> (r: EventStreamClient)
        ensures
            r.0 == url,
    {
        EventStreamClient(url)
    }

    /// A client of the public event server, when its address parses.
    pub fn default_client() -> (r: Option<EventStreamClient>)
        ensures
            match url_parse(default_server_text()) {
                Ok(url) => r matches Some(c) && c.0 == url,
                Err(_) => r is None,
            },
    {
        match parse_url("wss://ws-events-v3.intear.tech") {
            Ok(url) => Some(EventStreamClient(url)),
            Err(_) => None,
        }
    }

    /// The address of the stream of one event: `events/<event>` resolved
    /// against the server's address.
    pub fn stream_url(&self, event_id: &str) -> (r: Result<url::Url, url::ParseError>)
        ensures
            r == url_join(self.0, "events/"@ + event_id@),
    {
        let path = event_path(event_id);
        join_url(&self.0, path.as_str())
    }
}

/// The path of the stream of one event, relative to the server.
pub fn event_path(event_id: &str) -> (r: String)
    ensures
        r@ == "events/"@ + event_id@,
{
    String::from_str("events/").concat(event_id)
}

/// The first message of a subscription: the filter (as JSON text), or, with
/// no filter, one that lets every event through.
pub fn subscription_message(filter_json: Option<String>) -> (r: String)
    ensures
        match filter_json {
            Some(f) => r@ == f@,
            None => r@ == "{\"And\":[]}"@,
        },
{
    match filter_json {
        Some(f) => f,
        None => String::from_str("{\"And\":[]}"),
    }
}

/// A message from the event server, or the end of the connection.
#[derive(Debug)]
pub enum ServerMessage {
    Close,
    Ping(Vec<u8>),
    Pong,
    Text(String),
    Binary,
    ConnectionError,
    Ended,
}

/// What the client does with a message of the server.
#[derive(Debug)]
pub enum ClientAction {
    /// Wait a second, then connect again.
    Reconnect,
    /// Answer with a pong carrying the same payload.
    SendPong(Vec<u8>),
    /// Hand the events of this JSON array text to the callback.
    Deliver(String),
    /// Nothing.
    Ignore,
}

/// The client's reaction to a message: a closed, failed or ended connection
/// is opened again, a ping is answered, a text carries events, and anything
/// else is ignored.
pub fn react(msg: ServerMessage) -> (r: ClientAction)
    ensures
        match msg {
            ServerMessage::Close | ServerMessage::ConnectionError | ServerMessage::Ended => r is Reconnect,
            ServerMessage::Ping(d) => r == ClientAction::SendPong(d),
            ServerMessage::Text(t) => r == ClientAction::Deliver(t),
            ServerMessage::Pong | ServerMessage::Binary => r is Ignore,
        },
{
    match msg {
        ServerMessage::Close | ServerMessage::ConnectionError | ServerMessage::Ended => ClientAction::Reconnect,
        ServerMessage::Ping(d) => ClientAction::SendPong(d),
        ServerMessage::Text(t) => ClientAction::Deliver(t),
        ServerMessage::Pong | ServerMessage::Binary => ClientAction::Ignore,
    }
}

} // verus!
