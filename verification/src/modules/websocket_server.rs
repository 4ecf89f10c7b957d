//! The decisions of the websocket server: what a subscriber's socket does
//! with each message, which events of a batch it sends, and who is
//! subscribed to which event.
use vstd::prelude::*;
use crate::filter::{eval_filter, Filter, FilterError, FilterFailure, Operator};
use crate::json::JsonValue;
use crate::text::chars_of;

verus! {

/// The websocket server, optionally redirecting its home page.
pub struct WebsocketServer {
    pub redirect_from_homepage: Option<String>,
}

impl WebsocketServer {
    pub fn new(redirect_from_homepage: Option<String>) -> (r: WebsocketServer)
        ensures
            r.redirect_from_homepage == redirect_from_homepage,
    {
        WebsocketServer { redirect_from_homepage }
    }
}

/// How often a socket pings its subscriber, in milliseconds.
pub const HEARTBEAT_INTERVAL_MS: u64 = 5000;

/// How long a subscriber may stay silent before its socket stops, in milliseconds.
pub const CLIENT_TIMEOUT_MS: u64 = 15000;

/// The state of one subscriber's socket: when it last heard from the
/// subscriber (milliseconds on a monotonic clock), the filter it set, and
/// the event it is subscribed to.
#[derive(Debug)]
pub struct EventWebSocket {
    pub last_heartbeat: u64,
    pub filter: Option<Filter>,
    pub event_identifier: String,
}

/// A message from a subscriber. A text message arrives as the outcome of
/// reading it as an operator: the operator, or the reason it was refused.
#[derive(Debug)]
pub enum ClientMessage {
    Ping(Vec<u8>),
    Pong,
    Text(Result<Operator, String>),
    Other,
}

/// What a socket does in answer to a subscriber's message.
#[derive(Debug)]
pub enum SocketReply {
    /// Answer a ping with the same payload.
    Pong(Vec<u8>),
    /// Nothing to send.
    Nothing,
    /// Send `text`, then close the socket as invalid with `description`.
    CloseInvalid { text: String, description: String },
    /// Stop the socket.
    Stop,
}

/// What a socket does with a batch of events.
#[derive(Debug)]
pub enum BatchOutcome {
    /// Nothing to send.
    Nothing,
    /// Send this text: a JSON array of the matching events.
    Send(String),
    /// The filter could not be evaluated on an event; the socket reports the
    /// error and closes.
    FilterFailed(FilterError),
}

/// The time since `since`, or zero when `since` is later than `now`.
pub open spec fn elapsed(now: u64, since: u64) -> int {
    if now >= since {
        now - since
    } else {
        0
    }
}

/// The text of a batch after the first `n` events: `[` followed by the text of
/// each matching event and a comma; the first filter error ends it.
pub open spec fn batch_prefix(f: Filter, events: Seq<(String, JsonValue)>, n: nat) -> Result<Seq<char>, FilterFailure>
    decreases n,
{
    if n == 0 || n > events.len() {
        Ok(seq!['['])
    } else {
        match batch_prefix(f, events, (n - 1) as nat) {
            Err(e) => Err(e),
            Ok(s) => match eval_filter(f, events[n - 1].1@) {
                Err(e) => Err(e),
                Ok(true) => Ok(s + events[n - 1].0@ + seq![',']),
                Ok(false) => Ok(s),
            },
        }
    }
}

/// `s` without its trailing `c` characters.
pub open spec fn trim_end(s: Seq<char>, c: char) -> Seq<char>
    decreases s.len(),
{
    if s.len() > 0 && s.last() == c {
        trim_end(s.drop_last(), c)
    } else {
        s
    }
}

/// The content of a batch outcome.
pub open spec fn batch_outcome_matches(r: BatchOutcome, f: Option<Filter>, events: Seq<(String, JsonValue)>) -> bool {
    match f {
        None => if events.len() == 0 {
            r is Nothing
        } else {
            r matches BatchOutcome::Send(t) && t@ == trim_end(
                seq!['['] + texts_with_commas(events, events.len()),
                ',',
            ) + seq![']']
        },
        Some(f) => match batch_prefix(f, events, events.len()) {
            Err(e) => r matches BatchOutcome::FilterFailed(x) && x@ == e,
            Ok(s) => if s == seq!['['] {
                r is Nothing
            } else {
                r matches BatchOutcome::Send(t) && t@ == trim_end(s, ',') + seq![']']
            },
        },
    }
}

proof fn lemma_batch_err_stays(f: Filter, events: Seq<(String, JsonValue)>, n: nat, m: nat)
    requires
        n <= m <= events.len(),
        batch_prefix(f, events, n) is Err,
    ensures
        batch_prefix(f, events, m) == batch_prefix(f, events, n),
    decreases m,
{
    if m > n {
        lemma_batch_err_stays(f, events, n, (m - 1) as nat);
    }
}

proof fn lemma_batch_starts_with_bracket(f: Filter, events: Seq<(String, JsonValue)>, n: nat)
    requires
        batch_prefix(f, events, n) is Ok,
    ensures
        batch_prefix(f, events, n) matches Ok(s) && s.len() >= 1 && s[0] == '[',
    decreases n,
{
    if n > 0 && n <= events.len() {
        lemma_batch_starts_with_bracket(f, events, (n - 1) as nat);
    }
}

/// `s` without its trailing `c` characters.
fn trim_end_exec(s: &str, c: char) -> (r: String)
    ensures
        r@ == trim_end(s@, c),
{
    let sc = chars_of(s);
    let mut k: usize = sc.len();
    assert(s@.subrange(0, k as int) =~= s@);
    while k > 0 && sc[k - 1] == c
        invariant
            sc@ == s@,
            0 <= k <= sc.len(),
            trim_end(s@, c) == trim_end(s@.subrange(0, k as int), c),
        decreases k,
    {
        assert(s@.subrange(0, k as int).drop_last() =~= s@.subrange(0, k - 1));
        k = k - 1;
    }
    assert(trim_end(s@.subrange(0, k as int), c) == s@.subrange(0, k as int));
    String::from_str(s.substring_char(0, k))
}

/// The texts of all the events of a batch, as a JSON array, or nothing for
/// an empty batch.
fn send_all(events: &Vec<(String, JsonValue)>) -> (r: BatchOutcome)
    ensures
        batch_outcome_matches(r, None, events@),
{
    if events.len() == 0 {
        return BatchOutcome::Nothing;
    }
    proof {
        reveal_strlit("[");
        reveal_strlit(",");
        reveal_strlit("]");
    }
    let mut s = String::from_str("[");
    assert(s@ =~= seq!['['] + texts_with_commas(events@, 0));
    let mut i: usize = 0;
    while i < events.len()
        invariant
            0 <= i <= events.len(),
            ","@ == seq![','],
            s@ == seq!['['] + texts_with_commas(events@, i as nat),
        decreases events.len() - i,
    {
        s.append(events[i].0.as_str());
        s.append(",");
        assert(s@ =~= seq!['['] + texts_with_commas(events@, (i + 1) as nat));
        i = i + 1;
    }
    let mut t = trim_end_exec(s.as_str(), ',');
    t.append("]");
    assert("]"@ =~= seq![']']);
    BatchOutcome::Send(t)
}

impl EventWebSocket {
    /// A socket for a new subscriber to `event_identifier`, started at `now`.
    pub fn new(event_identifier: String, now: u64) -> (r: EventWebSocket)
        ensures
            r.last_heartbeat == now,
            r.filter is None,
            r.event_identifier == event_identifier,
    {
        EventWebSocket { last_heartbeat: now, filter: None, event_identifier }
    }

    /// Whether the subscriber has been silent for longer than the timeout at
    /// `now`; the socket then stops (it pings at every tick either way).
    pub fn heartbeat_expired(&self, now: u64) -> (r: bool)
        ensures
            r == (elapsed(now, self.last_heartbeat) > CLIENT_TIMEOUT_MS),
    {
        let since = if now >= self.last_heartbeat {
            now - self.last_heartbeat
        } else {
            0
        };
        since > CLIENT_TIMEOUT_MS
    }

    /// Handles a message from the subscriber at `now`: pings and pongs
    /// refresh the heartbeat (a ping is answered), a valid filter replaces
    /// the socket's filter (applied to the whole event), an invalid one is
    /// reported and closes the socket, anything else stops it.
    pub fn handle_client_message(&mut self, msg: ClientMessage, now: u64) -> (r: SocketReply)
        ensures
            final(self).event_identifier == old(self).event_identifier,
            match msg {
                ClientMessage::Ping(d) => r == SocketReply::Pong(d) && final(self).last_heartbeat
                    == now && final(self).filter == old(self).filter,
                ClientMessage::Pong => r is Nothing && final(self).last_heartbeat == now
                    && final(self).filter == old(self).filter,
                ClientMessage::Text(Ok(op)) => r is Nothing && final(self).last_heartbeat == old(
                    self,
                ).last_heartbeat && (final(self).filter matches Some(f) && f.path@ == seq!['.']
                    && f.operator == op),
                ClientMessage::Text(Err(reason)) => final(self).last_heartbeat == old(
                    self,
                ).last_heartbeat && final(self).filter == old(self).filter && (
                r matches SocketReply::CloseInvalid { text, description } && text@
                    == "Invalid filter: "@ + reason@ && description@ == "Invalid filter"@),
                ClientMessage::Other => r is Stop && final(self).last_heartbeat == old(
                    self,
                ).last_heartbeat && final(self).filter == old(self).filter,
            },
    {
        match msg {
            ClientMessage::Ping(d) => {
                self.last_heartbeat = now;
                SocketReply::Pong(d)
            },
            ClientMessage::Pong => {
                self.last_heartbeat = now;
                SocketReply::Nothing
            },
            ClientMessage::Text(Ok(op)) => {
                self.filter = Some(Filter::new(".", op));
                proof {
                    reveal_strlit(".");
                }
                SocketReply::Nothing
            },
            ClientMessage::Text(Err(reason)) => {
                let text = String::from_str("Invalid filter: ").concat(reason.as_str());
                SocketReply::CloseInvalid { text, description: String::from_str("Invalid filter") }
            },
            ClientMessage::Other => SocketReply::Stop,
        }
    }

    /// What the socket sends for a batch of events, each given as its JSON
    /// text and its value: the texts of the events that pass the filter (all
    /// of them when the subscriber sent no filter), as a JSON array, or
    /// nothing when none passes; the first event on which the filter fails
    /// ends the batch with that error.
    pub fn handle_events(&self, events: &Vec<(String, JsonValue)>) -> (r: BatchOutcome)
        ensures
            batch_outcome_matches(r, self.filter, events@),
    {
        let f = match &self.filter {
            None => return send_all(events),
            Some(f) => f,
        };
        proof {
            reveal_strlit("[");
            reveal_strlit(",");
            reveal_strlit("]");
        }
        let mut s = String::from_str("[");
        assert(s@ =~= seq!['[']);
        let mut i: usize = 0;
        while i < events.len()
            invariant
                0 <= i <= events.len(),
                self.filter == Some(*f),
                ","@ == seq![','],
                batch_prefix(*f, events@, i as nat) == Ok::<Seq<char>, FilterFailure>(s@),
            decreases events.len() - i,
        {
            match f.check(&events[i].1) {
                Ok(true) => {
                    s.append(events[i].0.as_str());
                    s.append(",");
                },
                Ok(false) => {},
                Err(e) => {
                    proof {
                        lemma_batch_err_stays(*f, events@, (i + 1) as nat, events@.len());
                    }
                    return BatchOutcome::FilterFailed(e);
                },
            }
            i = i + 1;
        }
        proof {
            lemma_batch_starts_with_bracket(*f, events@, events@.len());
        }
        if s.unicode_len() == 1 {
            assert(s@ =~= seq!['[']);
            return BatchOutcome::Nothing;
        }
        assert(s@ != seq!['[']);
        let mut t = trim_end_exec(s.as_str(), ',');
        t.append("]");
        assert("]"@ =~= seq![']']);
        BatchOutcome::Send(t)
    }
}


/// Who is subscribed to which event: for the event identifier at each
/// position of `event_ids`, the sockets at the same position of `sockets`.
#[derive(Debug)]
pub struct Server {
    pub event_ids: Vec<String>,
    pub sockets: Vec<Vec<u64>>,
}

impl Server {
    /// Event identifiers are distinct, each has a socket list, and no socket
    /// is listed twice for one event.
    pub open spec fn well_formed(&self) -> bool {
        &&& self.event_ids.len() == self.sockets.len()
        &&& forall|i: int, j: int|
            0 <= i < j < self.event_ids.len() ==> (#[trigger] self.event_ids@[i])@ != (
            #[trigger] self.event_ids@[j])@
        &&& forall|i: int| 0 <= i < self.sockets.len() ==> (#[trigger] self.sockets@[i])@.no_duplicates()
    }

    /// The position of an event identifier.
    pub open spec fn position(&self, id: Seq<char>) -> int {
        choose|i: int| 0 <= i < self.event_ids.len() && (#[trigger] self.event_ids@[i])@ == id
    }

    /// Whether the server serves an event.
    pub open spec fn serves(&self, id: Seq<char>) -> bool {
        list_has(self.event_ids@, id)
    }

    /// The subscribers of each event the server serves.
    pub open spec fn subscriptions(&self) -> Map<Seq<char>, Set<u64>> {
        Map::new(|id: Seq<char>| self.serves(id), |id: Seq<char>| self.sockets@[self.position(id)]@.to_set())
    }

    proof fn lemma_position(&self, i: int)
        requires
            self.well_formed(),
            0 <= i < self.event_ids.len(),
        ensures
            self.serves(self.event_ids@[i]@),
            self.position(self.event_ids@[i]@) == i,
    {
        let id = self.event_ids@[i]@;
        assert(self.serves(id));
        let p = self.position(id);
        if p != i {
            if p < i {
                assert(self.event_ids@[p]@ != self.event_ids@[i]@);
            } else {
                assert(self.event_ids@[i]@ != self.event_ids@[p]@);
            }
        }
    }

    fn find(&self, id: &String) -> (r: Option<usize>)
        requires
            self.well_formed(),
        ensures
            match r {
                Some(i) => i < self.event_ids.len() && self.event_ids@[i as int]@ == id@
                    && self.serves(id@) && self.position(id@) == i,
                None => !self.serves(id@),
            },
    {
        let mut i: usize = 0;
        while i < self.event_ids.len()
            invariant
                self.well_formed(),
                0 <= i <= self.event_ids.len(),
                forall|k: int| 0 <= k < i ==> (#[trigger] self.event_ids@[k])@ != id@,
            decreases self.event_ids.len() - i,
        {
            if self.event_ids[i] == *id {
                proof {
                    self.lemma_position(i as int);
                }
                return Some(i);
            }
            i = i + 1;
        }
        None
    }

    /// A server for the given events, with no subscribers yet (an event
    /// listed twice is served once).
    pub fn new(events: &Vec<String>) -> (r: Server)
        ensures
            r.well_formed(),
            forall|id: Seq<char>| r.serves(id) <==> list_has(events@, id),
            forall|id: Seq<char>| #[trigger] r.serves(id) ==> r.subscriptions()[id] == Set::<u64>::empty(),
    {
        let mut server = Server { event_ids: Vec::new(), sockets: Vec::new() };
        let mut i: usize = 0;
        while i < events.len()
            invariant
                0 <= i <= events.len(),
                server.well_formed(),
                forall|id: Seq<char>| server.serves(id) <==> list_has(events@.subrange(0, i as int), id),
                forall|k: int| 0 <= k < server.sockets.len() ==> (#[trigger] server.sockets@[k])@.len() == 0,
            decreases events.len() - i,
        {
            let ghost before = server.event_ids@;
            let ghost old_server = server;
            assert(forall|id: Seq<char>| old_server.serves(id) <==> list_has(events@.subrange(0, i as int), id));
            let found = server.find(&events[i]);
            if found.is_none() {
                server.event_ids.push(events[i].clone());
                server.sockets.push(Vec::new());
            }
            proof {
                let prev = events@.subrange(0, i as int);
                let next = events@.subrange(0, i + 1);
                let e = events@[i as int];
                assert(next =~= prev.push(e));
                lemma_list_has_push(prev, e);
                if found.is_none() {
                    let last = server.event_ids@[before.len() as int];
                    assert(server.event_ids@ =~= before.push(last));
                    lemma_list_has_push(before, last);
                    assert forall|id: Seq<char>| server.serves(id) <==> list_has(next, id) by {
                        assert(old_server.serves(id) <==> list_has(prev, id));
                    }
                } else {
                    assert forall|id: Seq<char>| server.serves(id) <==> list_has(next, id) by {
                        assert(old_server.serves(id) <==> list_has(prev, id));
                        if id == e@ {
                            assert(list_has(before, e@));
                        }
                    }
                }
            }
            i = i + 1;
        }
        proof {
            assert(events@.subrange(0, events@.len() as int) =~= events@);
            assert forall|id: Seq<char>| #[trigger] server.serves(id) implies server.subscriptions()[id] == Set::<u64>::empty() by {
                assert(server.sockets@[server.position(id)]@.to_set() =~= Set::<u64>::empty());
            }
        }
        server
    }

    /// Subscribes a socket to an event the server serves.
    pub fn subscribe(&mut self, socket: u64, event_id: &String)
        requires
            old(self).well_formed(),
            old(self).serves(event_id@),
        ensures
            final(self).well_formed(),
            final(self).subscriptions() == with_subscriber(old(self).subscriptions(), event_id@, socket),
    {
        let i = self.find(event_id).unwrap();
        let ghost old_self = *self;
        let mut list = self.sockets[i].clone();
        let ghost old_list = list@;
        let mut present = false;
        let mut k: usize = 0;
        while k < list.len()
            invariant
                0 <= k <= list.len(),
                present <==> (exists|j: int| 0 <= j < k && list@[j] == socket),
            decreases list.len() - k,
        {
            if list[k] == socket {
                present = true;
            }
            k = k + 1;
        }
        assert(present <==> list@.contains(socket));
        if !present {
            list.push(socket);
            proof {
                old_list.lemma_push_to_set_commute(socket);
            }
        } else {
            assert(old_list.to_set().insert(socket) =~= old_list.to_set());
        }
        self.sockets.set(i, list);
        proof {
            assert forall|a: int, b: int|
                0 <= a < b < self.event_ids.len() implies (#[trigger] self.event_ids@[a])@ != (
                #[trigger] self.event_ids@[b])@ by {
                assert(old_self.event_ids@[a]@ != old_self.event_ids@[b]@);
            }
            assert forall|j: int| 0 <= j < self.sockets.len() implies (#[trigger] self.sockets@[j])@.no_duplicates() by {
                if j != i {
                    assert(old_self.sockets@[j]@.no_duplicates());
                } else {
                    assert(old_self.sockets@[j]@.no_duplicates());
                }
            }
            assert(self.well_formed());
            let new_map = self.subscriptions();
            let expect = old_self.subscriptions().insert(
                event_id@,
                old_self.subscriptions()[event_id@].insert(socket),
            );
            assert forall|id: Seq<char>| #[trigger] new_map.dom().contains(id) <==> expect.dom().contains(id) by {
                assert(self.serves(id) == old_self.serves(id));
            }
            assert forall|id: Seq<char>| #[trigger] new_map.dom().contains(id) implies new_map[id] == expect[id] by {
                let p = self.position(id);
                let q = old_self.position(id);
                self.lemma_position(p);
                old_self.lemma_position(q);
                if id == event_id@ {
                    assert(self.sockets@[p]@.to_set() =~= old_self.sockets@[q]@.to_set().insert(socket));
                } else {
                    assert(p == q);
                }
            }
            assert(new_map =~= expect);
        }
    }
    /// Unsubscribes a socket from an event the server serves.
    pub fn unsubscribe(&mut self, socket: u64, event_id: &String)
        requires
            old(self).well_formed(),
            old(self).serves(event_id@),
        ensures
            final(self).well_formed(),
            final(self).subscriptions() == without_subscriber(old(self).subscriptions(), event_id@, socket),
    {
        let i = self.find(event_id).unwrap();
        let ghost old_self = *self;
        let ghost old_list = self.sockets@[i as int]@;
        assert(old_list.no_duplicates());
        let mut kept: Vec<u64> = Vec::new();
        let mut k: usize = 0;
        while k < self.sockets[i].len()
            invariant
                i < self.sockets.len(),
                old_list == self.sockets@[i as int]@,
                old_list.no_duplicates(),
                0 <= k <= old_list.len(),
                kept@.no_duplicates(),
                forall|x: u64| kept@.contains(x) <==> (x != socket && exists|j: int| 0 <= j < k && old_list[j] == x),
            decreases old_list.len() - k,
        {
            let x = self.sockets[i][k];
            let ghost prev = kept@;
            if x != socket {
                proof {
                    if kept@.contains(x) {
                        let j = choose|j: int| 0 <= j < k && old_list[j] == x;
                        assert(old_list[j] == old_list[k as int]);
                    }
                }
                kept.push(x);
            }
            proof {
                assert forall|y: u64| kept@.contains(y) <==> (y != socket && exists|j: int|
                    0 <= j < k + 1 && old_list[j] == y) by {
                    if kept@.contains(y) {
                        let a = choose|a: int| 0 <= a < kept@.len() && kept@[a] == y;
                        if a < prev.len() {
                            assert(prev[a] == y);
                            assert(prev.contains(y));
                        } else {
                            assert(old_list[k as int] == y);
                        }
                    }
                    if y != socket && exists|j: int| 0 <= j < k + 1 && old_list[j] == y {
                        let j = choose|j: int| 0 <= j < k + 1 && old_list[j] == y;
                        if j < k {
                            assert(prev.contains(y));
                            let a = choose|a: int| 0 <= a < prev.len() && prev[a] == y;
                            assert(kept@[a] == y);
                        } else {
                            assert(kept@[kept@.len() - 1] == y);
                        }
                    }
                }
            }
            k = k + 1;
        }
        self.sockets.set(i, kept);
        proof {
            assert forall|a: int, b: int|
                0 <= a < b < self.event_ids.len() implies (#[trigger] self.event_ids@[a])@ != (
                #[trigger] self.event_ids@[b])@ by {
                assert(old_self.event_ids@[a]@ != old_self.event_ids@[b]@);
            }
            assert forall|j: int| 0 <= j < self.sockets.len() implies (#[trigger] self.sockets@[j])@.no_duplicates() by {
                if j != i {
                    assert(old_self.sockets@[j]@.no_duplicates());
                }
            }
            let new_map = self.subscriptions();
            let expect = without_subscriber(old_self.subscriptions(), event_id@, socket);
            assert forall|id: Seq<char>| #[trigger] new_map.dom().contains(id) <==> expect.dom().contains(id) by {
                assert(self.serves(id) == old_self.serves(id));
            }
            assert forall|id: Seq<char>| #[trigger] new_map.dom().contains(id) implies new_map[id] == expect[id] by {
                let p = self.position(id);
                let q = old_self.position(id);
                self.lemma_position(p);
                old_self.lemma_position(q);
                if id == event_id@ {
                    assert(self.sockets@[p]@.to_set() =~= old_list.to_set().remove(socket));
                } else {
                    assert(p == q);
                }
            }
            assert(new_map =~= expect);
        }
    }

    /// The sockets subscribed to an event the server serves, each once.
    pub fn recipients(&self, event_id: &String) -> (r: Vec<u64>)
        requires
            self.well_formed(),
            self.serves(event_id@),
        ensures
            r@.to_set() == self.subscriptions()[event_id@],
            r@.no_duplicates(),
    {
        let i = self.find(event_id).unwrap();
        let r = self.sockets[i].clone();
        assert(r@ =~= self.sockets@[i as int]@);
        r
    }

    /// The number of open subscriptions over all events.
    pub fn connection_count(&self) -> (r: usize)
        requires
            total_sockets(self.sockets@, self.sockets@.len()) <= usize::MAX,
        ensures
            r == total_sockets(self.sockets@, self.sockets@.len()),
    {
        let mut total: usize = 0;
        let mut i: usize = 0;
        while i < self.sockets.len()
            invariant
                0 <= i <= self.sockets.len(),
                total == total_sockets(self.sockets@, i as nat),
                total_sockets(self.sockets@, self.sockets@.len()) <= usize::MAX,
            decreases self.sockets.len() - i,
        {
            proof {
                lemma_total_sockets_monotone(self.sockets@, (i + 1) as nat, self.sockets@.len());
            }
            total = total + self.sockets[i].len();
            i = i + 1;
        }
        total
    }
}

proof fn lemma_list_has_push(s: Seq<String>, x: String)
    ensures
        forall|id: Seq<char>| #[trigger] list_has(s.push(x), id) == (list_has(s, id) || x@ == id),
{
    assert forall|id: Seq<char>| #[trigger] list_has(s.push(x), id) == (list_has(s, id) || x@ == id) by {
        let t = s.push(x);
        if list_has(t, id) {
            let k = choose|k: int| 0 <= k < t.len() && (#[trigger] t[k])@ == id;
            if k < s.len() {
                assert(s[k] == t[k]);
            }
        }
        if list_has(s, id) {
            let k = choose|k: int| 0 <= k < s.len() && (#[trigger] s[k])@ == id;
            assert(t[k] == s[k]);
        }
        if x@ == id {
            assert(t[s.len() as int] == x);
        }
    }

}

/// The subscriptions after `socket` subscribes to `id`.
pub open spec fn with_subscriber(m: Map<Seq<char>, Set<u64>>, id: Seq<char>, socket: u64) -> Map<Seq<char>, Set<u64>> {
    m.insert(id, m[id].insert(socket))
}

/// The subscriptions after `socket` unsubscribes from `id`.
pub open spec fn without_subscriber(m: Map<Seq<char>, Set<u64>>, id: Seq<char>, socket: u64) -> Map<Seq<char>, Set<u64>> {
    m.insert(id, m[id].remove(socket))
}

/// A socket that subscribes to an event and then unsubscribes leaves the
/// subscriptions as they were before it subscribed.
pub proof fn law_unsubscribe_undoes_subscribe(m: Map<Seq<char>, Set<u64>>, id: Seq<char>, socket: u64)
    requires
        m.dom().contains(id),
        !m[id].contains(socket),
    ensures
        without_subscriber(with_subscriber(m, id, socket), id, socket) == m,
{
    assert(m[id].insert(socket).remove(socket) =~= m[id]);
    assert(without_subscriber(with_subscriber(m, id, socket), id, socket) =~= m);
}

/// Subscribing twice is subscribing once.
pub proof fn law_subscribe_is_idempotent(m: Map<Seq<char>, Set<u64>>, id: Seq<char>, socket: u64)
    requires
        m.dom().contains(id),
    ensures
        with_subscriber(with_subscriber(m, id, socket), id, socket) == with_subscriber(m, id, socket),
{
    assert(m[id].insert(socket).insert(socket) =~= m[id].insert(socket));
    assert(with_subscriber(with_subscriber(m, id, socket), id, socket) =~= with_subscriber(m, id, socket));
}

/// A subscription to one event leaves the subscribers of every other event
/// unchanged, and the subscriber is then among the event's subscribers.
pub proof fn law_subscription_is_local(m: Map<Seq<char>, Set<u64>>, id: Seq<char>, other: Seq<char>, socket: u64)
    requires
        m.dom().contains(id),
        m.dom().contains(other),
        other != id,
    ensures
        with_subscriber(m, id, socket)[other] == m[other],
        with_subscriber(m, id, socket)[id].contains(socket),
        !without_subscriber(m, id, socket)[id].contains(socket),
{
}

/// The number of sockets in the first `n` socket lists.
pub open spec fn total_sockets(lists: Seq<Vec<u64>>, n: nat) -> nat
    decreases n,
{
    if n == 0 || n > lists.len() {
        0
    } else {
        total_sockets(lists, (n - 1) as nat) + lists[n - 1]@.len()
    }
}

proof fn lemma_total_sockets_monotone(lists: Seq<Vec<u64>>, n: nat, m: nat)
    requires
        n <= m <= lists.len(),
    ensures
        total_sockets(lists, n) <= total_sockets(lists, m),
    decreases m,
{
    if n < m {
        lemma_total_sockets_monotone(lists, n, (m - 1) as nat);
    }
}

/// `x` is the view of one of the texts of `list`.
pub open spec fn list_has(list: Seq<String>, x: Seq<char>) -> bool {
    exists|k: int| 0 <= k < list.len() && (#[trigger] list[k])@ == x
}

/// The texts of the first `n` events, each followed by a comma.
pub open spec fn texts_with_commas(events: Seq<(String, JsonValue)>, n: nat) -> Seq<char>
    decreases n,
{
    if n == 0 || n > events.len() {
        Seq::empty()
    } else {
        texts_with_commas(events, (n - 1) as nat) + events[n - 1].0@ + seq![',']
    }
}

/// The texts of the first `n` events, separated by commas.
pub open spec fn comma_separated(events: Seq<(String, JsonValue)>, n: nat) -> Seq<char>
    decreases n,
{
    if n == 0 || n > events.len() {
        Seq::empty()
    } else if n == 1 {
        events[0].0@
    } else {
        comma_separated(events, (n - 1) as nat) + seq![','] + events[n - 1].0@
    }
}

proof fn lemma_accept_all_prefix(f: Filter, events: Seq<(String, JsonValue)>, n: nat)
    requires
        f.path@ == seq!['.'],
        f.operator matches Operator::And(fs) && fs@.len() == 0,
        n <= events.len(),
    ensures
        batch_prefix(f, events, n) == Ok::<Seq<char>, FilterFailure>(
            seq!['['] + texts_with_commas(events, n),
        ),
    decreases n,
{
    if n > 0 {
        lemma_accept_all_prefix(f, events, (n - 1) as nat);
        crate::filter::law_empty_and_matches_everything(f, events[n - 1].1@);
        assert(seq!['['] + texts_with_commas(events, (n - 1) as nat) + events[n - 1].0@ + seq![',']
            =~= seq!['['] + texts_with_commas(events, n));
    }
}

proof fn lemma_commas(events: Seq<(String, JsonValue)>, n: nat)
    requires
        1 <= n <= events.len(),
    ensures
        texts_with_commas(events, n) == comma_separated(events, n) + seq![','],
    decreases n,
{
    if n == 1 {
        assert(texts_with_commas(events, 0) == Seq::<char>::empty());
        assert(Seq::<char>::empty() + events[0].0@ =~= events[0].0@);
    } else {
        lemma_commas(events, (n - 1) as nat);
        assert(comma_separated(events, (n - 1) as nat) + seq![','] + events[n - 1].0@ + seq![',']
            =~= comma_separated(events, n) + seq![',']);
    }
}

proof fn lemma_separated_ends_with_last(events: Seq<(String, JsonValue)>, n: nat)
    requires
        1 <= n <= events.len(),
        events[n - 1].0@.len() > 0,
    ensures
        comma_separated(events, n).len() > 0,
        comma_separated(events, n).last() == events[n - 1].0@.last(),
{
    if n > 1 {
        let s = comma_separated(events, (n - 1) as nat) + seq![','];
        assert(comma_separated(events, n) == s + events[n - 1].0@);
        assert((s + events[n - 1].0@).last() == events[n - 1].0@.last());
    }
}

/// A subscriber whose filter is `And []` (what a client sends when it sets
/// no filter) receives every event of a batch, in order: the texts of the
/// events, separated by commas, in brackets. (The texts are JSON documents:
/// not empty, and not ending with a comma.)
pub proof fn law_accept_all_receives_every_event(
    f: Filter,
    events: Seq<(String, JsonValue)>,
    r: BatchOutcome,
)
    requires
        f.path@ == seq!['.'],
        f.operator matches Operator::And(fs) && fs@.len() == 0,
        events.len() > 0,
        forall|i: int|
            0 <= i < events.len() ==> (#[trigger] events[i]).0@.len() > 0 && events[i].0@.last() != ',',
        batch_outcome_matches(r, Some(f), events),
    ensures
        r matches BatchOutcome::Send(t) && t@ == seq!['['] + comma_separated(events, events.len())
            + seq![']'],
{
    let n = events.len();
    lemma_accept_all_prefix(f, events, n);
    lemma_commas(events, n);
    assert(events[n - 1].0@.len() > 0);
    lemma_separated_ends_with_last(events, n);
    let body = seq!['['] + comma_separated(events, n);
    let s = seq!['['] + texts_with_commas(events, n);
    assert(s =~= body + seq![',']);
    assert(s.len() > 1);
    assert(s != seq!['[']) by {
        assert(s.len() != seq!['['].len());
    }
    assert((body + seq![',']).drop_last() =~= body);
    assert(body.last() == comma_separated(events, n).last());
    assert(trim_end(body, ',') == body);
    assert(trim_end(s, ',') == body);
}

/// A subscriber that sent no filter receives every event of a batch, in
/// order, exactly as one whose filter is `And []` does. (The texts are JSON
/// documents: not empty, and not ending with a comma.)
pub proof fn law_no_filter_receives_every_event(events: Seq<(String, JsonValue)>, r: BatchOutcome)
    requires
        events.len() > 0,
        forall|i: int|
            0 <= i < events.len() ==> (#[trigger] events[i]).0@.len() > 0 && events[i].0@.last() != ',',
        batch_outcome_matches(r, None, events),
    ensures
        r matches BatchOutcome::Send(t) && t@ == seq!['['] + comma_separated(events, events.len())
            + seq![']'],
{
    let n = events.len();
    lemma_commas(events, n);
    assert(events[n - 1].0@.len() > 0);
    lemma_separated_ends_with_last(events, n);
    let body = seq!['['] + comma_separated(events, n);
    let s = seq!['['] + texts_with_commas(events, n);
    assert(s =~= body + seq![',']);
    assert((body + seq![',']).drop_last() =~= body);
    assert(body.last() == comma_separated(events, n).last());
    assert(trim_end(body, ',') == body);
    assert(trim_end(s, ',') == body);
}

} // verus!
