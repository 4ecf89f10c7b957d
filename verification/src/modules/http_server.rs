//! The decisions of the HTTP query server: which endpoints it registers for
//! each event, how it answers an SQL query, and how it reports errors.
use vstd::prelude::*;
use crate::event::{Event, Query, QueryEndpoint};
use crate::json::{item_views, json_view, lemma_item_views, lemma_member_views, member_views, JsonValue, JsonView};
use crate::text::{decimal_text, u64_to_text};

verus! {

/// The HTTP server: an optional home page redirect, and endpoints added to
/// the ones each event brings, by event identifier.
#[derive(Debug)]
pub struct HttpServer {
    pub redirect_from_homepage: Option<String>,
    pub custom_endpoints: Vec<(String, Vec<QueryEndpoint>)>,
}

impl HttpServer {
    pub fn new(
        redirect_from_homepage: Option<String>,
        custom_endpoints: Vec<(String, Vec<QueryEndpoint>)>,
    ) -> (r: HttpServer)
        ensures
            r.redirect_from_homepage == redirect_from_homepage,
            r.custom_endpoints == custom_endpoints,
    {
        HttpServer { redirect_from_homepage, custom_endpoints }
    }

    /// The extra endpoints of an event: those listed under its identifier
    /// (the first such list), or none.
    pub open spec fn extra_endpoints(&self, id: Seq<char>) -> Seq<QueryEndpoint> {
        match first_keyed(self.custom_endpoints@, id) {
            Some(i) => self.custom_endpoints@[i].1@,
            None => Seq::empty(),
        }
    }

    /// The endpoints registered for an event, in order: its own, then the
    /// extra ones; each under `/v3/<route>`.
    pub fn routes_for<'a>(&'a self, event: &'a Event) -> (r: Vec<(String, &'a QueryEndpoint)>)
        ensures
            r@.len() == event.endpoints@.len() + self.extra_endpoints(event.id@).len(),
            forall|i: int|
                0 <= i < r@.len() ==> {
                    let e = if i < event.endpoints@.len() {
                        event.endpoints@[i]
                    } else {
                        self.extra_endpoints(event.id@)[i - event.endpoints@.len()]
                    };
                    &&& *(#[trigger] r@[i]).1 == e
                    &&& r@[i].0@ == "/v3/"@ + e.route@
                },
    {
        let mut r: Vec<(String, &'a QueryEndpoint)> = Vec::new();
        let mut i: usize = 0;
        while i < event.endpoints.len()
            invariant
                0 <= i <= event.endpoints.len(),
                r@.len() == i,
                forall|k: int|
                    0 <= k < i ==> *(#[trigger] r@[k]).1 == event.endpoints@[k] && r@[k].0@ == "/v3/"@
                        + event.endpoints@[k].route@,
            decreases event.endpoints.len() - i,
        {
            let e = &event.endpoints[i];
            r.push((String::from_str("/v3/").concat(e.route.as_str()), e));
            i = i + 1;
        }
        let extra = find_keyed(&self.custom_endpoints, &event.id);
        match extra {
            Some(j) => {
                let list = &self.custom_endpoints[j].1;
                let n = event.endpoints.len();
                let mut k: usize = 0;
                while k < list.len()
                    invariant
                        0 <= k <= list.len(),
                        n == event.endpoints.len(),
                        r@.len() == n + k,
                        forall|m: int|
                            0 <= m < n ==> *(#[trigger] r@[m]).1 == event.endpoints@[m] && r@[m].0@
                                == "/v3/"@ + event.endpoints@[m].route@,
                        forall|m: int|
                            n <= m < n + k ==> *(#[trigger] r@[m]).1 == list@[m - n] && r@[m].0@
                                == "/v3/"@ + list@[m - n].route@,
                    decreases list.len() - k,
                {
                    let e = &list[k];
                    r.push((String::from_str("/v3/").concat(e.route.as_str()), e));
                    k = k + 1;
                }
            },
            None => {},
        }
        r
    }
}

/// The position of the first entry keyed `id`.
pub open spec fn first_keyed<V>(entries: Seq<(String, V)>, id: Seq<char>) -> Option<int> {
    if exists|i: int| 0 <= i < entries.len() && (#[trigger] entries[i]).0@ == id {
        Some(
            choose|i: int|
                0 <= i < entries.len() && (#[trigger] entries[i]).0@ == id && forall|j: int|
                    0 <= j < i ==> (#[trigger] entries[j]).0@ != id,
        )
    } else {
        None
    }
}

fn find_keyed<V>(entries: &Vec<(String, V)>, id: &String) -> (r: Option<usize>)
    ensures
        r matches Some(i) ==> i < entries.len() && first_keyed(entries@, id@) == Some(i as int),
        r is None ==> first_keyed(entries@, id@) is None,
{
    let mut i: usize = 0;
    while i < entries.len()
        invariant
            0 <= i <= entries.len(),
            forall|j: int| 0 <= j < i ==> (#[trigger] entries@[j]).0@ != id@,
        decreases entries.len() - i,
    {
        if entries[i].0 == *id {
            proof {
                let p = choose|p: int|
                    0 <= p < entries@.len() && (#[trigger] entries@[p]).0@ == id@ && forall|j: int|
                        0 <= j < p ==> (#[trigger] entries@[j]).0@ != id@;
                assert(entries@[i as int].0@ == id@);
                if p < i {
                } else if p > i {
                    assert(entries@[i as int].0@ != id@);
                }
            }
            return Some(i);
        }
        i = i + 1;
    }
    None
}

/// An error of the HTTP server: of the database (its message), of the web
/// framework (its message), or a request for more blocks than allowed.
#[derive(Debug)]
pub enum AppError {
    Db(String),
    Actix(String),
    TooManyBlocks { requested: u64, max: u64 },
}

/// The text that reports a request for too many blocks.
pub open spec fn too_many_blocks_text(requested: u64, max: u64) -> Seq<char> {
    "Too many blocks requested. Requested: "@ + decimal_text(requested as nat) + ", Max: "@
        + decimal_text(max as nat)
}

fn too_many_blocks_message(requested: u64, max: u64) -> (r: String)
    ensures
        r@ == too_many_blocks_text(requested, max),
{
    let mut s = String::from_str("Too many blocks requested. Requested: ");
    let a = u64_to_text(requested);
    s.append(a.as_str());
    s.append(", Max: ");
    let b = u64_to_text(max);
    s.append(b.as_str());
    s
}

impl AppError {
    /// The HTTP status of the error: 500 for database and framework errors,
    /// 400 for too many blocks.
    pub fn status_code(&self) -> (r: u16)
        ensures
            r == match self {
                AppError::Db(_) => 500u16,
                AppError::Actix(_) => 500u16,
                AppError::TooManyBlocks { .. } => 400u16,
            },
    {
        match self {
            AppError::Db(_) => 500,
            AppError::Actix(_) => 500,
            AppError::TooManyBlocks { .. } => 400,
        }
    }

    /// The body of the error response.
    pub fn error_response(&self) -> (r: String)
        ensures
            r@ == match self {
                AppError::Db(m) => m@,
                AppError::Actix(m) => m@,
                AppError::TooManyBlocks { requested, max } => too_many_blocks_text(*requested, *max),
            },
    {
        match self {
            AppError::Db(m) => m.clone(),
            AppError::Actix(m) => m.clone(),
            AppError::TooManyBlocks { requested, max } => too_many_blocks_message(*requested, *max),
        }
    }

    /// The text of the error.
    pub fn to_text(&self) -> (r: String)
        ensures
            r@ == match self {
                AppError::Db(m) => "Database error: "@ + m@,
                AppError::Actix(m) => "Actix error: "@ + m@,
                AppError::TooManyBlocks { requested, max } => too_many_blocks_text(*requested, *max),
            },
    {
        match self {
            AppError::Db(m) => String::from_str("Database error: ").concat(m.as_str()),
            AppError::Actix(m) => String::from_str("Actix error: ").concat(m.as_str()),
            AppError::TooManyBlocks { requested, max } => too_many_blocks_message(*requested, *max),
        }
    }
}

/// The answer to an SQL endpoint: with the rows of the query (one JSON value
/// each), status 200 and `{"result": [[row], ...]}`; with a database error,
/// status 500 and `{"error": message}`.
pub fn sql_response(outcome: Result<Vec<JsonValue>, String>) -> (r: (u16, JsonValue))
    ensures
        match outcome {
            Ok(rows) => r.0 == 200 && r.1@ == JsonView::Object(
                seq![("result"@, JsonView::Array(Seq::new(rows@.len(), |i: int| JsonView::Array(seq![rows@[i]@]))))],
            ),
            Err(m) => r.0 == 500 && r.1@ == JsonView::Object(seq![("error"@, JsonView::Str(m@))]),
        },
{
    match outcome {
        Ok(rows) => {
            let ghost rv = rows@;
            let mut wrapped: Vec<JsonValue> = Vec::new();
            let mut k: usize = 0;
            while k < rows.len()
                invariant
                    0 <= k <= rows.len(),
                    rv == rows@,
                    wrapped@.len() == k,
                    forall|i: int|
                        0 <= i < k ==> json_view(#[trigger] wrapped@[i]) == JsonView::Array(seq![json_view(rv[i])]),
                decreases rows.len() - k,
            {
                let v = rows[k].deep_copy();
                let mut one: Vec<JsonValue> = Vec::new();
                one.push(v);
                proof {
                    lemma_item_views(one@, 1);
                    assert(item_views(one@, 1) =~= seq![json_view(rv[k as int])]);
                }
                wrapped.push(JsonValue::Array(one));
                k = k + 1;
            }
            proof {
                lemma_item_views(wrapped@, wrapped@.len());
                assert(item_views(wrapped@, wrapped@.len()) =~= Seq::new(rv.len(), |i: int| JsonView::Array(seq![rv[i]@])));
            }
            let mut members: Vec<(String, JsonValue)> = Vec::new();
            members.push((String::from_str("result"), JsonValue::Array(wrapped)));
            proof {
                lemma_member_views(members@, 1);
                assert(member_views(members@, 1) =~= seq![("result"@, json_view(members@[0].1))]);
            }
            (200, JsonValue::Object(members))
        },
        Err(m) => {
            let mut members: Vec<(String, JsonValue)> = Vec::new();
            members.push((String::from_str("error"), JsonValue::String(m)));
            proof {
                lemma_member_views(members@, 1);
                assert(member_views(members@, 1) =~= seq![("error"@, json_view(members@[0].1))]);
            }
            (500, JsonValue::Object(members))
        },
    }
}

} // verus!
