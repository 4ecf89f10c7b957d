//! The description of an event that the servers serve: its identifier, its
//! category, how it is stored, and the HTTP endpoints that query it.
use vstd::prelude::*;
use crate::json::JsonValue;

verus! {

/// An event as the servers know it.
#[derive(Debug)]
pub struct Event {
    pub id: String,
    pub description: Option<String>,
    pub category: String,
    /// The statement that stores a batch of events, if the event is stored.
    pub sql_insert: Option<String>,
    pub endpoints: Vec<QueryEndpoint>,
}

/// How an endpoint answers: an SQL query that receives the request's query
/// parameters as one JSON object, or a handler of the program, by number.
#[derive(Debug)]
pub enum Query {
    Sql(String),
    Custom(u64),
}

/// An HTTP endpoint that queries an event.
#[derive(Debug)]
pub struct QueryEndpoint {
    /// The name of the endpoint, used in the URL.
    pub route: String,
    /// The OpenAPI description of the endpoint.
    pub openapi: Option<JsonValue>,
    /// How the endpoint answers.
    pub query: Query,
}

} // verus!
