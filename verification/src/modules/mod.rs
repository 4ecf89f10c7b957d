//! The server modules: the HTTP query server, the websocket event server,
//! and the copier from event streams to the database.
pub mod http_server;
pub mod redis_to_postgres;
pub mod websocket_server;
