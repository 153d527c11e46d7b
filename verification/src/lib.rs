//! A minimal read-only entity lookup library: users and items fetched by
//! numeric id from a swappable storage backend. The request-handling logic
//! — path-id parsing, lookup through an abstract repository capability,
//! response and JSON body construction, route dispatch — is verified; the
//! HTTP server and the persistent store's client live outside and only
//! carry plain values across the boundary.

pub mod http;
pub mod items;
pub mod json;
pub mod memory_db;
pub mod parse;
pub mod persistent;
pub mod router;
pub mod users;
