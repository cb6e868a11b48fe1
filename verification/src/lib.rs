//! Request-handling rules of the climacampo service: who may do what, how a
//! login opens a session, how a session token is checked and renewed, and what
//! each route answers for every outcome of the store it talks to.
//!
//! The store, the network and the web framework stay outside; every route is
//! written here as a sequence of steps, each of which takes what the previous
//! piece of outside work handed back and says what to do next.

pub mod status;
pub mod oid;
pub mod models;
pub mod query;
pub mod reply;
pub mod header;
pub mod session;
pub mod error_db;
pub mod routes;
pub mod service;
pub mod store;
pub mod laws;
