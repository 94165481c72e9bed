//! The request pipeline of a reverse proxy that asks a key authority before
//! it forwards, and keeps an audit trail of what it let pass.
//!
//! The library does no I/O. It decides what is done with a request, and
//! leaves it to its caller to reach the authority, the audit store and the
//! upstream:
//!
//! - [`middlewares`] is the authorization gate: it reads the credential
//!   that a request presents and decides from the authority's reply
//!   whether the request may pass;
//! - [`routes`] is the forwarding engine and the read surface: the request
//!   that goes to the upstream, the response that goes back, and the
//!   envelope in which audit records are handed out;
//! - [`services`] is the audit recorder: what is written to the store, what
//!   the store is asked, and how its answers are read;
//! - [`pipeline`] puts these in sequence, as a state machine that names the
//!   next action and takes what came of it;
//! - [`laws`] states what holds of every request that runs through the
//!   pipeline.
//!
//! [`http`], [`models`], [`credential`], [`error`], [`url`], [`document`]
//! and [`text`] hold the values that these work on. [`apikeys`] holds the
//! records of the key authority itself, and [`payload`] the limit on what
//! an upload may hold.

pub mod apikeys;
pub mod credential;
pub mod document;
pub mod error;
pub mod http;
pub mod laws;
pub mod middlewares;
pub mod models;
pub mod payload;
pub mod pipeline;
pub mod routes;
pub mod services;
pub mod text;
pub mod url;
