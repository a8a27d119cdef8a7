//! The core of an HTTP edge gateway in front of several backend services.
//!
//! - `error`: the one error value, an HTTP status with a readable cause.
//! - `stream`: draining a byte stream that may end in an error.
//! - `headers`, `request`: the inbound request as plain values.
//! - `restful`: backend URLs and how a backend reply maps to a body or an error.
//! - `pass_through`: forwarding a request to a backend and relaying its answer.
//! - `auth`: the middleware that resolves a caller token into an identity.
//! - `aggregation`: joining walk requests with their dogs, in order, all or nothing.
//! - `service`, `account`, `uploads`: the decisions between backend calls.
//! - `query`: the query string pairs of a dog lookup.
//! - `entities`, `config`: the records the gateway relays and its settings.
//!
//! Everything here is a function from plain values to plain values; the
//! network, the clock and the host server stay with the caller.

pub mod error;
pub mod entities;
pub mod stream;
pub mod headers;
pub mod request;
pub mod restful;
pub mod pass_through;
pub mod service;
pub mod aggregation;
pub mod auth;
pub mod account;
pub mod config;
pub mod uploads;
pub mod query;
