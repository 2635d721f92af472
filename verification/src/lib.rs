//! A verified message board: clients post a username/message pair and read
//! the stored messages back, optionally filtered by a timestamp window, as a
//! rendered HTML list.
//!
//! The library holds the whole request/response contract: routing, form and
//! query parsing, the message store with its monotonic timestamps, and the
//! JSON and HTML renderers with their escaping rules. A thin front end owns
//! the socket and hands each request's method, path, query and body in as
//! plain values.
#![verifier::loop_isolation(false)]

pub mod error;
pub mod form;
pub mod html;
pub mod json;
pub mod response;
pub mod service;
pub mod store;
pub mod text;
