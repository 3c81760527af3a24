//! Bindings for the Plaid API that decide what is sent and what a reply
//! means, and leave the sending to the caller.
//!
//! An operation takes three steps. [`client::Plaid::request`] prepares the
//! request from the request value and its encoded payload. The caller sends
//! it, and decodes the body of the response as [`client::body_kind`] says,
//! which makes a [`client::Reply`]. The method of [`client::Plaid`] that is
//! named after the operation turns the reply into the result.
//!
//! [`pagination::TransactionsIter`] walks through a transaction listing page
//! by page in the same way.

/// The operations for callers that hold their configuration as a value.
pub mod api;
/// The client: credentials, environment, and the operations.
pub mod client;
/// Requests as plain values.
pub mod message;
/// Data types for entities returned by Plaid API endpoints.
pub mod model;
/// The walk through the pages of a transaction listing.
pub mod pagination;
