//! A verified core for a client that subscribes to vote events over one
//! WebSocket connection to a blockchain node.
//!
//! The crate holds the decisions of such a client and no I/O: a handle that
//! goes from connecting to connected to terminated, the subscriptions that it
//! keeps, and the rule by which an event stream yields what was received for
//! it. Whoever embeds the crate performs each [`Action`] that the handle asks
//! for and reports back what came of it.

pub mod client;
pub mod error;
pub mod filter;
pub mod laws;
pub mod model;

pub use client::{Action, WsClient, VOTE_FILTER};
pub use error::{Cause, ClientError, InvalidFilter};
pub use filter::Filter;
pub use model::{Phase, StreamState};
