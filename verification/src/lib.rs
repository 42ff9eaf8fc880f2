//! A request/response event envelope dispatcher.
//!
//! A raw JSON message is decoded into a [`events::RequestEvent`], routed by
//! `(name, version)` to a registered handler, and every outcome (success,
//! business error, unknown event, malformed input) is returned as a
//! [`events::ResponseEvent`] of the same wire shape.

pub mod json;
pub mod ids;
pub mod text;
pub mod errors;
pub mod events;
pub mod handlers;
pub mod store;
pub mod processor;
