//! A verified core for a virtual drive backed by a remote messaging service.
//!
//! Logical folders map to channel-like containers on the backend and logical
//! files map to media-bearing messages inside them.  This crate holds the
//! decision logic of that drive: the connection lifecycle state machine, the
//! bandwidth accountant with its daily quota, the peer resolver, the error
//! classifier, and the pure parts of the drive operations and of the media
//! streaming endpoint.  All network and disk traffic stays with the caller,
//! which feeds results back in as plain values.

pub mod bandwidth;
pub mod drive;
pub mod errors;
pub mod lifecycle;
pub mod models;
pub mod preview;
pub mod resolver;
pub mod stream;
pub mod text;
