//! Message model for a request/response/event debugging protocol.
//!
//! The crate gives every wire message a typed shape: a top-level envelope
//! discriminated by a `type` tag, an event layer discriminated by an `event`
//! tag with a lossless fallback for unrecognized tags, a capability record
//! with a right-biased merge, and id-keyed ordering for stack frames and
//! variable scopes. All payloads travel as an explicit structured value type.

pub mod capabilities;
pub mod entities;
pub mod error;
pub mod events;
pub mod messages;
pub mod fields;
pub mod value;
