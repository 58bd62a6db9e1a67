//! Client-side chat protocol: the wire envelope codec, the state machine that
//! keeps the roster and the message thread, and the projections that a view
//! renders from that state.
pub mod json;
pub mod codec;
pub mod text;
pub mod chat;
