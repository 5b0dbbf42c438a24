//! What both ends of a reusable session share: frames, negotiation, keepalive
//! and the session's life cycle.

pub mod frame;
pub mod keepalive;
pub mod lifecycle;
pub mod negotiate;
