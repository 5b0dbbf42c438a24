//! The server's end of reusable sessions.

pub mod relay;
pub mod session_loop;
