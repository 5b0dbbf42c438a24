//! Reusable sessions for a tunnelling proxy: the frame format, capability
//! negotiation, keepalive, the client's pool of idle sessions and the server's
//! session loop, as plain state machines that leave all input and output to the
//! caller.

pub mod addr;
pub mod client;
pub mod error;
pub mod opt;
pub mod server;
pub mod session;
pub mod text;
pub mod time;
