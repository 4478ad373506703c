//! Verified core of a minimal HTTP server.
//!
//! The server binds a fixed loopback address and answers every request with
//! the same plaintext response: status 200, one `Content-Type: text/plain`
//! header, and the body `Hello, World!\n`. The handler logic and the canned
//! response live in [`handler`] with full contracts; [`bridge`] turns the
//! verified response into the `hyper` value that the listener writes to the
//! socket.

pub mod bridge;
pub mod handler;
