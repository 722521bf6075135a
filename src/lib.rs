//! Client library for the Universal Robots controller interfaces.
//!
//! The library speaks the binary Real-Time Data Exchange protocol (RTDE) and
//! reads the replies of the line-based Dashboard server. It does no I/O of its
//! own: callers move bytes over their sockets and hand what arrives to the
//! types here, which decide what is sent next and what a reply means.

pub mod codec;
pub mod dashboard;
pub mod data;
pub mod error;
pub mod reader;
pub mod recipe;
pub mod rolling_buffer;
pub mod rtde;
pub mod text;
pub mod types;

pub use error::Error;
