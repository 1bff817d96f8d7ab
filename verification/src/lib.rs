//! Length-prefixed JSON framing for a native messaging host.
//!
//! A frame is a four-byte length in the byte order of the host, followed by
//! that many bytes of JSON text. The reader takes one request frame off a byte
//! stream and hands back its correlation id and its message; the writer puts
//! one reply or error frame on a byte sink.

pub mod error;
pub mod exchange;
pub mod frame;
pub mod json;
pub mod prefix;
pub mod request;
pub mod response;
