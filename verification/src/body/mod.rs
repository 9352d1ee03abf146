//! HTTP/1 message bodies: how they are framed, read and re-framed.

pub mod body_to_chunked;
pub mod body_type;
pub mod guarantees;
pub mod in_memory;
pub mod reader;
pub mod stream_to_chunked;
