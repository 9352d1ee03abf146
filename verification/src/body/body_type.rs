use vstd::prelude::*;

verus! {

/// How the length of an HTTP/1 message body is determined.
#[derive(Clone, Copy, Debug, PartialEq, Eq, Structural)]
pub enum HttpBodyType {
    /// The body is exactly this many bytes long.
    FixedLength(u64),
    /// The body runs until the source reports end of file.
    ReadUntilEnd,
    /// The body is framed with the chunked transfer coding.
    Chunked,
}

impl HttpBodyType {
    /// The announced length, when there is one.
    pub fn fixed_length(&self) -> (r: Option<u64>)
        ensures
            r == (match *self {
                HttpBodyType::FixedLength(n) => Some(n),
                _ => None,
            }),
    {
        match self {
            HttpBodyType::FixedLength(n) => Some(*n),
            _ => None,
        }
    }
}

} // verus!
