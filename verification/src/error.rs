use vstd::prelude::*;

verus! {

/// Errors raised while decoding frames from a byte stream.
#[derive(Debug, PartialEq, Eq)]
pub enum Error {
    /// The buffered bytes do not yet hold a whole frame.
    Incomplete,
    /// Any other failure, with a description.
    Other(String),
}

impl Error {
    /// The error raised when the peer closes the stream in the middle of a frame.
    pub fn connection_reset() -> (e: Error)
        ensures
            e matches Error::Other(s) && s@ == connection_reset_text(),
    {
        Error::Other(String::from_str("connection reset by peer"))
    }
}

/// The text of the error raised when the peer closes the stream in the middle of a frame.
pub open spec fn connection_reset_text() -> Seq<char> {
    "connection reset by peer"@
}

} // verus!
