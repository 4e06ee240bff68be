//! The error taxonomy of the client.

use vstd::prelude::*;

use crate::response::RawResponse;
use crate::response_code::ResponseCode;

verus! {

/// Everything a session operation can fail with.
#[derive(Debug)]
pub enum NntpError {
    /// The byte stream failed: connection refused or reset, handshake
    /// failure, partial write, or read timeout. Only the embedding I/O
    /// layer constructs this; it is always fatal for the in-flight command.
    Transport,
    /// A line did not fit the grammar its exchange required: a malformed
    /// status line, or a first line whose fields cannot be read. The stream
    /// is no longer trustworthy.
    MalformedLine,
    /// The stream ended mid-response: before a complete first line, or
    /// before the terminator of a multi-line data block.
    Truncated,
    /// A syntactically well-formed response whose classification does not
    /// match what the issuing exchange required. The raw response is kept
    /// for diagnostics.
    Failure { code: ResponseCode, msg: Option<Vec<u8>>, resp: RawResponse },
    /// The distinguished "no such newsgroup" outcome of a GROUP exchange,
    /// kept apart from `Failure` because callers commonly branch on it.
    GroupNotFound(RawResponse),
    /// Bytes requested as text are not valid UTF-8. Raised only by the
    /// explicit text accessors, never by parsing.
    Decode,
}

} // verus!
