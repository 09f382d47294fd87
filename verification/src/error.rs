//! The error taxonomy of the library.

use vstd::prelude::*;

verus! {

/// Every way a transfer can go wrong, by kind.  The library performs no
/// local recovery: each error is surfaced to the caller, who treats it as
/// fatal for the transfer at hand.
#[derive(Clone, Copy, Debug, PartialEq, Eq, Structural)]
pub enum TransferError {
    /// The input string is not a well-formed URI, or it lacks the
    /// path-and-query portion a filename is derived from.
    UriParse,
    /// The staging directory could not be created.
    StagingDir,
    /// TCP, TLS, or HTTP framing failure on the HEAD or GET request.
    HttpTransport,
    /// The HEAD response lacks a usable `Content-Length` header.
    MissingContentLength,
    /// The response body could not be drained into a buffer.
    BodyDrain,
    /// Create, write, open, or stat failure on the staged file.
    FileIo,
    /// The installer command could not be spawned or awaited.
    InstallSpawn,
}

} // verus!
