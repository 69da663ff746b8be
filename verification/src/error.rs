//! The kinds of failure that the pipeline reports.

use vstd::prelude::*;

verus! {

/// All errors the pipeline can report. The enumeration is flat: a value names
/// the kind of failure and nothing else, except for a rejected response, which
/// carries the status the server answered with.
#[derive(Clone, Copy, Debug, PartialEq, Eq)]
pub enum ApiError {
    /// A header that the pipeline expects in the response is absent.
    MissingHeader,
    /// The header is present, but its value is not what the pipeline expects.
    InvalidHeader,
    /// A value was refused as a header while the request was built.
    InvalidHeaderValue,
    /// A header value is not valid text.
    ToStr,
    /// The HTTP transport failed: the request could not be built or sent, or
    /// the body broke off.
    RequestError,
    /// A numeric header value did not parse.
    ParseIntError,
    /// A file or stream operation failed.
    IoError,
    /// A chunk was tried too many times. Reserved: nothing here retries.
    TooManyRetries,
    /// The server answered with a status that is no success; the status is
    /// attached.
    InvalidResponse(u16),
    /// bzip2 or tar failed, or the archive holds a member that would be
    /// unpacked outside the cache root.
    Archive,
}

} // verus!
