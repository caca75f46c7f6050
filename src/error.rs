use vstd::prelude::*;

verus! {

/// Per-record content errors and local-store policy errors.
#[derive(Debug, Clone, Copy, PartialEq, Eq, Structural)]
pub enum Error {
    /// The URL could not be parsed.
    InvalidUrl,
    /// The URL is longer than `URL_LENGTH_MAX` bytes.
    UrlTooLong,
    /// The record carries no URL.
    NoUrl,
    /// The record's `type` is not one this engine knows.
    UnsupportedKind,
    /// The payload lacks a field that every record must carry.
    MalformedPayload,
    /// A stored validity code is not one this engine knows.
    UnsupportedValidity,
    /// The merger's tree builder refused an item or a parent.
    InvalidTree,
    /// The GUID may not be used for this operation (the synthetic root).
    InvalidGuid,
    /// The parent does not exist or is not a folder.
    InvalidParent,
}

} // verus!
