//! Decode failures surfaced by the wire-format codecs.

use vstd::prelude::*;

verus! {

/// A failure while decoding one of the wire envelope shapes.
///
/// Every variant is reported to the caller of the enclosing decode; the one
/// deliberate exception is the lenient sequence decoder, which drops
/// individually malformed elements instead of failing the whole array.
#[derive(Debug, Clone, PartialEq, Eq)]
pub enum Error {
    /// An item inside a paginated or embedded list could not be decoded at
    /// a call site where leniency does not apply.
    PaginatedInner,
    /// A single-key envelope (or the payload entry of a content envelope)
    /// was expected, but the mapping held no usable entry.
    PaginatedListMissing,
    /// A link-map value object was malformed: its `href` entry was missing
    /// or did not hold a valid absolute URL.
    Link(String),
    /// Neither the textual nor the numeric timestamp form matched.
    TimestampFormat,
    /// CIDR text did not parse into a valid (address, prefix-length) pair.
    CidrFormat,
}

impl Error {
    /// A short human-readable description of the failure.
    pub fn message(&self) -> &'static str {
        match self {
            Error::PaginatedInner => "An item within the inner paginated structure failed to deserialize",
            Error::PaginatedListMissing => "The inner list of paginated elements is missing",
            Error::Link(_) => "The link map failed to deserialize",
            Error::TimestampFormat => "The timestamp matched neither the textual nor the numeric form",
            Error::CidrFormat => "The CIDR text failed to parse",
        }
    }
}

} // verus!
