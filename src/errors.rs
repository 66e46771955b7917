use vstd::prelude::*;

verus! {

/// Failures reported by the configuration store and its cache.
#[derive(Debug, PartialEq)]
pub enum Error {
    /// The durable store holds no record for the key.
    DatabaseEntryNotFound,
    /// The durable store failed, or what it holds cannot be decoded; the text
    /// says why.
    DatabaseUnexpectedErr(String),
    /// The cache holds no entry for the key.
    CacheEntryNotFound,
}

} // verus!
