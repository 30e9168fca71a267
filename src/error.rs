use vstd::prelude::*;

verus! {

/// The ways in which resolving or dereferencing an identifier can fail.
#[derive(Debug, PartialEq, Eq)]
pub enum ResolverError {
    /// The identifier does not follow the `did:indy` grammar, or names an
    /// unknown ledger object.
    MalformedIdentifier,
    /// A `versionTime`, `from` or `to` value is present but is no RFC 3339 date.
    MalformedTimestamp,
    /// A composite ledger identifier built from the path was rejected.
    TranslationFailure,
    /// The ledger reported a failure; the text describes it.
    ExecutionFailure(String),
    /// The ledger answered, but the reply holds no record.
    EmptyData,
    /// A reply or payload does not have the shape its transaction type asks for.
    DecodeFailure,
}

} // verus!
