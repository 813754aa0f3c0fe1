use vstd::prelude::*;

verus! {

/// Which of the two type-level invariants a record type broke.
#[derive(Debug, Clone, Copy, PartialEq, Eq, Structural)]
pub enum ConstraintKind {
    /// No field carries the field role; a record must measure something.
    NoFieldRole,
    /// More than one field carries the timestamp role; at most one is allowed.
    MultipleTimestamps,
}

/// Why a record type failed to resolve. All three failures are
/// definition-time: a type that does not resolve cannot be serialized at all.
#[derive(Debug, Clone, Copy, PartialEq, Eq, Structural)]
pub enum ResolveError {
    /// An annotation block holds a marker or key outside the recognized
    /// annotation language.
    InvalidAnnotation,
    /// A type-level invariant does not hold over the resolved roles.
    ConstraintViolation(ConstraintKind),
    /// The type is not a flat structure of named fields, so wire names
    /// cannot be derived.
    UnsupportedShape,
}

/// Whether an HTTP status code signals a client error, the class of
/// response that turns a write into a rejected request. The class spans
/// exactly the codes from 400 through 499.
pub fn status_is_client_error(status: u16) -> (r: bool)
    ensures
        r == (400 <= status <= 499),
{
    400 <= status && status <= 499
}

} // verus!
