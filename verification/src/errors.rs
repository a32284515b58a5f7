//! The error taxonomy of the resolution protocol.

use vstd::prelude::*;

verus! {

/// How a resolution can fail.
///
/// - `EmptyKeySet`: the newest-key selector was handed no keys at all; the
///   resolver checks non-emptiness first, so this surfacing indicates a
///   logic error in the caller.
/// - `NoHistoricalData`: no cache bucket exists for the requested past day.
/// - `UpstreamUnavailable`: the single upstream fetch attempt failed.
/// - `MalformedPayload`: a payload could not be decoded into a snapshot.
/// - `StoreError`: the key-value store failed; a failed enumeration of
///   historical keys surfaces as this, while point reads degrade to a fetch
///   and writes are ignored, so those two never carry it to the caller.
#[derive(Clone, Copy, Debug, PartialEq, Eq, Structural)]
pub enum ErrorKind {
    EmptyKeySet,
    NoHistoricalData,
    UpstreamUnavailable,
    MalformedPayload,
    StoreError,
}

} // verus!
