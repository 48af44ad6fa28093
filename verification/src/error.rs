use vstd::prelude::*;

verus! {

/// Why a boundary operation was refused.
///
/// The protocol has no recoverable runtime errors: each of these marks a
/// contract violation by the caller, reported explicitly so that a corrupt
/// call can never pass as a silent no-op.
#[derive(Clone, Copy, Debug, PartialEq, Eq, Structural)]
pub enum ProtocolError {
    /// The handle does not name a live object: it was never issued, or it
    /// was already destroyed or consumed.
    InvalidHandle,
    /// The integer lies outside the enumeration's code table.
    InvalidCode,
}

} // verus!
