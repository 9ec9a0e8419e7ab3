use vstd::prelude::*;

verus! {

/// Failures of CCC operations.
///
/// `RandomnessError` and `GenericError` are raised here; the other kinds
/// come from the device and are handed back unchanged.
#[derive(Copy, Clone, Debug, PartialEq, Eq, Structural)]
pub enum CccError {
    /// The system's entropy source could not supply random bytes.
    RandomnessError,
    /// The capability container read from the card is malformed.
    GenericError,
    /// The requested object does not exist on the card.
    NotFound,
    /// The card refused the operation for want of authentication.
    AuthenticationError,
    /// The transport to the card failed.
    PcscError,
}

} // verus!
