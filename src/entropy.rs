use vstd::prelude::*;

verus! {

#[verifier::external_type_specification]
#[verifier::external_body]
pub struct ExRandomError(getrandom::Error);

/// Relies on `getrandom::getrandom`: fills the buffer from the operating
/// system's secure random source, or reports that it could not. Nothing is
/// promised of the bytes.
#[verifier::external_body]
pub(crate) fn fill_random(buf: &mut [u8; 14]) -> (r: Result<(), getrandom::Error>) {
    getrandom::getrandom(buf)
}

} // verus!
