use vstd::prelude::*;

verus! {

/// `std::io::Error`: the failure of a read from a byte source or of a write
/// to a byte sink. It is carried from the transport to the caller as it is.
/// Nothing in this crate looks into it, and nothing is claimed of it.
#[verifier::external_type_specification]
#[verifier::external_body]
pub struct ExIoError(std::io::Error);

} // verus!
