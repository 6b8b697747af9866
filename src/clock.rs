use vstd::prelude::*;

verus! {

/// `std::time::Instant`, carried through task records as an opaque start time.
#[verifier::external_type_specification]
#[verifier::external_body]
pub struct ExInstant(std::time::Instant);

} // verus!
