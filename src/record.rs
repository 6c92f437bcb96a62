use vstd::prelude::*;

verus! {

/// A structured GELF log entry. The library never looks inside a record:
/// it only keeps records in order and hands them on.
#[verifier::external_type_specification]
#[verifier::external_body]
pub struct ExGelfRecord(serde_gelf::GelfRecord);

} // verus!
