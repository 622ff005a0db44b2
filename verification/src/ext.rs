//! Declares the outside MessagePack codec's value type to the verifier,
//! so it can appear in the signatures of the trusted conversions.

use vstd::prelude::*;

verus! {

#[verifier::external_type_specification]
#[verifier::external_body]
pub struct ExValue(rmpv::Value);

#[verifier::external_type_specification]
#[verifier::external_body]
pub struct ExInteger(rmpv::Integer);

} // verus!
