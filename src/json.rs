//! The JSON payload type that commands carry. The framework hands it through
//! unread.
use vstd::prelude::*;

verus! {

/// serde_json's JSON value, carried opaquely as a command payload.
#[verifier::external_type_specification]
#[verifier::external_body]
pub struct ExJsonValue(serde_json::Value);

} // verus!
