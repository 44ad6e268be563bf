//! The broker address type from `embedded-nal`, made visible to the verifier.
//!
//! The session logic never looks inside the address: it stores the value at
//! construction and carries it unchanged through every reset, so the type is
//! declared opaque.

use vstd::prelude::*;

verus! {

#[verifier::external_type_specification]
#[verifier::external_body]
pub struct ExIpAddr(embedded_nal::IpAddr);

} // verus!
