//! The fixed-capacity text that alarms carry as a description.

use vstd::prelude::*;

verus! {

/// Relies on `arrayvec::ArrayString`, the fixed-capacity string that alarms and
/// tasks keep as their description. The engine only stores and hands back such
/// values; nothing about their contents is assumed.
#[verifier::external_type_specification]
#[verifier::external_body]
pub struct ExArrayString<const CAP: usize>(arrayvec::ArrayString<CAP>);

} // verus!
