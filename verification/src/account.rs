//! Identities of participants on the hosting ledger.

use vstd::prelude::*;

verus! {

/// Identity of a ledger participant: the admin, a blood bank, a donor, an
/// approver, or an asset contract.
///
/// The host authenticates callers cryptographically before an operation body
/// runs; inside the library an identity is just a value to be compared.
#[derive(Clone, Copy, Debug, PartialEq, Eq, Structural)]
pub struct AccountId(pub u64);

} // verus!
