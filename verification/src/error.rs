//! The ways an operation can be refused.

use vstd::prelude::*;

verus! {

/// Why the registry refused an operation. A refusal is only reported: it
/// never changes the registry.
#[derive(Debug, PartialEq, Eq, Structural)]
pub enum Error {
    /// A governance-only operation was attempted by somebody else.
    NotTheGovernanceError,
    /// A purchase was attempted on a property that has not been approved.
    PropertyNotApproved,
    /// The offer is below the listed price.
    PriceTooLess,
}

} // verus!
