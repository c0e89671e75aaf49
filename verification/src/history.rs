//! Sequences of calls, for stating what holds of every registry that was
//! reached from the empty one.

use vstd::prelude::*;
use crate::account::AccountId;
use crate::state::{PropertyId, RegistryState};

verus! {

/// One call of an operation that can change the registry, with its caller.
pub enum Call {
    /// `get_govt_id` by `caller`.
    GetGovtId { caller: AccountId },
    /// `sell_property` by `caller`.
    SellProperty { name: Seq<char>, price: u32, caller: AccountId },
    /// `approve_property` by `caller`.
    ApproveProperty { property_id: PropertyId, caller: AccountId },
    /// `buy_property` by `caller`.
    BuyProperty { property_id: PropertyId, price: u32, caller: AccountId },
}

impl RegistryState {
    /// The registry after one call.
    pub open spec fn after(self, call: Call) -> RegistryState {
        match call {
            Call::GetGovtId { caller } => self.after_get_govt_id(caller),
            Call::SellProperty { name, price, caller } => self.after_sell_property(
                name,
                price,
                caller,
            ),
            Call::ApproveProperty { property_id, caller } => self.after_approve_property(
                property_id,
                caller,
            ),
            Call::BuyProperty { property_id, price, caller } => self.after_buy_property(
                property_id,
                price,
                caller,
            ),
        }
    }

    /// The registry after the calls of `calls`, made in order.
    pub open spec fn after_all(self, calls: Seq<Call>) -> RegistryState
        decreases calls.len(),
    {
        if calls.len() == 0 {
            self
        } else {
            self.after_all(calls.drop_last()).after(calls.last())
        }
    }
}

/// How many of `calls` are listings.
pub open spec fn listings(calls: Seq<Call>) -> nat
    decreases calls.len(),
{
    if calls.len() == 0 {
        0
    } else if calls.last() is SellProperty {
        listings(calls.drop_last()) + 1
    } else {
        listings(calls.drop_last())
    }
}

/// The caller of the earliest `get_govt_id` among `calls`, if there is one.
pub open spec fn first_governance_caller(calls: Seq<Call>) -> Option<AccountId>
    decreases calls.len(),
{
    if calls.len() == 0 {
        None
    } else {
        match first_governance_caller(calls.drop_last()) {
            Some(caller) => Some(caller),
            None => match calls.last() {
                Call::GetGovtId { caller } => Some(caller),
                _ => None,
            },
        }
    }
}

/// Whether the call at position `i` of `calls` is a `get_govt_id` that no
/// other `get_govt_id` precedes.
pub open spec fn is_first_governance_call(calls: Seq<Call>, i: int) -> bool {
    &&& 0 <= i < calls.len()
    &&& calls[i] is GetGovtId
    &&& forall|j: int| 0 <= j < i ==> !(#[trigger] calls[j] is GetGovtId)
}

/// Whether the calls of `calls` can all be made on a registry that holds
/// `listed` listings: the 32-bit identifiers must not run out.
pub open spec fn within_capacity(listed: nat, calls: Seq<Call>) -> bool {
    listed + listings(calls) <= u32::MAX
}

} // verus!
