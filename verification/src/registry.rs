//! The registry itself.

use std::collections::HashMap;
use vstd::prelude::*;
use crate::account::AccountId;
use crate::error::Error;
use crate::history::Call;
use crate::laws::{law_call_keeps_well_formed, law_initial_is_well_formed};
use crate::rules::{
    approval_confirmation, check_governance, check_offer, governance_after, next_listing,
    recorded_owner,
};
use crate::state::{PropertyId, RegistryState};

verus! {

/// A property registry and marketplace held in memory.
///
/// Callers are identified by the `caller` argument of each operation; the
/// host is trusted to pass the authenticated identity of whoever made the
/// call. The view `self@` is the [`RegistryState`] that the registry stands
/// for, and every operation states its effect on that view.
pub struct RealEstateContract {
    governance: AccountId,
    property_owner: HashMap<PropertyId, AccountId>,
    property_name: HashMap<PropertyId, String>,
    property_price: HashMap<PropertyId, u32>,
    property_approved: HashMap<PropertyId, bool>,
    property_count: u32,
    set: bool,
}

impl View for RealEstateContract {
    type V = RegistryState;

    closed spec fn view(&self) -> RegistryState {
        RegistryState {
            governance: self.governance,
            governance_set: self.set,
            property_count: self.property_count as nat,
            owner: self.property_owner@,
            name: self.property_name@.map_values(|name: String| name@),
            price: self.property_price@,
            approved: self.property_approved@,
        }
    }
}

impl RealEstateContract {
    /// An empty registry: nothing listed, governance not yet established.
    pub fn new() -> (registry: Self)
        ensures
            registry@ == RegistryState::initial(),
            registry@.well_formed(),
    {
        let registry = RealEstateContract {
            governance: AccountId::default(),
            property_owner: HashMap::new(),
            property_name: HashMap::new(),
            property_price: HashMap::new(),
            property_approved: HashMap::new(),
            property_count: 0,
            set: false,
        };
        proof {
            law_initial_is_well_formed();
        }
        registry
    }

    /// Returns the governance identity, establishing it first if nobody has:
    /// the first caller ever becomes governance, and no later call, by
    /// anybody, changes it.
    pub fn get_govt_id(&mut self, caller: AccountId) -> (governance: AccountId)
        ensures
            final(self)@ == old(self)@.after_get_govt_id(caller),
            governance == final(self)@.governance,
            final(self)@.governance_set,
            governance == if old(self)@.governance_set {
                old(self)@.governance
            } else {
                caller
            },
            old(self)@.well_formed() ==> final(self)@.well_formed(),
    {
        proof {
            if old(self)@.well_formed() {
                law_call_keeps_well_formed(old(self)@, Call::GetGovtId { caller });
            }
        }
        self.governance = governance_after(self.governance, self.set, caller);
        self.set = true;
        self.governance
    }

    /// Lists a property called `name` at `price` for `caller`, and returns its
    /// identifier.
    ///
    /// Identifiers are handed out in order from 0, so the identifier is the
    /// number of listings made before this one. The new property belongs to
    /// the caller and is not approved. No name and no price is refused.
    ///
    /// The identifiers are 32 bits wide, so no listing can follow the one
    /// that brings the count to `u32::MAX`: see [`Self::property_count`].
    pub fn sell_property(&mut self, name: String, price: u32, caller: AccountId) -> (id: PropertyId)
        requires
            old(self)@.property_count < u32::MAX,
        ensures
            id == old(self)@.property_count,
            final(self)@ == old(self)@.after_sell_property(name@, price, caller),
            final(self)@.property_count == old(self)@.property_count + 1,
            old(self)@.well_formed() ==> final(self)@.well_formed(),
    {
        let (id, count) = next_listing(self.property_count);
        let ghost listed_name = name@;
        self.property_approved.insert(id, false);
        self.property_name.insert(id, name);
        self.property_price.insert(id, price);
        self.property_owner.insert(id, caller);
        self.property_count = count;
        proof {
            if old(self)@.well_formed() {
                law_call_keeps_well_formed(
                    old(self)@,
                    Call::SellProperty { name: listed_name, price, caller },
                );
            }
        }
        id
    }

    /// Approves `property_id` on behalf of `caller`, who must be governance.
    ///
    /// Anybody else is refused and nothing changes. For governance the
    /// approval always succeeds, whether or not the property was approved
    /// before and whether or not it was ever listed, and the confirmation
    /// reads "Approved". Nothing but the approval of `property_id` changes.
    pub fn approve_property(&mut self, property_id: PropertyId, caller: AccountId) -> (outcome:
        Result<String, Error>)
        ensures
            outcome is Ok <==> old(self)@.is_governance(caller),
            outcome matches Ok(confirmation) ==> confirmation@ == "Approved"@,
            outcome matches Err(refusal) ==> refusal == Error::NotTheGovernanceError,
            final(self)@ == old(self)@.after_approve_property(property_id, caller),
            outcome is Ok ==> final(self)@.is_approved(property_id),
            outcome is Err ==> final(self)@ == old(self)@,
            old(self)@.well_formed() ==> final(self)@.well_formed(),
    {
        proof {
            if old(self)@.well_formed() {
                law_call_keeps_well_formed(
                    old(self)@,
                    Call::ApproveProperty { property_id, caller },
                );
            }
        }
        match check_governance(self.governance, caller) {
            Ok(()) => {
                self.property_approved.insert(property_id, true);
                Ok(approval_confirmation())
            },
            Err(refusal) => Err(refusal),
        }
    }

    /// Offers `price` for `property_id` on behalf of `caller`.
    ///
    /// The offer is refused as too low if it is below the listed price, and
    /// otherwise as not approved if the property has not been approved; the
    /// price is looked at first. An accepted offer makes the caller the
    /// owner and changes nothing else, so the property can be bought again.
    /// A refused offer changes nothing. An identifier without a recorded price
    /// counts as priced 0, one without a recorded approval as not approved.
    pub fn buy_property(&mut self, property_id: PropertyId, price: u32, caller: AccountId) -> (outcome:
        Result<(), Error>)
        ensures
            outcome == Err::<(), Error>(Error::PriceTooLess) <==> price < old(self)@.price_of(
                property_id,
            ),
            outcome == Err::<(), Error>(Error::PropertyNotApproved) <==> price >= old(
                self,
            )@.price_of(property_id) && !old(self)@.is_approved(property_id),
            outcome is Ok <==> old(self)@.accepts_offer(property_id, price),
            final(self)@ == old(self)@.after_buy_property(property_id, price, caller),
            outcome is Ok ==> final(self)@.owner_of(property_id) == caller,
            outcome is Err ==> final(self)@ == old(self)@,
            old(self)@.well_formed() ==> final(self)@.well_formed(),
    {
        proof {
            if old(self)@.well_formed() {
                law_call_keeps_well_formed(
                    old(self)@,
                    Call::BuyProperty { property_id, price, caller },
                );
            }
        }
        let listed_price = match self.property_price.get(&property_id) {
            Some(listed) => Some(*listed),
            None => None,
        };
        let approved = match self.property_approved.get(&property_id) {
            Some(flag) => Some(*flag),
            None => None,
        };
        match check_offer(listed_price, approved, price) {
            Ok(()) => {
                self.property_owner.insert(property_id, caller);
                Ok(())
            },
            Err(refusal) => Err(refusal),
        }
    }

    /// Whether `caller` is the identity that approvals are checked against.
    /// Until governance is established that is the zero identity.
    pub fn is_governance(&self, caller: AccountId) -> (yes: bool)
        ensures
            yes == self@.is_governance(caller),
    {
        self.governance == caller
    }

    /// The current owner of `property_id`, or the zero identity if no owner
    /// was ever recorded for it.
    pub fn owner_of(&self, property_id: PropertyId) -> (owner: AccountId)
        ensures
            owner == self@.owner_of(property_id),
    {
        let entry = match self.property_owner.get(&property_id) {
            Some(owner) => Some(*owner),
            None => None,
        };
        recorded_owner(entry)
    }

    /// The number of listings made so far, which is the identifier that the
    /// next listing gets. A listing is possible while it is below `u32::MAX`.
    pub fn property_count(&self) -> (count: u32)
        ensures
            count == self@.property_count,
    {
        self.property_count
    }
}

} // verus!
