//! The registry as a mathematical value, and the effect of every operation
//! on it.

use vstd::prelude::*;
use crate::account::AccountId;

verus! {

/// Identifier of a property: the number of listings made before it.
pub type PropertyId = u32;

/// The owner that an entry stands for: nobody, that is the zero identity,
/// where there is no entry.
pub open spec fn owner_on_record(entry: Option<AccountId>) -> AccountId {
    match entry {
        Some(owner) => owner,
        None => AccountId::zero(),
    }
}

/// The asking price that an entry stands for: 0 where there is no entry.
pub open spec fn price_on_record(entry: Option<u32>) -> u32 {
    match entry {
        Some(price) => price,
        None => 0,
    }
}

/// The approval that an entry stands for: none where there is no entry.
pub open spec fn approval_on_record(entry: Option<bool>) -> bool {
    match entry {
        Some(approved) => approved,
        None => false,
    }
}

/// Everything the registry remembers.
///
/// The maps are read with a default on a miss: an identifier without an
/// entry has the zero identity as owner, price 0, and is not approved. The
/// registry has no way to tell such an identifier from a free, unapproved
/// property that nobody owns.
#[verifier::ext_equal]
pub struct RegistryState {
    /// The governance identity; the zero identity until it is established.
    pub governance: AccountId,
    /// Whether `governance` has been established.
    pub governance_set: bool,
    /// The number of listings made so far, which is also the next identifier.
    pub property_count: nat,
    /// Current holder of each property.
    pub owner: Map<PropertyId, AccountId>,
    /// Display name of each property.
    pub name: Map<PropertyId, Seq<char>>,
    /// Asking price of each property.
    pub price: Map<PropertyId, u32>,
    /// Whether each property may change hands.
    pub approved: Map<PropertyId, bool>,
}

impl RegistryState {
    /// The registry before any call: nothing listed, governance not established.
    pub open spec fn initial() -> RegistryState {
        RegistryState {
            governance: AccountId::zero(),
            governance_set: false,
            property_count: 0,
            owner: Map::empty(),
            name: Map::empty(),
            price: Map::empty(),
            approved: Map::empty(),
        }
    }

    /// Whether `id` was handed out by a listing.
    pub open spec fn is_listed(self, id: PropertyId) -> bool {
        id < self.property_count
    }

    /// The holder of `id`, or the zero identity where none is recorded.
    pub open spec fn owner_of(self, id: PropertyId) -> AccountId {
        owner_on_record(self.owner.get(id))
    }

    /// The asking price of `id`, or 0 where none is recorded.
    pub open spec fn price_of(self, id: PropertyId) -> u32 {
        price_on_record(self.price.get(id))
    }

    /// Whether `id` has been approved.
    pub open spec fn is_approved(self, id: PropertyId) -> bool {
        approval_on_record(self.approved.get(id))
    }

    /// Whether `who` is the identity that approvals are checked against.
    pub open spec fn is_governance(self, who: AccountId) -> bool {
        who == self.governance
    }

    /// Whether an offer of `offered` for `id` goes through: it meets the
    /// asking price and the property is approved.
    pub open spec fn accepts_offer(self, id: PropertyId, offered: u32) -> bool {
        offered >= self.price_of(id) && self.is_approved(id)
    }

    /// What always holds of a registry that started out as `initial()`.
    ///
    /// Every listed property has all four entries; names and prices exist
    /// for listed properties only. An approval can be recorded for an
    /// identifier that was never listed, and such an identifier can then be
    /// bought, so owners and approvals may reach beyond the listings, an owner
    /// only where the approval is in place.
    pub open spec fn well_formed(self) -> bool {
        &&& self.property_count <= u32::MAX
        &&& !self.governance_set ==> self.governance == AccountId::zero()
        &&& forall|id: PropertyId| #[trigger]
            self.is_listed(id) ==> {
                &&& self.owner.contains_key(id)
                &&& self.name.contains_key(id)
                &&& self.price.contains_key(id)
                &&& self.approved.contains_key(id)
            }
        &&& forall|id: PropertyId| #[trigger] self.name.contains_key(id) ==> self.is_listed(id)
        &&& forall|id: PropertyId| #[trigger] self.price.contains_key(id) ==> self.is_listed(id)
        &&& forall|id: PropertyId| #[trigger]
            self.owner.contains_key(id) ==> self.is_listed(id) || self.is_approved(id)
    }

    /// The registry after somebody asked for the governance identity: the
    /// first such caller becomes governance, later ones change nothing.
    pub open spec fn after_get_govt_id(self, caller: AccountId) -> RegistryState {
        if self.governance_set {
            self
        } else {
            RegistryState { governance: caller, governance_set: true, ..self }
        }
    }

    /// The registry after `caller` listed a property: it gets the next
    /// identifier, belongs to the caller and awaits approval.
    pub open spec fn after_sell_property(
        self,
        name: Seq<char>,
        price: u32,
        caller: AccountId,
    ) -> RegistryState
        recommends
            self.property_count < u32::MAX,
    {
        let id = self.property_count as PropertyId;
        RegistryState {
            property_count: self.property_count + 1,
            owner: self.owner.insert(id, caller),
            name: self.name.insert(id, name),
            price: self.price.insert(id, price),
            approved: self.approved.insert(id, false),
            ..self
        }
    }

    /// The registry after `caller` asked to approve `id`: approved if the
    /// caller is governance, unchanged otherwise.
    pub open spec fn after_approve_property(
        self,
        id: PropertyId,
        caller: AccountId,
    ) -> RegistryState {
        if self.is_governance(caller) {
            RegistryState { approved: self.approved.insert(id, true), ..self }
        } else {
            self
        }
    }

    /// The registry after `caller` offered `offered` for `id`: the caller
    /// holds the property if the offer went through, nothing changed otherwise.
    pub open spec fn after_buy_property(
        self,
        id: PropertyId,
        offered: u32,
        caller: AccountId,
    ) -> RegistryState {
        if self.accepts_offer(id, offered) {
            RegistryState { owner: self.owner.insert(id, caller), ..self }
        } else {
            self
        }
    }
}

} // verus!
