//! What holds of the registry whatever calls are made.

use vstd::prelude::*;
use crate::account::AccountId;
use crate::history::{
    first_governance_caller, is_first_governance_call, listings, within_capacity, Call,
};
use crate::state::{PropertyId, RegistryState};

verus! {

/// The empty registry is well formed.
pub proof fn law_initial_is_well_formed()
    ensures
        RegistryState::initial().well_formed(),
{
}

/// No call breaks well-formedness, as long as a listing finds an identifier
/// left.
pub proof fn law_call_keeps_well_formed(s: RegistryState, call: Call)
    requires
        s.well_formed(),
        call is SellProperty ==> s.property_count < u32::MAX,
    ensures
        s.after(call).well_formed(),
{
    let t = s.after(call);
    assert forall|id: PropertyId| #[trigger] t.is_listed(id) implies {
        &&& t.owner.contains_key(id)
        &&& t.name.contains_key(id)
        &&& t.price.contains_key(id)
        &&& t.approved.contains_key(id)
    } by {
        // It was listed before, or it is the one that `call` lists.
        assert(s.is_listed(id) || id == s.property_count);
    }
}

/// A call changes the number of listings only by adding one, and only if it
/// is a listing.
pub proof fn law_count_grows_by_listings(s: RegistryState, calls: Seq<Call>)
    ensures
        s.after_all(calls).property_count == s.property_count + listings(calls),
        s.after_all(calls).property_count >= s.property_count,
    decreases calls.len(),
{
    if calls.len() > 0 {
        law_count_grows_by_listings(s, calls.drop_last());
    }
}

/// Every registry reached from a well-formed one is well formed, as long as
/// the identifiers do not run out on the way.
pub proof fn law_history_keeps_well_formed(s: RegistryState, calls: Seq<Call>)
    requires
        s.well_formed(),
        within_capacity(s.property_count, calls),
    ensures
        s.after_all(calls).well_formed(),
    decreases calls.len(),
{
    if calls.len() > 0 {
        let earlier = calls.drop_last();
        law_history_keeps_well_formed(s, earlier);
        law_count_grows_by_listings(s, earlier);
        law_call_keeps_well_formed(s.after_all(earlier), calls.last());
    }
}

/// `first_governance_caller` is what its name says: the caller of the
/// `get_govt_id` call that no other precedes, and nobody exactly if there is
/// no such call at all.
pub proof fn law_first_governance_caller_is_earliest(calls: Seq<Call>)
    ensures
        match first_governance_caller(calls) {
            Some(caller) => exists|i: int| #[trigger]
                is_first_governance_call(calls, i) && calls[i] == (Call::GetGovtId { caller }),
            None => forall|i: int| 0 <= i < calls.len() ==> !(#[trigger] calls[i] is GetGovtId),
        },
    decreases calls.len(),
{
    if calls.len() > 0 {
        let earlier = calls.drop_last();
        law_first_governance_caller_is_earliest(earlier);
        match first_governance_caller(earlier) {
            Some(caller) => {
                let i = choose|i: int| #[trigger]
                    is_first_governance_call(earlier, i) && earlier[i] == (Call::GetGovtId {
                        caller,
                    });
                assert forall|j: int| 0 <= j < i implies !(#[trigger] calls[j] is GetGovtId) by {
                    assert(!(earlier[j] is GetGovtId));
                }
                assert(is_first_governance_call(calls, i));
            },
            None => {
                let last = calls.len() - 1;
                assert forall|j: int| 0 <= j < last implies !(#[trigger] calls[j] is GetGovtId) by {
                    assert(!(earlier[j] is GetGovtId));
                }
                if calls.last() is GetGovtId {
                    assert(is_first_governance_call(calls, last));
                }
            },
        }
    }
}

/// Governance is whoever made the first `get_govt_id` call, whatever was
/// called before or after it and by whom; until such a call is made it is the
/// zero identity.
pub proof fn law_governance_is_first_caller(calls: Seq<Call>)
    ensures
        RegistryState::initial().after_all(calls).governance_set == (first_governance_caller(
            calls,
        ) is Some),
        RegistryState::initial().after_all(calls).governance == match first_governance_caller(
            calls,
        ) {
            Some(caller) => caller,
            None => AccountId::zero(),
        },
    decreases calls.len(),
{
    if calls.len() > 0 {
        law_governance_is_first_caller(calls.drop_last());
    }
}

/// Once governance is established no sequence of calls changes it.
pub proof fn law_established_governance_is_final(s: RegistryState, calls: Seq<Call>)
    requires
        s.governance_set,
    ensures
        s.after_all(calls).governance_set,
        s.after_all(calls).governance == s.governance,
    decreases calls.len(),
{
    if calls.len() > 0 {
        law_established_governance_is_final(s, calls.drop_last());
    }
}

/// After any calls, `who` passes the governance check exactly if it made the
/// first `get_govt_id` call; if nobody made one, exactly if it is the zero
/// identity.
pub proof fn law_governance_check(calls: Seq<Call>, who: AccountId)
    ensures
        RegistryState::initial().after_all(calls).is_governance(who) <==> who
            == match first_governance_caller(calls) {
            Some(caller) => caller,
            None => AccountId::zero(),
        },
{
    law_governance_is_first_caller(calls);
}

/// Identifiers are dense and start at 0: after any calls, the next listing
/// gets the number of listings among them as its identifier. That identifier
/// was free before, and afterwards names a property that belongs to the
/// lister, carries the given name and price, and is not approved.
pub proof fn law_listing_identifiers(
    calls: Seq<Call>,
    name: Seq<char>,
    price: u32,
    caller: AccountId,
)
    requires
        listings(calls) < u32::MAX,
    ensures
        ({
            let before = RegistryState::initial().after_all(calls);
            let after = before.after_sell_property(name, price, caller);
            let id = listings(calls) as PropertyId;
            &&& before.property_count == listings(calls)
            &&& !before.is_listed(id)
            &&& after.property_count == listings(calls) + 1
            &&& after.is_listed(id)
            &&& after.owner_of(id) == caller
            &&& after.name[id] == name
            &&& after.price_of(id) == price
            &&& !after.is_approved(id)
        }),
{
    law_count_grows_by_listings(RegistryState::initial(), calls);
}

/// What a listing recorded stays: whatever calls follow, a listed property
/// keeps its name and its price, and once approved it stays approved.
pub proof fn law_listing_is_permanent(s: RegistryState, calls: Seq<Call>, id: PropertyId)
    requires
        s.is_listed(id),
        within_capacity(s.property_count, calls),
    ensures
        s.after_all(calls).is_listed(id),
        s.after_all(calls).name[id] == s.name[id],
        s.after_all(calls).price_of(id) == s.price_of(id),
        s.is_approved(id) ==> s.after_all(calls).is_approved(id),
    decreases calls.len(),
{
    if calls.len() > 0 {
        let earlier = calls.drop_last();
        law_listing_is_permanent(s, earlier, id);
        law_count_grows_by_listings(s, earlier);
    }
}

/// A listing starts out unapproved even if an approval had been recorded for
/// its identifier ahead of time. This is the one way an approval is lost, and
/// the reason why the permanence above is stated of listed properties.
pub proof fn law_listing_starts_unapproved(
    s: RegistryState,
    name: Seq<char>,
    price: u32,
    caller: AccountId,
)
    requires
        s.property_count < u32::MAX,
    ensures
        !s.after_sell_property(name, price, caller).is_approved(s.property_count as PropertyId),
{
}

/// A purchase that went through can be repeated: the buyer holds the
/// property, and any other caller who then meets the price gets it in turn.
pub proof fn law_purchase_is_repeatable(
    s: RegistryState,
    id: PropertyId,
    offered: u32,
    buyer: AccountId,
    next_offer: u32,
    next_buyer: AccountId,
)
    requires
        s.accepts_offer(id, offered),
        next_offer >= s.price_of(id),
    ensures
        s.after_buy_property(id, offered, buyer).owner_of(id) == buyer,
        s.after_buy_property(id, offered, buyer).accepts_offer(id, next_offer),
        s.after_buy_property(id, offered, buyer).after_buy_property(
            id,
            next_offer,
            next_buyer,
        ).owner_of(id) == next_buyer,
{
}

/// A purchase touches nothing but the owner of the property bought.
pub proof fn law_purchase_changes_owner_only(
    s: RegistryState,
    id: PropertyId,
    offered: u32,
    buyer: AccountId,
    other: PropertyId,
)
    ensures
        ({
            let t = s.after_buy_property(id, offered, buyer);
            &&& t.governance == s.governance
            &&& t.governance_set == s.governance_set
            &&& t.property_count == s.property_count
            &&& t.name == s.name
            &&& t.price == s.price
            &&& t.approved == s.approved
            &&& other != id ==> t.owner_of(other) == s.owner_of(other)
        }),
{
}

/// An approved listing can be bought at its price for good: whatever calls
/// are made in between, an offer that meets the price goes through.
pub proof fn law_approved_listing_stays_for_sale(
    s: RegistryState,
    calls: Seq<Call>,
    id: PropertyId,
    offered: u32,
)
    requires
        s.is_listed(id),
        s.is_approved(id),
        offered >= s.price_of(id),
        within_capacity(s.property_count, calls),
    ensures
        s.after_all(calls).accepts_offer(id, offered),
{
    law_listing_is_permanent(s, calls, id);
}

} // verus!
