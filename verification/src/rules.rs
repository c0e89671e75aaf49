//! The decisions of the marketplace, on the values they depend on.
//!
//! Each decision reads a few stored entries and nothing else, so a host that
//! keeps the registry in storage of its own can fetch those entries, ask
//! here, and write back only on success. An entry is handed over as it was
//! found, `None` where storage holds nothing.

use vstd::prelude::*;
use crate::account::AccountId;
use crate::error::Error;
use crate::state::{approval_on_record, owner_on_record, price_on_record, PropertyId};

verus! {

/// The governance identity after a call that asks for it: the recorded one
/// if governance is established, else the caller, who thereby becomes
/// governance.
pub fn governance_after(governance: AccountId, established: bool, caller: AccountId) -> (settled:
    AccountId)
    ensures
        settled == if established {
            governance
        } else {
            caller
        },
{
    if established {
        governance
    } else {
        caller
    }
}

/// The identifier that the next listing gets and the number of listings
/// after it, given the number of listings made so far.
pub fn next_listing(property_count: u32) -> (assigned: (PropertyId, u32))
    requires
        property_count < u32::MAX,
    ensures
        assigned.0 == property_count,
        assigned.1 == property_count + 1,
{
    (property_count, property_count + 1)
}

/// The confirmation that a successful approval answers with.
pub fn approval_confirmation() -> (text: String)
    ensures
        text@ == "Approved"@,
{
    "Approved".to_owned()
}

/// Decides whether `caller` may act as governance: exactly when it is the
/// governance identity.
pub fn check_governance(governance: AccountId, caller: AccountId) -> (verdict: Result<(), Error>)
    ensures
        verdict is Ok <==> caller == governance,
        verdict is Err ==> verdict == Err::<(), Error>(Error::NotTheGovernanceError),
{
    if governance == caller {
        Ok(())
    } else {
        Err(Error::NotTheGovernanceError)
    }
}

/// The owner that the entry `entry` stands for: the zero identity where
/// there is none.
pub fn recorded_owner(entry: Option<AccountId>) -> (owner: AccountId)
    ensures
        owner == owner_on_record(entry),
{
    match entry {
        Some(owner) => owner,
        None => AccountId::default(),
    }
}

/// Decides an offer of `offered` on a property, given its price and approval
/// entries. A missing price counts as 0, a missing approval as none.
///
/// The price is looked at first: an offer below the listed price is too low
/// whether or not the property is approved. An offer that meets the price is
/// refused only if the property is not approved.
pub fn check_offer(listed_price: Option<u32>, approved: Option<bool>, offered: u32) -> (verdict:
    Result<(), Error>)
    ensures
        verdict == Err::<(), Error>(Error::PriceTooLess) <==> offered < price_on_record(
            listed_price,
        ),
        verdict == Err::<(), Error>(Error::PropertyNotApproved) <==> offered >= price_on_record(
            listed_price,
        ) && !approval_on_record(approved),
        verdict is Ok <==> offered >= price_on_record(listed_price) && approval_on_record(
            approved,
        ),
{
    let price = match listed_price {
        Some(price) => price,
        None => 0,
    };
    let approved = match approved {
        Some(approved) => approved,
        None => false,
    };
    if price > offered {
        Err(Error::PriceTooLess)
    } else if !approved {
        Err(Error::PropertyNotApproved)
    } else {
        Ok(())
    }
}

} // verus!
