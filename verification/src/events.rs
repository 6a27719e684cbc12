use vstd::prelude::*;

verus! {

use crate::campaign::Identity;

/// Broadcast after a campaign is created, for external observers.
pub struct CampaignCreated {
    pub admin: Identity,
    pub name: String,
    pub target_amount: u64,
}

/// Broadcast after a donation is applied.
pub struct DonationEvent {
    pub campaign_admin: Identity,
    pub campaign_name: String,
    pub donor: Identity,
    pub amount: u64,
    pub timestamp: i64,
}

/// Broadcast after a withdrawal is applied, with the caller-supplied
/// free-text justification.
pub struct WithdrawalEvent {
    pub campaign_admin: Identity,
    pub campaign_name: String,
    pub amount: u64,
    pub reason: String,
    pub timestamp: i64,
}

} // verus!
