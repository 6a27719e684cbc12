use vstd::prelude::*;

verus! {

use crate::campaign::Campaign;
use crate::campaign::Identity;
use crate::campaign::MIN_DONATION;
use crate::campaign::RECORD_SPACE;
use crate::campaign::FIXED_FIELD_BYTES;
use crate::campaign::content_fits;
use crate::campaign::spec_storage_reserve;
use crate::campaign::storage_reserve;
use crate::errors::ErrorCode;
use crate::events::CampaignCreated;
use crate::events::DonationEvent;
use crate::events::WithdrawalEvent;
use crate::store::CampaignStore;
use crate::store::contains_addr;
use crate::store::get_addr;
use crate::store::index_of_addr;
use crate::store::lemma_get_addr_push;
use crate::store::lemma_get_addr_remove;
use crate::store::lemma_get_addr_update;
use crate::store::lemma_matching_index_unique;

/// The resolved context of a creation request: the signed creator identity,
/// the creator's spendable funds, and the clock reading at execution.
#[derive(Clone, Copy)]
pub struct InitializeCampaign {
    pub creator: Identity,
    pub payer_funds: u64,
    pub now: i64,
}

/// The resolved context of a donation request: the addressed campaign, the
/// signed donor identity, the donor's spendable funds, and the clock.
pub struct Donate {
    pub campaign_admin: Identity,
    pub campaign_name: String,
    pub donor: Identity,
    pub donor_funds: u64,
    pub now: i64,
}

/// The resolved context of a withdrawal request: the addressed campaign,
/// the signed caller identity, the caller's spendable funds, and the clock.
pub struct Withdraw {
    pub campaign_admin: Identity,
    pub campaign_name: String,
    pub caller: Identity,
    pub admin_funds: u64,
    pub now: i64,
}

/// The resolved context of a closure request: the addressed campaign, the
/// signed caller identity, and the caller's spendable funds.
pub struct CloseCampaign {
    pub campaign_admin: Identity,
    pub campaign_name: String,
    pub caller: Identity,
    pub admin_funds: u64,
}

/// Whether the three text fields fit a fresh record's fixed allocation.
fn check_content_fits(name: &String, description: &String, image_url: &String) -> (b: bool)
    ensures
        b == content_fits(name@, description@, image_url@),
{
    let space: usize = RECORD_SPACE as usize;
    let fixed: usize = FIXED_FIELD_BYTES as usize;
    let name_len: usize = name.as_str().as_bytes().len();
    let desc_len: usize = description.as_str().as_bytes().len();
    let url_len: usize = image_url.as_str().as_bytes().len();
    if name_len > space || desc_len > space || url_len > space {
        return false;
    }
    fixed + name_len + desc_len + url_len <= space
}

/// Creates a campaign record at the address `(ctx.creator, name)`.
///
/// Fails with `DuplicateCampaign` if the address already holds a record,
/// with `RecordTooLarge` if the text does not fit the fixed allocation, and
/// with `InsufficientPayerFunds` if the creator cannot pay the storage
/// reserve; a failure leaves the store untouched. On success the new record
/// starts with `amount_collected` zero, a held balance of exactly the
/// reserve (paid by the creator), the creation timestamp, and the text
/// stored verbatim; every other address is untouched, and the returned
/// event carries the admin, name and target for observers.
pub fn initialize_campaign(
    store: &mut CampaignStore,
    ctx: InitializeCampaign,
    name: String,
    description: String,
    target_amount: u64,
    image_url: String,
) -> (r: Result<(u64, CampaignCreated), ErrorCode>)
    requires
        old(store).wf(),
    ensures
        final(store).wf(),
        contains_addr(old(store).campaigns@, ctx.creator, name@) ==> (r matches Err(ErrorCode::DuplicateCampaign)) && *final(store) == *old(store),
        !contains_addr(old(store).campaigns@, ctx.creator, name@) && !content_fits(
            name@,
            description@,
            image_url@,
        ) ==> (r matches Err(ErrorCode::RecordTooLarge)) && *final(store) == *old(store),
        !contains_addr(old(store).campaigns@, ctx.creator, name@) && content_fits(
            name@,
            description@,
            image_url@,
        ) && ctx.payer_funds < spec_storage_reserve(RECORD_SPACE) ==> (r matches Err(ErrorCode::InsufficientPayerFunds)) && *final(store) == *old(store),
        !contains_addr(old(store).campaigns@, ctx.creator, name@) && content_fits(
            name@,
            description@,
            image_url@,
        ) && ctx.payer_funds >= spec_storage_reserve(RECORD_SPACE) ==> ({
            let c = (Campaign {
                admin: ctx.creator,
                name,
                description,
                target_amount,
                amount_collected: 0,
                image_url,
                start_time: ctx.now,
                held_balance: spec_storage_reserve(RECORD_SPACE) as u64,
            });
            &&& final(store).campaigns@ == old(store).campaigns@.push(c)
            &&& get_addr(final(store).campaigns@, ctx.creator, name@) == Some(c)
            &&& forall|a2: Identity, n2: Seq<char>|
                !(a2 == ctx.creator && n2 == name@) ==> #[trigger] get_addr(
                    final(store).campaigns@,
                    a2,
                    n2,
                ) == get_addr(old(store).campaigns@, a2, n2)
            &&& r matches Ok(out) && out.0 == ctx.payer_funds - spec_storage_reserve(RECORD_SPACE)
                && out.1.admin == ctx.creator && out.1.name@ == name@ && out.1.target_amount
                == target_amount
        }),
{
    if store.find_campaign(&ctx.creator, &name).is_some() {
        return Err(ErrorCode::DuplicateCampaign);
    }
    if !check_content_fits(&name, &description, &image_url) {
        return Err(ErrorCode::RecordTooLarge);
    }
    let reserve = storage_reserve(RECORD_SPACE);
    if ctx.payer_funds < reserve {
        return Err(ErrorCode::InsufficientPayerFunds);
    }
    let event_name = name.clone();
    let c = Campaign {
        admin: ctx.creator,
        name,
        description,
        target_amount,
        amount_collected: 0,
        image_url,
        start_time: ctx.now,
        held_balance: reserve,
    };
    let ghost c0 = c;
    store.campaigns.push(c);
    proof {
        lemma_get_addr_push(old(store).campaigns@, c0);
        assert forall|j: int| 0 <= j < store.campaigns@.len() implies (#[trigger] store.campaigns@[j]).wf() by {
            if j < old(store).campaigns@.len() {
                assert(store.campaigns@[j] == old(store).campaigns@[j]);
            }
        }
    }
    let event = CampaignCreated { admin: ctx.creator, name: event_name, target_amount };
    Ok((ctx.payer_funds - reserve, event))
}

/// Donates `amount` from the donor to the addressed campaign.
///
/// Fails with `RecordNotFound` if no record sits at the address, with
/// `DonationTooSmall` below the configured minimum, with
/// `InsufficientPayerFunds` if the donor cannot cover the amount, and with
/// `ArithmeticOverflow` if the collected counter or the held balance would
/// wrap; a failure leaves the store untouched. On success the amount moves
/// from the donor to the record's held balance and the lifetime collected
/// counter grows by exactly the amount; the donation may exceed the target;
/// every other address is untouched. Returns the donor's remaining funds
/// and the event to broadcast.
pub fn donate(store: &mut CampaignStore, ctx: &Donate, amount: u64) -> (r: Result<
    (u64, DonationEvent),
    ErrorCode,
>)
    requires
        old(store).wf(),
    ensures
        final(store).wf(),
        !contains_addr(old(store).campaigns@, ctx.campaign_admin, ctx.campaign_name@) ==> (
        r matches Err(ErrorCode::RecordNotFound)) && *final(store) == *old(store),
        contains_addr(old(store).campaigns@, ctx.campaign_admin, ctx.campaign_name@) && amount
            < MIN_DONATION ==> (r matches Err(ErrorCode::DonationTooSmall)) && *final(store)
            == *old(store),
        contains_addr(old(store).campaigns@, ctx.campaign_admin, ctx.campaign_name@) && amount
            >= MIN_DONATION && ctx.donor_funds < amount ==> (r matches Err(
        ErrorCode::InsufficientPayerFunds)) && *final(store) == *old(store),
        get_addr(old(store).campaigns@, ctx.campaign_admin, ctx.campaign_name@) matches Some(c0) ==> (amount >= MIN_DONATION && ctx.donor_funds >= amount && !c0.donate_allowed(amount))
            ==> (r matches Err(ErrorCode::ArithmeticOverflow)) && *final(store) == *old(store),
        get_addr(old(store).campaigns@, ctx.campaign_admin, ctx.campaign_name@) matches Some(c0)
            ==> (ctx.donor_funds >= amount && c0.donate_allowed(amount)) ==> ({
            &&& final(store).campaigns@ == old(store).campaigns@.update(
                index_of_addr(old(store).campaigns@, ctx.campaign_admin, ctx.campaign_name@),
                c0.donated(amount),
            )
            &&& get_addr(final(store).campaigns@, ctx.campaign_admin, ctx.campaign_name@) == Some(
                c0.donated(amount),
            )
            &&& forall|a2: Identity, n2: Seq<char>|
                !(a2 == ctx.campaign_admin && n2 == ctx.campaign_name@) ==> #[trigger] get_addr(
                    final(store).campaigns@,
                    a2,
                    n2,
                ) == get_addr(old(store).campaigns@, a2, n2)
            &&& r matches Ok(out) && out.0 == ctx.donor_funds - amount && out.1.campaign_admin
                == ctx.campaign_admin && out.1.campaign_name@ == ctx.campaign_name@ && out.1.donor
                == ctx.donor && out.1.amount == amount && out.1.timestamp == ctx.now
        }),
{
    let found = store.find_campaign(&ctx.campaign_admin, &ctx.campaign_name);
    match found {
        None => Err(ErrorCode::RecordNotFound),
        Some(i) => {
            if amount < MIN_DONATION {
                return Err(ErrorCode::DonationTooSmall);
            }
            if ctx.donor_funds < amount {
                return Err(ErrorCode::InsufficientPayerFunds);
            }
            proof {
                assert(contains_addr(store.campaigns@, ctx.campaign_admin, ctx.campaign_name@));
                lemma_matching_index_unique(
                    store.campaigns@,
                    i as int,
                    index_of_addr(store.campaigns@, ctx.campaign_admin, ctx.campaign_name@),
                    ctx.campaign_admin,
                    ctx.campaign_name@,
                );
            }
            let collected = store.campaigns[i].amount_collected;
            let held = store.campaigns[i].held_balance;
            if collected > u64::MAX - amount || held > u64::MAX - amount {
                return Err(ErrorCode::ArithmeticOverflow);
            }
            let c = &mut store.campaigns[i];
            c.amount_collected = collected + amount;
            c.held_balance = held + amount;
            proof {
                let cs0 = old(store).campaigns@;
                let c1 = cs0[i as int].donated(amount);
                assert(store.campaigns@[i as int] == c1);
                lemma_get_addr_update(cs0, i as int, c1);
                assert forall|j: int|
                    0 <= j < store.campaigns@.len() implies (
                #[trigger] store.campaigns@[j]).wf() by {
                    if j != i as int {
                        assert(store.campaigns@[j] == cs0[j]);
                    }
                }
            }
            let event = DonationEvent {
                campaign_admin: ctx.campaign_admin,
                campaign_name: ctx.campaign_name.clone(),
                donor: ctx.donor,
                amount,
                timestamp: ctx.now,
            };
            Ok((ctx.donor_funds - amount, event))
        },
    }
}

/// Withdraws `amount` from the addressed campaign to its admin.
///
/// Fails with `RecordNotFound` if no record sits at the address, with
/// `Unauthorized` if the caller is not the record's admin — for any amount,
/// zero included — with `InsufficientFunds` if the amount exceeds the
/// available (held minus reserve) balance, and with `ArithmeticOverflow`
/// if the admin's funds would wrap; a failure leaves the store untouched.
/// On success exactly the amount leaves the held balance — the reserve
/// always stays — and the lifetime collected counter deliberately keeps
/// its value; every other address is untouched. Returns the admin's new
/// funds and the event to broadcast, carrying the caller's free-text
/// reason.
pub fn withdraw(store: &mut CampaignStore, ctx: &Withdraw, amount: u64, reason: String) -> (r:
    Result<(u64, WithdrawalEvent), ErrorCode>)
    requires
        old(store).wf(),
    ensures
        final(store).wf(),
        !contains_addr(old(store).campaigns@, ctx.campaign_admin, ctx.campaign_name@) ==> (
        r matches Err(ErrorCode::RecordNotFound)) && *final(store) == *old(store),
        get_addr(old(store).campaigns@, ctx.campaign_admin, ctx.campaign_name@) matches Some(c0) ==> (ctx.caller != c0.admin) ==> (r matches Err(ErrorCode::Unauthorized)) && *final(store)
            == *old(store),
        get_addr(old(store).campaigns@, ctx.campaign_admin, ctx.campaign_name@) matches Some(c0) ==> (ctx.caller == c0.admin && amount > c0.available()) ==> (r matches Err(
        ErrorCode::InsufficientFunds)) && *final(store) == *old(store),
        get_addr(old(store).campaigns@, ctx.campaign_admin, ctx.campaign_name@) matches Some(c0) ==> (ctx.caller == c0.admin && amount <= c0.available() && ctx.admin_funds + amount
            > u64::MAX) ==> (r matches Err(ErrorCode::ArithmeticOverflow)) && *final(store)
            == *old(store),
        get_addr(old(store).campaigns@, ctx.campaign_admin, ctx.campaign_name@) matches Some(c0) ==> (ctx.caller == c0.admin && amount <= c0.available() && ctx.admin_funds + amount
            <= u64::MAX) ==> ({
            &&& final(store).campaigns@ == old(store).campaigns@.update(
                index_of_addr(old(store).campaigns@, ctx.campaign_admin, ctx.campaign_name@),
                c0.withdrawn(amount),
            )
            &&& get_addr(final(store).campaigns@, ctx.campaign_admin, ctx.campaign_name@) == Some(
                c0.withdrawn(amount),
            )
            &&& forall|a2: Identity, n2: Seq<char>|
                !(a2 == ctx.campaign_admin && n2 == ctx.campaign_name@) ==> #[trigger] get_addr(
                    final(store).campaigns@,
                    a2,
                    n2,
                ) == get_addr(old(store).campaigns@, a2, n2)
            &&& r matches Ok(out) && out.0 == ctx.admin_funds + amount && out.1.campaign_admin
                == ctx.campaign_admin && out.1.campaign_name@ == ctx.campaign_name@ && out.1.amount
                == amount && out.1.reason == reason && out.1.timestamp == ctx.now
        }),
{
    let found = store.find_campaign(&ctx.campaign_admin, &ctx.campaign_name);
    match found {
        None => Err(ErrorCode::RecordNotFound),
        Some(i) => {
            proof {
                assert(contains_addr(store.campaigns@, ctx.campaign_admin, ctx.campaign_name@));
                lemma_matching_index_unique(
                    store.campaigns@,
                    i as int,
                    index_of_addr(store.campaigns@, ctx.campaign_admin, ctx.campaign_name@),
                    ctx.campaign_admin,
                    ctx.campaign_name@,
                );
            }
            if store.campaigns[i].admin != ctx.caller {
                return Err(ErrorCode::Unauthorized);
            }
            let held = store.campaigns[i].held_balance;
            let rent_balance = storage_reserve(RECORD_SPACE);
            let available_funds = held - rent_balance;
            if amount > available_funds {
                return Err(ErrorCode::InsufficientFunds);
            }
            if ctx.admin_funds > u64::MAX - amount {
                return Err(ErrorCode::ArithmeticOverflow);
            }
            let c = &mut store.campaigns[i];
            c.held_balance = held - amount;
            proof {
                let cs0 = old(store).campaigns@;
                let c1 = cs0[i as int].withdrawn(amount);
                assert(store.campaigns@[i as int] == c1);
                lemma_get_addr_update(cs0, i as int, c1);
                assert forall|j: int|
                    0 <= j < store.campaigns@.len() implies (
                #[trigger] store.campaigns@[j]).wf() by {
                    if j != i as int {
                        assert(store.campaigns@[j] == cs0[j]);
                    }
                }
            }
            let event = WithdrawalEvent {
                campaign_admin: ctx.campaign_admin,
                campaign_name: ctx.campaign_name.clone(),
                amount,
                reason,
                timestamp: ctx.now,
            };
            Ok((ctx.admin_funds + amount, event))
        },
    }
}

/// Closes the addressed campaign: destroys the record and transfers its
/// entire remaining held balance — reserve plus any unwithdrawn available
/// funds — to the admin.
///
/// Fails with `RecordNotFound` if no record sits at the address, with
/// `Unauthorized` if the caller is not the record's admin, and with
/// `ArithmeticOverflow` if the admin's funds would wrap; a failure leaves
/// the store untouched. On success the address becomes free for reuse and
/// every other address is untouched. Returns the admin's new funds.
pub fn close_campaign(store: &mut CampaignStore, ctx: &CloseCampaign) -> (r: Result<
    u64,
    ErrorCode,
>)
    requires
        old(store).wf(),
    ensures
        final(store).wf(),
        !contains_addr(old(store).campaigns@, ctx.campaign_admin, ctx.campaign_name@) ==> (
        r matches Err(ErrorCode::RecordNotFound)) && *final(store) == *old(store),
        get_addr(old(store).campaigns@, ctx.campaign_admin, ctx.campaign_name@) matches Some(c0) ==> (ctx.caller != c0.admin) ==> (r matches Err(ErrorCode::Unauthorized)) && *final(store)
            == *old(store),
        get_addr(old(store).campaigns@, ctx.campaign_admin, ctx.campaign_name@) matches Some(c0) ==> (ctx.caller == c0.admin && ctx.admin_funds + c0.held_balance > u64::MAX) ==> (
        r matches Err(ErrorCode::ArithmeticOverflow)) && *final(store) == *old(store),
        get_addr(old(store).campaigns@, ctx.campaign_admin, ctx.campaign_name@) matches Some(c0) ==> (ctx.caller == c0.admin && ctx.admin_funds + c0.held_balance <= u64::MAX) ==> ({
            &&& final(store).campaigns@ == old(store).campaigns@.remove(
                index_of_addr(old(store).campaigns@, ctx.campaign_admin, ctx.campaign_name@),
            )
            &&& !contains_addr(final(store).campaigns@, ctx.campaign_admin, ctx.campaign_name@)
            &&& forall|a2: Identity, n2: Seq<char>|
                !(a2 == ctx.campaign_admin && n2 == ctx.campaign_name@) ==> #[trigger] get_addr(
                    final(store).campaigns@,
                    a2,
                    n2,
                ) == get_addr(old(store).campaigns@, a2, n2)
            &&& r matches Ok(out) && out == ctx.admin_funds + c0.held_balance
        }),
{
    let found = store.find_campaign(&ctx.campaign_admin, &ctx.campaign_name);
    match found {
        None => Err(ErrorCode::RecordNotFound),
        Some(i) => {
            proof {
                assert(contains_addr(store.campaigns@, ctx.campaign_admin, ctx.campaign_name@));
                lemma_matching_index_unique(
                    store.campaigns@,
                    i as int,
                    index_of_addr(store.campaigns@, ctx.campaign_admin, ctx.campaign_name@),
                    ctx.campaign_admin,
                    ctx.campaign_name@,
                );
            }
            if store.campaigns[i].admin != ctx.caller {
                return Err(ErrorCode::Unauthorized);
            }
            let held = store.campaigns[i].held_balance;
            if ctx.admin_funds > u64::MAX - held {
                return Err(ErrorCode::ArithmeticOverflow);
            }
            let removed = store.campaigns.remove(i);
            proof {
                let cs0 = old(store).campaigns@;
                lemma_get_addr_remove(cs0, i as int);
                cs0.remove_ensures(i as int);
                assert forall|j: int|
                    0 <= j < store.campaigns@.len() implies (
                #[trigger] store.campaigns@[j]).wf() by {
                    if j < i as int {
                        assert(store.campaigns@[j] == cs0[j]);
                    } else {
                        assert(store.campaigns@[j] == cs0[j + 1]);
                    }
                }
            }
            Ok(ctx.admin_funds + held)
        },
    }
}

} // verus!
