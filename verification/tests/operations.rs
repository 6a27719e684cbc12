use trace_fund::campaign::storage_reserve;
use trace_fund::campaign::Identity;
use trace_fund::campaign::MIN_DONATION;
use trace_fund::campaign::RECORD_SPACE;
use trace_fund::errors::ErrorCode;
use trace_fund::ops::close_campaign;
use trace_fund::ops::donate;
use trace_fund::ops::initialize_campaign;
use trace_fund::ops::withdraw;
use trace_fund::ops::CloseCampaign;
use trace_fund::ops::Donate;
use trace_fund::ops::InitializeCampaign;
use trace_fund::ops::Withdraw;
use trace_fund::store::CampaignStore;

fn init_ctx(creator: u64, payer_funds: u64) -> InitializeCampaign {
    InitializeCampaign { creator: Identity(creator), payer_funds, now: 1_700_000_000 }
}

fn donate_ctx(admin: u64, name: &str, donor: u64, donor_funds: u64) -> Donate {
    Donate {
        campaign_admin: Identity(admin),
        campaign_name: name.to_string(),
        donor: Identity(donor),
        donor_funds,
        now: 1_700_000_100,
    }
}

fn withdraw_ctx(admin: u64, name: &str, caller: u64, admin_funds: u64) -> Withdraw {
    Withdraw {
        campaign_admin: Identity(admin),
        campaign_name: name.to_string(),
        caller: Identity(caller),
        admin_funds,
        now: 1_700_000_200,
    }
}

fn close_ctx(admin: u64, name: &str, caller: u64, admin_funds: u64) -> CloseCampaign {
    CloseCampaign {
        campaign_admin: Identity(admin),
        campaign_name: name.to_string(),
        caller: Identity(caller),
        admin_funds,
    }
}

fn store_with_campaign(admin: u64, name: &str, target: u64) -> CampaignStore {
    let mut store = CampaignStore::new();
    let r = initialize_campaign(
        &mut store,
        init_ctx(admin, 1_000_000_000),
        name.to_string(),
        "a test campaign".to_string(),
        target,
        "https://example.org/img.png".to_string(),
    );
    assert!(r.is_ok());
    store
}

#[test]
fn reserve_formula_exact_value() {
    assert_eq!(storage_reserve(RECORD_SPACE), (128 + 9000) * 6960);
    assert_eq!(storage_reserve(RECORD_SPACE), 63_530_880);
    assert_eq!(storage_reserve(0), 128 * 6960);
}

#[test]
fn initialize_creates_record_with_zero_collected() {
    let mut store = CampaignStore::new();
    let r = initialize_campaign(
        &mut store,
        init_ctx(1, 100_000_000),
        "relief".to_string(),
        "disaster relief".to_string(),
        10_000_000,
        "https://example.org/relief.png".to_string(),
    );
    let (payer_left, event) = r.unwrap();
    assert_eq!(payer_left, 100_000_000 - 63_530_880);
    assert_eq!(event.admin, Identity(1));
    assert_eq!(event.name, "relief".to_string());
    assert_eq!(event.target_amount, 10_000_000);
    let name = "relief".to_string();
    let c = store.get_campaign(&Identity(1), &name).unwrap();
    assert_eq!(c.amount_collected, 0);
    assert_eq!(c.held_balance, 63_530_880);
    assert_eq!(c.start_time, 1_700_000_000);
    assert_eq!(c.target_amount, 10_000_000);
    assert_eq!(c.description, "disaster relief".to_string());
}

#[test]
fn initialize_rejects_poor_payer() {
    let mut store = CampaignStore::new();
    let r = initialize_campaign(
        &mut store,
        init_ctx(1, 63_530_879),
        "relief".to_string(),
        String::new(),
        10_000_000,
        String::new(),
    );
    assert_eq!(r.err().unwrap(), ErrorCode::InsufficientPayerFunds);
    assert_eq!(store.campaigns.len(), 0);
}

#[test]
fn initialize_rejects_oversized_text() {
    let mut store = CampaignStore::new();
    let r = initialize_campaign(
        &mut store,
        init_ctx(1, 1_000_000_000),
        "relief".to_string(),
        "d".repeat(9000),
        10_000_000,
        String::new(),
    );
    assert_eq!(r.err().unwrap(), ErrorCode::RecordTooLarge);
    assert_eq!(store.campaigns.len(), 0);
}

#[test]
fn initialize_accepts_text_at_the_allocation_boundary() {
    let mut store = CampaignStore::new();
    // 6 name bytes + 8906 description bytes + 44 fixed bytes == 8956 + 44 == 9000.
    let r = initialize_campaign(
        &mut store,
        init_ctx(1, 1_000_000_000),
        "relief".to_string(),
        "d".repeat(8950),
        10_000_000,
        String::new(),
    );
    assert!(r.is_ok());
    let r2 = initialize_campaign(
        &mut store,
        init_ctx(1, 1_000_000_000),
        "relief2".to_string(),
        "d".repeat(8950),
        10_000_000,
        String::new(),
    );
    assert_eq!(r2.err().unwrap(), ErrorCode::RecordTooLarge);
}

#[test]
fn duplicate_initialize_fails() {
    let mut store = store_with_campaign(1, "relief", 10_000_000);
    let r = initialize_campaign(
        &mut store,
        init_ctx(1, 1_000_000_000),
        "relief".to_string(),
        "second attempt".to_string(),
        99,
        String::new(),
    );
    assert_eq!(r.err().unwrap(), ErrorCode::DuplicateCampaign);
    assert_eq!(store.campaigns.len(), 1);
    let name = "relief".to_string();
    let c = store.get_campaign(&Identity(1), &name).unwrap();
    assert_eq!(c.target_amount, 10_000_000);
}

#[test]
fn same_name_different_admins_coexist() {
    let mut store = store_with_campaign(1, "relief", 10_000_000);
    let r = initialize_campaign(
        &mut store,
        init_ctx(2, 1_000_000_000),
        "relief".to_string(),
        String::new(),
        5,
        String::new(),
    );
    assert!(r.is_ok());
    assert_eq!(store.campaigns.len(), 2);
}

#[test]
fn donations_sum_into_amount_collected() {
    let mut store = store_with_campaign(1, "relief", 10_000_000);
    let r1 = donate(&mut store, &donate_ctx(1, "relief", 2, 10_000_000), 1_000_000);
    assert!(r1.is_ok());
    let r2 = donate(&mut store, &donate_ctx(1, "relief", 3, 10_000_000), 2_500_000);
    assert!(r2.is_ok());
    let name = "relief".to_string();
    let c = store.get_campaign(&Identity(1), &name).unwrap();
    assert_eq!(c.amount_collected, 3_500_000);
    assert_eq!(c.held_balance, 63_530_880 + 3_500_000);
}

#[test]
fn donation_below_minimum_rejected_and_state_unchanged() {
    let mut store = store_with_campaign(1, "relief", 10_000_000);
    let r = donate(&mut store, &donate_ctx(1, "relief", 2, 10_000_000), MIN_DONATION - 1);
    assert_eq!(r.err().unwrap(), ErrorCode::DonationTooSmall);
    let name = "relief".to_string();
    let c = store.get_campaign(&Identity(1), &name).unwrap();
    assert_eq!(c.amount_collected, 0);
    assert_eq!(c.held_balance, 63_530_880);
}

#[test]
fn donation_at_minimum_accepted() {
    let mut store = store_with_campaign(1, "relief", 10_000_000);
    let r = donate(&mut store, &donate_ctx(1, "relief", 2, MIN_DONATION), MIN_DONATION);
    let (donor_left, event) = r.unwrap();
    assert_eq!(donor_left, 0);
    assert_eq!(event.amount, MIN_DONATION);
    assert_eq!(event.donor, Identity(2));
    assert_eq!(event.campaign_name, "relief".to_string());
    assert_eq!(event.timestamp, 1_700_000_100);
}

#[test]
fn donation_may_exceed_target() {
    let mut store = store_with_campaign(1, "tiny", 1_000_000);
    let r = donate(&mut store, &donate_ctx(1, "tiny", 2, 100_000_000), 50_000_000);
    assert!(r.is_ok());
    let name = "tiny".to_string();
    let c = store.get_campaign(&Identity(1), &name).unwrap();
    assert_eq!(c.amount_collected, 50_000_000);
}

#[test]
fn donation_from_poor_donor_rejected() {
    let mut store = store_with_campaign(1, "relief", 10_000_000);
    let r = donate(&mut store, &donate_ctx(1, "relief", 2, 999_999), 1_000_000);
    assert_eq!(r.err().unwrap(), ErrorCode::InsufficientPayerFunds);
}

#[test]
fn donation_to_missing_campaign_rejected() {
    let mut store = store_with_campaign(1, "relief", 10_000_000);
    let r = donate(&mut store, &donate_ctx(1, "other", 2, 10_000_000), 1_000_000);
    assert_eq!(r.err().unwrap(), ErrorCode::RecordNotFound);
}

#[test]
fn donation_overflow_rejected() {
    let mut store = store_with_campaign(1, "relief", 10_000_000);
    let first = u64::MAX - 63_530_880;
    let r = donate(&mut store, &donate_ctx(1, "relief", 2, u64::MAX), first);
    assert!(r.is_ok());
    let r2 = donate(&mut store, &donate_ctx(1, "relief", 3, u64::MAX), 1_000_000);
    assert_eq!(r2.err().unwrap(), ErrorCode::ArithmeticOverflow);
    let name = "relief".to_string();
    let c = store.get_campaign(&Identity(1), &name).unwrap();
    assert_eq!(c.amount_collected, first);
    assert_eq!(c.held_balance, u64::MAX);
}

#[test]
fn withdraw_by_non_admin_rejected_even_for_zero() {
    let mut store = store_with_campaign(1, "relief", 10_000_000);
    donate(&mut store, &donate_ctx(1, "relief", 2, 10_000_000), 5_000_000).unwrap();
    let r = withdraw(&mut store, &withdraw_ctx(1, "relief", 2, 0), 0, "mine".to_string());
    assert_eq!(r.err().unwrap(), ErrorCode::Unauthorized);
    let r2 = withdraw(&mut store, &withdraw_ctx(1, "relief", 2, 0), 1_000_000, "mine".to_string());
    assert_eq!(r2.err().unwrap(), ErrorCode::Unauthorized);
    let name = "relief".to_string();
    let c = store.get_campaign(&Identity(1), &name).unwrap();
    assert_eq!(c.held_balance, 63_530_880 + 5_000_000);
}

#[test]
fn withdraw_exactly_available_succeeds_one_more_fails() {
    let mut store = store_with_campaign(1, "relief", 10_000_000);
    donate(&mut store, &donate_ctx(1, "relief", 2, 10_000_000), 5_000_000).unwrap();
    let r = withdraw(
        &mut store,
        &withdraw_ctx(1, "relief", 1, 0),
        5_000_001,
        "too much".to_string(),
    );
    assert_eq!(r.err().unwrap(), ErrorCode::InsufficientFunds);
    let r2 = withdraw(&mut store, &withdraw_ctx(1, "relief", 1, 0), 5_000_000, "all".to_string());
    let (admin_funds, event) = r2.unwrap();
    assert_eq!(admin_funds, 5_000_000);
    assert_eq!(event.reason, "all".to_string());
    assert_eq!(event.amount, 5_000_000);
    let name = "relief".to_string();
    let c = store.get_campaign(&Identity(1), &name).unwrap();
    // The reserve stays; the lifetime counter keeps its value.
    assert_eq!(c.held_balance, 63_530_880);
    assert_eq!(c.amount_collected, 5_000_000);
}

#[test]
fn withdraw_from_missing_campaign_rejected() {
    let mut store = CampaignStore::new();
    let r = withdraw(&mut store, &withdraw_ctx(1, "relief", 1, 0), 1, "x".to_string());
    assert_eq!(r.err().unwrap(), ErrorCode::RecordNotFound);
}

#[test]
fn withdraw_overflowing_admin_funds_rejected() {
    let mut store = store_with_campaign(1, "relief", 10_000_000);
    donate(&mut store, &donate_ctx(1, "relief", 2, 10_000_000), 5_000_000).unwrap();
    let r = withdraw(
        &mut store,
        &withdraw_ctx(1, "relief", 1, u64::MAX),
        1_000_000,
        "overflow".to_string(),
    );
    assert_eq!(r.err().unwrap(), ErrorCode::ArithmeticOverflow);
}

#[test]
fn close_transfers_whole_balance_and_frees_address() {
    let mut store = store_with_campaign(1, "relief", 10_000_000);
    donate(&mut store, &donate_ctx(1, "relief", 2, 10_000_000), 2_000_000).unwrap();
    let r = close_campaign(&mut store, &close_ctx(1, "relief", 1, 7));
    assert_eq!(r.unwrap(), 7 + 63_530_880 + 2_000_000);
    let name = "relief".to_string();
    assert!(store.get_campaign(&Identity(1), &name).is_none());
    // The address is free again and the new record starts from zero.
    let r2 = initialize_campaign(
        &mut store,
        init_ctx(1, 100_000_000),
        "relief".to_string(),
        "second life".to_string(),
        1_000_000,
        String::new(),
    );
    assert!(r2.is_ok());
    let c = store.get_campaign(&Identity(1), &name).unwrap();
    assert_eq!(c.amount_collected, 0);
    assert_eq!(c.held_balance, 63_530_880);
}

#[test]
fn close_by_non_admin_rejected() {
    let mut store = store_with_campaign(1, "relief", 10_000_000);
    let r = close_campaign(&mut store, &close_ctx(1, "relief", 2, 0));
    assert_eq!(r.err().unwrap(), ErrorCode::Unauthorized);
    assert_eq!(store.campaigns.len(), 1);
}

#[test]
fn close_of_missing_campaign_rejected() {
    let mut store = CampaignStore::new();
    let r = close_campaign(&mut store, &close_ctx(1, "relief", 1, 0));
    assert_eq!(r.err().unwrap(), ErrorCode::RecordNotFound);
}

#[test]
fn close_overflowing_admin_funds_rejected() {
    let mut store = store_with_campaign(1, "relief", 10_000_000);
    let r = close_campaign(&mut store, &close_ctx(1, "relief", 1, u64::MAX));
    assert_eq!(r.err().unwrap(), ErrorCode::ArithmeticOverflow);
    assert_eq!(store.campaigns.len(), 1);
}

#[test]
fn withdraw_zero_by_admin_succeeds() {
    let mut store = store_with_campaign(1, "relief", 10_000_000);
    let r = withdraw(&mut store, &withdraw_ctx(1, "relief", 1, 42), 0, "audit".to_string());
    let (admin_funds, _) = r.unwrap();
    assert_eq!(admin_funds, 42);
    let name = "relief".to_string();
    let c = store.get_campaign(&Identity(1), &name).unwrap();
    assert_eq!(c.held_balance, 63_530_880);
}

#[test]
fn operations_leave_other_campaigns_untouched() {
    let mut store = store_with_campaign(1, "relief", 10_000_000);
    let r = initialize_campaign(
        &mut store,
        init_ctx(1, 1_000_000_000),
        "water".to_string(),
        "wells".to_string(),
        7_000_000,
        String::new(),
    );
    assert!(r.is_ok());
    donate(&mut store, &donate_ctx(1, "relief", 2, 10_000_000), 4_000_000).unwrap();
    let water = "water".to_string();
    let c = store.get_campaign(&Identity(1), &water).unwrap();
    assert_eq!(c.amount_collected, 0);
    assert_eq!(c.held_balance, 63_530_880);
    close_campaign(&mut store, &close_ctx(1, "water", 1, 0)).unwrap();
    let relief = "relief".to_string();
    let c2 = store.get_campaign(&Identity(1), &relief).unwrap();
    assert_eq!(c2.amount_collected, 4_000_000);
}

#[test]
fn error_messages_are_nonempty() {
    let errors = [
        ErrorCode::Unauthorized,
        ErrorCode::InsufficientFunds,
        ErrorCode::DonationTooSmall,
        ErrorCode::DuplicateCampaign,
        ErrorCode::RecordNotFound,
        ErrorCode::ArithmeticOverflow,
        ErrorCode::InsufficientPayerFunds,
        ErrorCode::RecordTooLarge,
    ];
    for e in errors.iter() {
        assert!(!e.message().is_empty());
    }
}
