use ajt_ledger::arcade::burn_tokens;
use ajt_ledger::arcade::get_stats;
use ajt_ledger::arcade::initialize;
use ajt_ledger::arcade::mint_tokens;
use ajt_ledger::arcade::purchase_service;
use ajt_ledger::arcade::set_pause;
use ajt_ledger::arcade::update_price;
use ajt_ledger::arcade::Config;
use ajt_ledger::arcade::ErrorCode;
use ajt_ledger::arcade::ServiceType;
use ajt_ledger::identity::AccountId;

fn admin() -> AccountId {
    AccountId::new([7u8; 32])
}

fn unit_descriptor() -> AccountId {
    AccountId::new([9u8; 32])
}

fn holder() -> AccountId {
    AccountId::new([3u8; 32])
}

#[test]
fn initialize_sets_price_and_zeroes_counters() {
    let c = initialize(admin(), unit_descriptor(), 1000);
    assert_eq!(c.authority, admin());
    assert_eq!(c.mint, unit_descriptor());
    assert_eq!(c.target_price_usd, 1000);
    assert_eq!(c.total_minted, 0);
    assert_eq!(c.total_burned, 0);
    assert!(!c.is_paused);
}

#[test]
fn mint_totals_are_the_sum_of_amounts() {
    let mut c = initialize(admin(), unit_descriptor(), 1000);
    assert_eq!(mint_tokens(&mut c, 100), Ok(()));
    assert_eq!(mint_tokens(&mut c, 250), Ok(()));
    assert_eq!(mint_tokens(&mut c, 1), Ok(()));
    assert_eq!(c.total_minted, 351);
    assert_eq!(c.total_burned, 0);
}

#[test]
fn burn_totals_are_the_sum_of_amounts_and_never_decrease() {
    let mut c = initialize(admin(), unit_descriptor(), 1000);
    assert_eq!(mint_tokens(&mut c, 1000), Ok(()));
    let mut previous: u64 = c.total_burned;
    for amount in [5u64, 40, 300] {
        assert_eq!(burn_tokens(&mut c, amount), Ok(()));
        assert!(c.total_burned >= previous);
        previous = c.total_burned;
    }
    assert_eq!(c.total_burned, 345);
}

#[test]
fn paused_rejects_mint_burn_and_purchase_without_counter_change() {
    let mut c = initialize(admin(), unit_descriptor(), 1000);
    assert_eq!(mint_tokens(&mut c, 500), Ok(()));
    set_pause(&mut c, true);
    let before = c;

    assert_eq!(mint_tokens(&mut c, 10), Err(ErrorCode::ProgramPaused));
    assert_eq!(c, before);
    assert_eq!(burn_tokens(&mut c, 10), Err(ErrorCode::ProgramPaused));
    assert_eq!(c, before);
    assert_eq!(
        purchase_service(&mut c, holder(), ServiceType::Chat, 10, 44),
        Err(ErrorCode::ProgramPaused)
    );
    assert_eq!(c, before);
}

#[test]
fn zero_amount_is_invalid_for_mint_burn_and_purchase() {
    let mut c = initialize(admin(), unit_descriptor(), 1000);
    let before = c;
    assert_eq!(mint_tokens(&mut c, 0), Err(ErrorCode::InvalidAmount));
    assert_eq!(burn_tokens(&mut c, 0), Err(ErrorCode::InvalidAmount));
    assert_eq!(
        purchase_service(&mut c, holder(), ServiceType::ImageGen, 0, 44),
        Err(ErrorCode::InvalidAmount)
    );
    assert_eq!(c, before);
}

#[test]
fn counter_overflow_is_reported_and_mutates_nothing() {
    let mut c = initialize(admin(), unit_descriptor(), 1000);
    assert_eq!(mint_tokens(&mut c, u64::MAX), Ok(()));
    let before = c;
    assert_eq!(mint_tokens(&mut c, 1), Err(ErrorCode::Overflow));
    assert_eq!(c, before);

    assert_eq!(burn_tokens(&mut c, u64::MAX), Ok(()));
    let before = c;
    assert_eq!(burn_tokens(&mut c, 1), Err(ErrorCode::Overflow));
    assert_eq!(
        purchase_service(&mut c, holder(), ServiceType::VoiceSynthesis, 1, 44),
        Err(ErrorCode::Overflow)
    );
    assert_eq!(c, before);
}

#[test]
fn purchase_burns_and_returns_the_usage_event() {
    let mut c = initialize(admin(), unit_descriptor(), 1000);
    assert_eq!(mint_tokens(&mut c, 500), Ok(()));
    let event = purchase_service(&mut c, holder(), ServiceType::CodeExecution, 120, 1_700_000_000)
        .expect("purchase admitted");
    assert_eq!(event.user, holder());
    assert_eq!(event.service_type, ServiceType::CodeExecution);
    assert_eq!(event.amount, 120);
    assert_eq!(event.timestamp, 1_700_000_000);
    assert_eq!(c.total_burned, 120);
    assert_eq!(c.total_minted, 500);
}

#[test]
fn stats_concrete_scenario() {
    let mut c = initialize(admin(), unit_descriptor(), 1000);
    assert_eq!(mint_tokens(&mut c, 500), Ok(()));
    assert_eq!(burn_tokens(&mut c, 200), Ok(()));
    let stats = get_stats(&c);
    assert_eq!(stats.total_minted, 500);
    assert_eq!(stats.total_burned, 200);
    assert_eq!(stats.circulating_supply, 300);
    assert_eq!(stats.target_price_usd, 1000);
    assert!(!stats.is_paused);
}

#[test]
fn stats_circulating_supply_saturates_at_zero() {
    // An inconsistent record, injected directly: more burned than minted.
    let c = Config {
        authority: admin(),
        mint: unit_descriptor(),
        target_price_usd: 1000,
        total_minted: 10,
        total_burned: 25,
        is_paused: false,
    };
    let stats = get_stats(&c);
    assert_eq!(stats.circulating_supply, 0);
    assert_eq!(stats.total_minted, 10);
    assert_eq!(stats.total_burned, 25);
}

#[test]
fn update_price_overwrites_only_the_price() {
    let mut c = initialize(admin(), unit_descriptor(), 1000);
    assert_eq!(mint_tokens(&mut c, 42), Ok(()));
    update_price(&mut c, 2500);
    assert_eq!(c.target_price_usd, 2500);
    assert_eq!(c.total_minted, 42);
    assert!(!c.is_paused);
}

#[test]
fn set_pause_toggles_the_gate() {
    let mut c = initialize(admin(), unit_descriptor(), 1000);
    set_pause(&mut c, true);
    assert!(c.is_paused);
    set_pause(&mut c, false);
    assert!(!c.is_paused);
    assert_eq!(mint_tokens(&mut c, 10), Ok(()));
}
