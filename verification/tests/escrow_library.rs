//! Tests of the escrow library used directly: edge cases, every error, exact
//! values of the billing arithmetic, and each stated law on concrete values.
use escrow::billing::{compute_bill, saturating_add_i128, saturating_mul_requests, validate_tiers};
use escrow::env::{advance_ledger, Env};
use escrow::error::EscrowError;
use escrow::escrow::Escrow;
use escrow::events::{ConfigName, ConfigValue, Event, Topic};
use escrow::helpers::{configure_rate_limit, svc_name};
use escrow::rate_limit::{next_window, remaining_capacity};
use escrow::types::{Address, PriceTier, Symbol, MAX_BATCH_READ};

fn setup() -> (Escrow, Env, Address) {
    let mut env = Env::new();
    env.mock_all_auths();
    let admin = env.generate_address();
    let mut escrow = Escrow::new();
    escrow.init(&mut env, admin).unwrap();
    (escrow, env, admin)
}

fn sym(name: &str) -> Symbol {
    Symbol::new(name)
}

fn tier(min_requests: u32, price_per_request: i128) -> PriceTier {
    PriceTier { min_requests, price_per_request }
}

#[test]
fn svc_name_writes_every_digit() {
    assert_eq!(svc_name(0), "svc_0");
    assert_eq!(svc_name(7), "svc_7");
    assert_eq!(svc_name(42), "svc_42");
    assert_eq!(svc_name(999), "svc_999");
    assert_eq!(svc_name(1000), "svc_1000");
    assert_eq!(svc_name(1234), "svc_1234");
    assert_eq!(svc_name(1005), "svc_1005");
    assert_eq!(svc_name(9999), "svc_9999");
    assert_eq!(svc_name(u32::MAX), "svc_4294967295");
    for i in [0u32, 9, 10, 99, 100, 12345, 1_000_000, u32::MAX] {
        assert_eq!(svc_name(i), format!("svc_{}", i));
    }
}

#[test]
fn topic_names_match_the_published_symbols() {
    assert_eq!(Topic::Usage.name(), "usage");
    assert_eq!(Topic::UsageDec.name(), "usage_dec");
    assert_eq!(Topic::SettlAll.name(), "settl_all");
    assert_eq!(Topic::CredDeb.name(), "cred_deb");
    assert_eq!(Topic::Resolve.name(), "resolve");
    assert_eq!(ConfigName::ReqReg.name(), "req_reg");
    assert_eq!(ConfigName::Allowlist.name(), "allowlist");
    for t in [
        Topic::Usage,
        Topic::UsageHi,
        Topic::UsageDec,
        Topic::Settled,
        Topic::SettlAll,
        Topic::PriceSet,
        Topic::PriceRmv,
        Topic::TiersSet,
        Topic::TiersRm,
        Topic::Paused,
        Topic::SvcReg,
        Topic::SvcAdd,
        Topic::SvcRm,
        Topic::SvcDis,
        Topic::CfgSet,
        Topic::BndSet,
        Topic::AgtAlw,
        Topic::AgtBlk,
        Topic::RateRst,
        Topic::AlertThr,
        Topic::ReqReg,
        Topic::AdminCan,
        Topic::AdminChg,
        Topic::AdminPrp,
        Topic::MetaSet,
        Topic::MetaClr,
        Topic::OwnerChg,
        Topic::CredDeb,
        Topic::Dispute,
        Topic::Open,
        Topic::Resolve,
    ] {
        let n = t.name();
        assert!(n.len() <= 9, "{n} is too long for a short symbol");
        assert!(n.chars().all(|c| c.is_ascii_lowercase() || c == '_'));
    }
}

#[test]
fn error_codes_are_stable() {
    assert_eq!(EscrowError::AlreadyInitialized.code(), Some(1));
    assert_eq!(EscrowError::ContractPaused.code(), Some(4));
    assert_eq!(EscrowError::DisputeNotOpen.code(), Some(18));
    assert_eq!(EscrowError::InvalidPriceTiers.code(), Some(19));
    assert_eq!(EscrowError::InvalidRequestBounds.code(), Some(23));
    assert_eq!(EscrowError::PriceOutOfBounds.code(), Some(25));
    assert_eq!(EscrowError::InvertedPriceBand.code(), Some(24));
    assert_eq!(EscrowError::InsufficientCredit.code(), Some(28));
    assert_eq!(EscrowError::MissingAuth(Address::new(3)).code(), None);
}

#[test]
fn saturating_arithmetic_exact_values() {
    assert_eq!(saturating_mul_requests(13, 7), 91);
    assert_eq!(saturating_mul_requests(0, i128::MAX), 0);
    assert_eq!(saturating_mul_requests(2, i128::MAX), i128::MAX);
    assert_eq!(saturating_mul_requests(3, i128::MIN), i128::MIN);
    assert_eq!(saturating_add_i128(i128::MAX, 1), i128::MAX);
    assert_eq!(saturating_add_i128(40, 21), 61);
}

#[test]
fn tier_schedule_prices_by_the_highest_reached_threshold() {
    let tiers = vec![tier(10, 8), tier(100, 5)];
    // Below the first threshold the flat price applies.
    assert_eq!(compute_bill(9, 10, Some(&tiers)), 90);
    // From 10 requests on, the first tier's price.
    assert_eq!(compute_bill(10, 10, Some(&tiers)), 80);
    assert_eq!(compute_bill(99, 10, Some(&tiers)), 792);
    // From 100 on, the second tier's price.
    assert_eq!(compute_bill(100, 10, Some(&tiers)), 500);
    // Without a schedule, the flat price.
    assert_eq!(compute_bill(100, 10, None), 1000);
}

#[test]
fn tier_validation_refusals() {
    assert_eq!(validate_tiers(&vec![tier(1, 5), tier(2, -1)]), Err(EscrowError::RequestsMustBePositive));
    assert_eq!(validate_tiers(&vec![tier(5, 1), tier(5, 2)]), Err(EscrowError::InvalidPriceTiers));
    assert_eq!(validate_tiers(&vec![tier(9, 1), tier(3, 2)]), Err(EscrowError::InvalidPriceTiers));
    assert_eq!(validate_tiers(&vec![]), Ok(()));
    assert_eq!(validate_tiers(&vec![tier(0, 0), tier(1, 3)]), Ok(()));
}

#[test]
fn set_price_tiers_changes_billing_and_removal_restores_flat_price() {
    let (mut escrow, mut env, _admin) = setup();
    let agent = env.generate_address();
    let svc = sym("infer");
    escrow.set_service_price(&mut env, svc.clone(), 10).unwrap();
    escrow.set_price_tiers(&mut env, svc.clone(), vec![tier(5, 4)]).unwrap();
    assert_eq!(env.events().last(), Some(&Event::TiersSet { service_id: svc.clone() }));
    escrow.record_usage(&mut env, agent, svc.clone(), 6).unwrap();
    assert_eq!(escrow.compute_billing(agent, &svc), 24);
    assert_eq!(escrow.get_price_tiers(&svc), Some(vec![tier(5, 4)]));
    escrow.remove_price_tiers(&mut env, svc.clone()).unwrap();
    assert_eq!(escrow.get_price_tiers(&svc), None);
    assert_eq!(escrow.compute_billing(agent, &svc), 60);
    assert_eq!(
        escrow.set_price_tiers(&mut env, svc.clone(), vec![tier(5, 4), tier(1, 2)]),
        Err(EscrowError::InvalidPriceTiers)
    );
}

#[test]
fn price_bounds_gate_set_service_price() {
    let (mut escrow, mut env, _admin) = setup();
    let svc = sym("infer");
    assert_eq!(escrow.get_min_service_price(), 0);
    assert_eq!(escrow.get_max_service_price(), i128::MAX);
    assert_eq!(escrow.set_price_bounds(&mut env, 10, 5), Err(EscrowError::InvertedPriceBand));
    escrow.set_price_bounds(&mut env, 5, 100).unwrap();
    assert_eq!(env.events().last(), Some(&Event::PriceBoundsSet { min: 5, max: 100 }));
    assert_eq!(escrow.set_service_price(&mut env, svc.clone(), 0), Err(EscrowError::PriceOutOfBounds));
    assert_eq!(escrow.set_service_price(&mut env, svc.clone(), 101), Err(EscrowError::PriceOutOfBounds));
    escrow.set_service_price(&mut env, svc.clone(), 5).unwrap();
    escrow.set_service_price(&mut env, svc.clone(), 100).unwrap();
    assert_eq!(escrow.get_service_price(&svc), 100);
    // A negative price is refused before the band is looked at.
    assert_eq!(escrow.set_service_price(&mut env, svc, -1), Err(EscrowError::RequestsMustBePositive));
}

#[test]
fn settle_draws_credit_down_to_zero_at_most() {
    let (mut escrow, mut env, admin) = setup();
    let agent = env.generate_address();
    let svc = sym("infer");
    escrow.credit_agent(&mut env, agent, 50).unwrap();
    escrow.set_service_price(&mut env, svc.clone(), 10).unwrap();
    escrow.record_usage(&mut env, agent, svc.clone(), 4).unwrap();
    // The price rises after the usage was accepted.
    escrow.set_service_price(&mut env, svc.clone(), 20).unwrap();
    env.clear_events();
    assert_eq!(escrow.settle(&mut env, admin, agent, svc.clone()), Ok(80));
    assert_eq!(
        env.events().clone(),
        vec![
            Event::CreditDebited { agent, debit: 50, balance: 0 },
            Event::Settled { agent, service_id: svc, requests: 4, billed: 80 },
        ]
    );
    assert_eq!(escrow.get_agent_credit(agent), 0);
}

#[test]
fn credit_agent_refusals_and_saturation() {
    let (mut escrow, mut env, _admin) = setup();
    let agent = env.generate_address();
    assert_eq!(escrow.credit_agent(&mut env, agent, 0), Err(EscrowError::RequestsMustBePositive));
    assert_eq!(escrow.credit_agent(&mut env, agent, -5), Err(EscrowError::RequestsMustBePositive));
    escrow.credit_agent(&mut env, agent, i128::MAX).unwrap();
    escrow.credit_agent(&mut env, agent, 7).unwrap();
    assert_eq!(escrow.get_agent_credit(agent), i128::MAX);
}

#[test]
fn law_prepaid_record_is_covered_on_values() {
    let (mut escrow, mut env, _admin) = setup();
    let agent = env.generate_address();
    let svc = sym("infer");
    escrow.set_service_price(&mut env, svc.clone(), 10).unwrap();
    escrow.credit_agent(&mut env, agent, 30).unwrap();
    escrow.record_usage(&mut env, agent, svc.clone(), 3).unwrap();
    assert!(escrow.compute_billing(agent, &svc) <= escrow.get_agent_credit(agent));
    assert_eq!(
        escrow.record_usage(&mut env, agent, svc.clone(), 1).map(|r| r.requests),
        Err(EscrowError::InsufficientCredit)
    );
    assert_eq!(escrow.get_usage(agent, &svc), 3);
}

#[test]
fn settle_all_by_owner_skips_services_it_does_not_own() {
    let (mut escrow, mut env, _admin) = setup();
    let owner = env.generate_address();
    let other = env.generate_address();
    let agent = env.generate_address();
    let mine = sym("mine");
    let theirs = sym("theirs");
    escrow.set_service_metadata(&mut env, mine.clone(), "a".to_string(), owner).unwrap();
    escrow.set_service_metadata(&mut env, theirs.clone(), "b".to_string(), other).unwrap();
    escrow.set_service_price(&mut env, mine.clone(), 3).unwrap();
    escrow.set_service_price(&mut env, theirs.clone(), 5).unwrap();
    escrow.record_usage(&mut env, agent, theirs.clone(), 2).unwrap();
    escrow.record_usage(&mut env, agent, mine.clone(), 4).unwrap();
    env.clear_events();
    let settled = escrow.settle_all(&mut env, owner, agent).unwrap();
    assert_eq!(settled, vec![(mine.clone(), 12)]);
    assert_eq!(escrow.get_usage(agent, &mine), 0);
    assert_eq!(escrow.get_usage(agent, &theirs), 2);
    assert_eq!(env.events().last(), Some(&Event::SettledAll { agent, total: 12 }));
}

#[test]
fn settle_all_refusals() {
    let mut env = Env::new();
    env.mock_all_auths();
    let caller = env.generate_address();
    let agent = env.generate_address();
    let mut escrow = Escrow::new();
    assert_eq!(escrow.settle_all(&mut env, caller, agent), Err(EscrowError::NotInitialized));
    escrow.init(&mut env, caller).unwrap();
    escrow.pause(&mut env).unwrap();
    assert_eq!(escrow.settle_all(&mut env, caller, agent), Err(EscrowError::ContractPaused));
}

#[test]
fn resolve_dispute_refunds_at_most_the_usage() {
    let (mut escrow, mut env, _admin) = setup();
    let agent = env.generate_address();
    let svc = sym("svc_a");
    escrow.record_usage(&mut env, agent, svc.clone(), 10).unwrap();
    assert_eq!(escrow.resolve_dispute(&mut env, agent, svc.clone(), 3), Err(EscrowError::DisputeNotOpen));
    escrow.open_dispute(&mut env, agent, svc.clone()).unwrap();
    assert_eq!(env.events().last(), Some(&Event::DisputeOpened { agent, service_id: svc.clone() }));
    assert_eq!(escrow.resolve_dispute(&mut env, agent, svc.clone(), 3), Ok(3));
    assert_eq!(escrow.get_usage(agent, &svc), 7);
    assert!(!escrow.has_open_dispute(agent, &svc));
    escrow.open_dispute(&mut env, agent, svc.clone()).unwrap();
    assert_eq!(escrow.resolve_dispute(&mut env, agent, svc.clone(), 100), Ok(7));
    assert_eq!(
        env.events().last(),
        Some(&Event::DisputeResolved { agent, service_id: svc.clone(), refunded: 7 })
    );
    assert_eq!(escrow.get_usage(agent, &svc), 0);
}

#[test]
fn open_dispute_twice_keeps_one_entry() {
    let (mut escrow, mut env, _admin) = setup();
    let agent = env.generate_address();
    let svc = sym("svc_a");
    escrow.open_dispute(&mut env, agent, svc.clone()).unwrap();
    escrow.open_dispute(&mut env, agent, svc.clone()).unwrap();
    assert_eq!(escrow.list_open_disputes(agent), vec![svc.clone()]);
    escrow.resolve_dispute(&mut env, agent, svc.clone(), 0).unwrap();
    assert!(escrow.list_open_disputes(agent).is_empty());
}

#[test]
fn open_dispute_needs_the_agent_and_an_unpaused_contract() {
    let (mut escrow, mut env, _admin) = setup();
    let agent = env.generate_address();
    env.set_auths(vec![]);
    assert_eq!(
        escrow.open_dispute(&mut env, agent, sym("x")),
        Err(EscrowError::MissingAuth(agent))
    );
    env.mock_all_auths();
    escrow.pause(&mut env).unwrap();
    assert_eq!(escrow.open_dispute(&mut env, agent, sym("x")), Err(EscrowError::ContractPaused));
}

#[test]
fn cancel_admin_transfer_needs_a_pending_admin() {
    let (mut escrow, mut env, admin) = setup();
    assert_eq!(escrow.cancel_admin_transfer(&mut env), Err(EscrowError::NoPendingAdmin));
    let next = env.generate_address();
    escrow.propose_admin_transfer(&mut env, next).unwrap();
    assert_eq!(env.events().last(), Some(&Event::AdminProposed { admin, proposed: next }));
    escrow.cancel_admin_transfer(&mut env).unwrap();
    assert_eq!(
        env.events().last(),
        Some(&Event::AdminTransferCancelled { admin, pending: next })
    );
    assert_eq!(escrow.get_pending_admin(), None);
}

#[test]
fn accept_admin_transfer_publishes_the_change() {
    let (mut escrow, mut env, admin) = setup();
    let next = env.generate_address();
    escrow.propose_admin_transfer(&mut env, next).unwrap();
    escrow.accept_admin_transfer(&mut env, next).unwrap();
    assert_eq!(env.events().last(), Some(&Event::AdminChanged { old: admin, new: next }));
    // The old admin lost its rights.
    env.set_auths(vec![admin]);
    assert_eq!(escrow.pause(&mut env), Err(EscrowError::MissingAuth(next)));
}

#[test]
fn migration_runs_once_on_a_legacy_contract() {
    let mut env = Env::new();
    env.mock_all_auths();
    let mut escrow = Escrow::new();
    assert_eq!(escrow.get_schema_version(), 1);
    assert_eq!(escrow.migrate_v1_to_v2(&mut env), Err(EscrowError::NotInitialized));
    let admin = env.generate_address();
    escrow.init(&mut env, admin).unwrap();
    assert_eq!(escrow.migrate_v1_to_v2(&mut env), Err(EscrowError::MigrationVersionMismatch));
}

#[test]
fn init_needs_the_admin_signature() {
    let mut env = Env::new();
    let admin = env.generate_address();
    let mut escrow = Escrow::new();
    assert_eq!(escrow.init(&mut env, admin), Err(EscrowError::MissingAuth(admin)));
    assert_eq!(escrow.get_admin(), None);
    env.set_auths(vec![admin]);
    escrow.init(&mut env, admin).unwrap();
    assert_eq!(escrow.init(&mut env, admin), Err(EscrowError::AlreadyInitialized));
}

#[test]
fn config_setters_publish_cfg_set() {
    let (mut escrow, mut env, _admin) = setup();
    escrow.set_max_requests_per_call(&mut env, 40).unwrap();
    assert_eq!(
        env.events().last(),
        Some(&Event::ConfigSet { name: ConfigName::MaxCall, value: ConfigValue::U32(40) })
    );
    escrow.set_min_requests_per_call(&mut env, 40).unwrap();
    assert_eq!(
        env.events().last(),
        Some(&Event::ConfigSet { name: ConfigName::MinCall, value: ConfigValue::U32(40) })
    );
    escrow.set_require_service_registration(&mut env, true).unwrap();
    assert_eq!(
        env.events().last(),
        Some(&Event::ConfigSet { name: ConfigName::ReqReg, value: ConfigValue::Bool(true) })
    );
    // Setting the same value again still publishes.
    let before = env.events().len();
    escrow.set_require_service_registration(&mut env, true).unwrap();
    assert_eq!(env.events().len(), before + 1);
}

#[test]
fn configure_rate_limit_sets_both_values() {
    let (mut escrow, mut env, _admin) = setup();
    env.clear_events();
    configure_rate_limit(&mut escrow, &mut env, 5, 60);
    assert_eq!(escrow.get_max_requests_per_window(), 5);
    assert_eq!(escrow.get_rate_window_seconds(), 60);
    assert_eq!(
        env.events().clone(),
        vec![
            Event::ConfigSet { name: ConfigName::MaxWin, value: ConfigValue::U32(5) },
            Event::ConfigSet { name: ConfigName::WinSec, value: ConfigValue::U64(60) },
        ]
    );
}

#[test]
fn advance_ledger_moves_the_clock() {
    let mut env = Env::new();
    env.set_timestamp(100);
    advance_ledger(&mut env, 25);
    assert_eq!(env.timestamp(), 125);
}

#[test]
fn rate_window_arithmetic_exact_values() {
    // A new window opens when none is stored.
    assert_eq!(next_window(None, 10, 50, 3), (50, 3));
    // Inside the window the count grows.
    assert_eq!(next_window(Some((50, 3)), 10, 59, 4), (50, 7));
    // At the boundary a new window opens.
    assert_eq!(next_window(Some((50, 3)), 10, 60, 4), (60, 4));
    // The window end saturates at u64::MAX instead of wrapping: the last
    // second before it still counts into the window, u64::MAX itself opens a
    // new one.
    assert_eq!(next_window(Some((u64::MAX - 1, 1)), 10, u64::MAX - 1, 1), (u64::MAX - 1, 2));
    assert_eq!(next_window(Some((u64::MAX - 1, 1)), 10, u64::MAX, 1), (u64::MAX, 1));
    // The count saturates at u32::MAX.
    assert_eq!(next_window(Some((50, u32::MAX)), 10, 55, 4), (50, u32::MAX));
    assert_eq!(remaining_capacity(10, 10, Some((50, 7)), 55), 3);
    assert_eq!(remaining_capacity(10, 10, Some((50, 12)), 55), 0);
    assert_eq!(remaining_capacity(10, 10, Some((50, 7)), 60), 10);
    assert_eq!(remaining_capacity(10, 0, Some((50, 7)), 55), 10);
}

#[test]
fn law_window_start_never_moves_back_on_values() {
    let (mut escrow, mut env, _admin) = setup();
    configure_rate_limit(&mut escrow, &mut env, 100, 10);
    let agent = env.generate_address();
    let svc = sym("infer");
    env.set_timestamp(1_000);
    escrow.record_usage(&mut env, agent, svc.clone(), 1).unwrap();
    let (start, _) = escrow.get_rate_window(agent);
    // The clock going back does not move the window's start back.
    env.set_timestamp(995);
    escrow.record_usage(&mut env, agent, svc.clone(), 1).unwrap();
    assert_eq!(escrow.get_rate_window(agent), (start, 2));
    env.set_timestamp(1_010);
    escrow.record_usage(&mut env, agent, svc, 1).unwrap();
    assert_eq!(escrow.get_rate_window(agent), (1_010, 1));
}

#[test]
fn law_accepted_calls_stay_within_the_window_cap() {
    let (mut escrow, mut env, _admin) = setup();
    configure_rate_limit(&mut escrow, &mut env, 5, 100);
    let agent = env.generate_address();
    let svc = sym("infer");
    for _ in 0..10 {
        let _ = escrow.record_usage(&mut env, agent, svc.clone(), 2);
        assert!(escrow.get_rate_window(agent).1 <= 5);
    }
    assert_eq!(escrow.get_usage(agent, &svc), 4);
    assert_eq!(escrow.get_remaining_in_window(&env, agent), 1);
}

#[test]
fn law_settle_drains_pair_on_values() {
    let (mut escrow, mut env, admin) = setup();
    env.set_timestamp(77);
    let agent = env.generate_address();
    let svc = sym("infer");
    escrow.set_service_price(&mut env, svc.clone(), 3).unwrap();
    escrow.record_usage(&mut env, agent, svc.clone(), 5).unwrap();
    assert_eq!(escrow.settle(&mut env, admin, agent, svc.clone()), Ok(15));
    let summary = escrow.get_billing_summary(agent, &svc);
    assert_eq!(summary.requests, 0);
    assert_eq!(summary.billed, 0);
    assert_eq!(summary.price_stroops, 3);
    assert_eq!(summary.last_settlement, Some(77));
}

#[test]
fn law_decrement_is_floored_on_values() {
    let (mut escrow, mut env, _admin) = setup();
    let agent = env.generate_address();
    let svc = sym("infer");
    escrow.record_usage(&mut env, agent, svc.clone(), 5).unwrap();
    assert_eq!(escrow.decrement_usage(&mut env, agent, svc.clone(), 9), Ok(0));
    assert_eq!(escrow.get_total_usage_by_agent(agent), 5);
    assert_eq!(escrow.get_total_requests_all_time(), 5);
}

#[test]
fn law_price_removal_and_zero_read_alike_on_values() {
    let (mut escrow, mut env, _admin) = setup();
    let agent = env.generate_address();
    let a = sym("a");
    let b = sym("b");
    escrow.set_service_price(&mut env, a.clone(), 9).unwrap();
    escrow.set_service_price(&mut env, b.clone(), 9).unwrap();
    escrow.record_usage(&mut env, agent, a.clone(), 2).unwrap();
    escrow.record_usage(&mut env, agent, b.clone(), 2).unwrap();
    escrow.remove_service_price(&mut env, a.clone()).unwrap();
    escrow.set_service_price(&mut env, b.clone(), 0).unwrap();
    assert_eq!(escrow.get_service_price(&a), escrow.get_service_price(&b));
    assert_eq!(escrow.compute_billing(agent, &a), 0);
    assert_eq!(escrow.compute_billing(agent, &b), 0);
}

#[test]
fn law_pause_and_reset_are_idempotent_on_values() {
    let (mut escrow, mut env, _admin) = setup();
    escrow.pause(&mut env).unwrap();
    let once = escrow.get_contract_config();
    escrow.pause(&mut env).unwrap();
    assert_eq!(escrow.get_contract_config(), once);
    escrow.unpause(&mut env).unwrap();
    let agent = env.generate_address();
    escrow.reset_rate_window(&mut env, agent).unwrap();
    escrow.reset_rate_window(&mut env, agent).unwrap();
    assert_eq!(escrow.get_rate_window(agent), (0, 0));
    assert_eq!(env.events().last(), Some(&Event::RateWindowReset { agent }));
}

#[test]
fn law_refund_batch_closes_listed_disputes_on_values() {
    let (mut escrow, mut env, _admin) = setup();
    let agent = env.generate_address();
    let a = sym("a");
    let b = sym("b");
    let c = sym("c");
    for s in [&a, &b, &c] {
        escrow.record_usage(&mut env, agent, s.clone(), 4).unwrap();
        escrow.open_dispute(&mut env, agent, s.clone()).unwrap();
    }
    escrow.refund_batch(&mut env, agent, &vec![c.clone(), a.clone()]).unwrap();
    assert!(!escrow.has_open_dispute(agent, &a));
    assert!(escrow.has_open_dispute(agent, &b));
    assert!(!escrow.has_open_dispute(agent, &c));
    assert_eq!(escrow.list_open_disputes(agent), vec![b.clone()]);
    let too_many: Vec<Symbol> = (0..=MAX_BATCH_READ).map(|i| Symbol::new(&svc_name(i))).collect();
    assert_eq!(escrow.refund_batch(&mut env, agent, &too_many), Err(EscrowError::BatchTooLarge));
}

#[test]
fn get_usage_batch_refuses_oversized_batches() {
    let (escrow, mut env, _admin) = setup();
    let agent = env.generate_address();
    let pairs: Vec<(Address, Symbol)> =
        (0..=MAX_BATCH_READ).map(|i| (agent, Symbol::new(&svc_name(i)))).collect();
    assert_eq!(escrow.get_usage_batch(&pairs), Err(EscrowError::BatchTooLarge));
    assert_eq!(escrow.get_usage_batch(&pairs[..3].to_vec()), Ok(vec![0, 0, 0]));
}

#[test]
fn transfer_service_ownership_refusals() {
    let (mut escrow, mut env, _admin) = setup();
    let owner = env.generate_address();
    let svc = sym("infer");
    escrow.set_service_metadata(&mut env, svc.clone(), "d".to_string(), owner).unwrap();
    env.set_auths(vec![]);
    assert_eq!(
        escrow.transfer_service_ownership(&mut env, owner, svc.clone(), Address::new(99)),
        Err(EscrowError::MissingAuth(owner))
    );
    env.mock_all_auths();
    escrow.pause(&mut env).unwrap();
    assert_eq!(
        escrow.transfer_service_ownership(&mut env, owner, svc, Address::new(99)),
        Err(EscrowError::ContractPaused)
    );
}

#[test]
fn flags_publish_their_events() {
    let (mut escrow, mut env, _admin) = setup();
    let agent = env.generate_address();
    let svc = sym("infer");
    escrow.set_agent_allowed(&mut env, agent, true).unwrap();
    assert_eq!(env.events().last(), Some(&Event::AgentAllowed { agent, allowed: true }));
    escrow.set_agent_blocked(&mut env, agent, true).unwrap();
    assert_eq!(env.events().last(), Some(&Event::AgentBlocked { agent, blocked: true }));
    escrow.register_service(&mut env, svc.clone()).unwrap();
    assert_eq!(env.events().last(), Some(&Event::ServiceAdded { service_id: svc.clone() }));
    escrow.set_service_disabled(&mut env, svc.clone(), true).unwrap();
    assert_eq!(
        env.events().last(),
        Some(&Event::ServiceDisabled { service_id: svc.clone(), disabled: true })
    );
    escrow.unregister_service(&mut env, svc.clone()).unwrap();
    assert_eq!(env.events().last(), Some(&Event::ServiceRemoved { service_id: svc.clone() }));
    escrow.clear_service_metadata(&mut env, svc.clone()).unwrap();
    assert_eq!(env.events().last(), Some(&Event::MetadataCleared { service_id: svc }));
}

#[test]
fn admin_setters_refuse_without_init_or_while_paused() {
    let mut env = Env::new();
    env.mock_all_auths();
    let mut escrow = Escrow::new();
    assert_eq!(escrow.register_service(&mut env, sym("x")), Err(EscrowError::NotInitialized));
    assert_eq!(escrow.pause(&mut env), Err(EscrowError::NotInitialized));
    let admin = env.generate_address();
    escrow.init(&mut env, admin).unwrap();
    escrow.pause(&mut env).unwrap();
    assert_eq!(escrow.set_price_bounds(&mut env, 0, 1), Err(EscrowError::ContractPaused));
    assert_eq!(escrow.credit_agent(&mut env, admin, 1), Err(EscrowError::ContractPaused));
    assert_eq!(escrow.set_max_requests_per_window(&mut env, 1), Err(EscrowError::ContractPaused));
}

#[test]
fn refused_calls_leave_no_events() {
    let (mut escrow, mut env, _admin) = setup();
    env.clear_events();
    let agent = env.generate_address();
    assert!(escrow.record_usage(&mut env, agent, sym("x"), 0).is_err());
    assert!(escrow.set_min_requests_per_call(&mut env, 1).is_ok());
    env.clear_events();
    assert!(escrow.set_max_requests_per_call(&mut env, 0).is_err());
    assert!(env.events().is_empty());
}

#[test]
fn symbol_try_new_accepts_exactly_the_valid_names() {
    assert_eq!(Symbol::try_new("weather_api").map(|s| s.as_str().to_string()), Some("weather_api".to_string()));
    assert!(Symbol::try_new("").is_some());
    assert!(Symbol::try_new("A_z_0_9").is_some());
    let longest = "a".repeat(32);
    assert_eq!(Symbol::try_new(&longest).map(|s| s.as_str().len()), Some(32));
    assert!(Symbol::try_new(&"a".repeat(33)).is_none());
    assert!(Symbol::try_new("has space").is_none());
    assert!(Symbol::try_new("dash-ed").is_none());
    assert!(Symbol::try_new("caf\u{e9}").is_none());
}

#[test]
fn law_snapshots_match_the_separate_reads_on_values() {
    let (mut escrow, mut env, admin) = setup();
    escrow.set_max_requests_per_call(&mut env, 500).unwrap();
    escrow.set_min_requests_per_call(&mut env, 2).unwrap();
    configure_rate_limit(&mut escrow, &mut env, 100, 60);
    escrow.set_allowlist_enabled(&mut env, true).unwrap();
    let c = escrow.get_contract_config();
    assert_eq!(c.paused, escrow.is_paused());
    assert_eq!(c.allowlist_enabled, escrow.is_allowlist_enabled());
    assert_eq!(c.require_service_registration, escrow.is_service_registration_required());
    assert_eq!(c.max_requests_per_call, 500);
    assert_eq!(c.max_requests_per_call, escrow.get_max_requests_per_call());
    assert_eq!(c.min_requests_per_call, escrow.get_min_requests_per_call());
    assert_eq!(c.max_requests_per_window, escrow.get_max_requests_per_window());
    assert_eq!(c.window_seconds, escrow.get_rate_window_seconds());
    assert_eq!(c.schema_version, escrow.get_schema_version());
    assert_eq!(c.admin, Some(admin));

    escrow.set_allowlist_enabled(&mut env, false).unwrap();
    let agent = env.generate_address();
    let svc = sym("infer");
    escrow.set_service_price(&mut env, svc.clone(), 7).unwrap();
    escrow.record_usage(&mut env, agent, svc.clone(), 30).unwrap();
    let b = escrow.get_billing_summary(agent, &svc);
    assert_eq!(b.requests, escrow.get_usage(agent, &svc));
    assert_eq!(b.price_stroops, escrow.get_service_price(&svc));
    assert_eq!(b.billed, escrow.compute_billing(agent, &svc));
    assert_eq!(b.billed, 210);
    assert_eq!(b.last_settlement, None);
    let unknown = escrow.get_billing_summary(env.generate_address(), &sym("other"));
    assert_eq!((unknown.requests, unknown.price_stroops, unknown.billed), (0, 0, 0));
}

#[test]
fn law_settle_all_keeps_lifetime_counters_on_values() {
    let (mut escrow, mut env, admin) = setup();
    let agent = env.generate_address();
    let a = sym("svc_a");
    let b = sym("svc_b");
    escrow.set_service_price(&mut env, a.clone(), 2).unwrap();
    escrow.set_service_price(&mut env, b.clone(), 0).unwrap();
    escrow.record_usage(&mut env, agent, a.clone(), 10).unwrap();
    escrow.record_usage(&mut env, agent, b.clone(), 5).unwrap();
    let requests_before = escrow.get_total_requests_all_time();
    let settled = escrow.settle_all(&mut env, admin, agent).unwrap();
    assert_eq!(settled, vec![(a.clone(), 20), (b.clone(), 0)]);
    assert_eq!(escrow.get_total_settled_by_agent(agent), 20);
    assert_eq!(escrow.get_total_settled_all_time(), 20);
    assert_eq!(escrow.get_total_requests_all_time(), requests_before);
    assert_eq!(escrow.get_total_usage_by_agent(agent), 15);
    // A second batch finds nothing left to settle and changes no counter.
    let again = escrow.settle_all(&mut env, admin, agent).unwrap();
    assert!(again.is_empty());
    assert_eq!(escrow.get_total_settled_by_agent(agent), 20);
    assert_eq!(escrow.get_total_settled_all_time(), 20);
}

#[test]
fn generated_addresses_stay_fresh_across_host_calls() {
    let mut env = Env::new();
    env.mock_all_auths();
    let admin = env.generate_address();
    let mut escrow = Escrow::new();
    escrow.init(&mut env, admin).unwrap();
    env.set_timestamp(50);
    advance_ledger(&mut env, 10);
    env.clear_events();
    env.set_auths(vec![admin]);
    escrow.pause(&mut env).unwrap();
    let agent = env.generate_address();
    let other = env.generate_address();
    assert_ne!(agent, admin);
    assert_ne!(other, agent);
    assert_ne!(other, admin);
}
