//! End-to-end scenarios for the plan lifecycle.

use dca::app::DcaApp;
use dca::config::ConfigUpdate;
use dca::error::DcaError;
use dca::frequency::Frequency;
use dca::frequency::Interval;
use dca::instr::Instruction;
use dca::types::percent;
use dca::types::Coin;
use dca::types::OfferAsset;
use dca::types::ResolvedAsset;

fn fresh_app() -> DcaApp {
    DcaApp::instantiate(
        "admin".to_string(),
        ResolvedAsset::Native("uusd".to_string()),
        100,
        20,
        percent(1),
    )
    .expect("native funding asset must be accepted")
}

fn admin() -> String {
    "admin".to_string()
}

fn source(amount: u128) -> OfferAsset {
    OfferAsset {
        name: "uusd".to_string(),
        amount,
    }
}

#[test]
fn instantiate_rejects_non_native_asset() {
    let r = DcaApp::instantiate(
        "admin".to_string(),
        ResolvedAsset::Contract("token0".to_string()),
        100,
        20,
        percent(1),
    );
    assert_eq!(r.err(), Some(DcaError::NotNativeAsset));
}

#[test]
fn instantiate_stores_config() {
    let app = fresh_app();
    let c = app.get_config();
    assert_eq!(c.native_denom, "uusd");
    assert_eq!(c.dca_creation_amount, 100);
    assert_eq!(c.refill_threshold, 20);
    assert_eq!(c.max_spread, 10_000_000_000_000_000);
}

#[test]
fn create_registers_funded_task() {
    // First half of the configured scenario: id 1 and one registration
    // instruction funded with 100 uusd.
    let mut app = fresh_app();
    let (id, instrs) = app
        .create_dca(
            &admin(),
            source(50),
            "ATOM".to_string(),
            Frequency::Daily,
            "venueA".to_string(),
            true,
        )
        .expect("creation must succeed");
    assert_eq!(id, 1);
    assert_eq!(
        instrs,
        vec![Instruction::RegisterTask {
            dca_id: 1,
            interval: Interval { seconds: 86400 },
            funding: Coin {
                denom: "uusd".to_string(),
                amount: 100,
            },
            stop_on_fail: true,
        }]
    );
}

#[test]
fn convert_below_threshold_refills_then_swaps() {
    // Second half of the configured scenario: balance 15 is below the
    // threshold 20, so a refill of 100 uusd precedes the bounded swap.
    let mut app = fresh_app();
    app.create_dca(
        &admin(),
        source(50),
        "ATOM".to_string(),
        Frequency::Daily,
        "venueA".to_string(),
        true,
    )
    .expect("creation must succeed");
    let instrs = app
        .convert(&"mgr".to_string(), 1, Ok("mgr".to_string()), Ok(15))
        .expect("convert must succeed");
    assert_eq!(
        instrs,
        vec![
            Instruction::RefillTask {
                dca_id: 1,
                funding: Coin {
                    denom: "uusd".to_string(),
                    amount: 100,
                },
            },
            Instruction::Swap {
                offer: source(50),
                ask: "ATOM".to_string(),
                dex: "venueA".to_string(),
                max_spread: percent(1),
            },
        ]
    );
}

#[test]
fn convert_at_threshold_swaps_without_refill() {
    let mut app = fresh_app();
    app.create_dca(
        &admin(),
        source(50),
        "ATOM".to_string(),
        Frequency::Daily,
        "venueA".to_string(),
        true,
    )
    .expect("creation must succeed");
    let instrs = app
        .convert(&"mgr".to_string(), 1, Ok("mgr".to_string()), Ok(20))
        .expect("convert must succeed");
    assert_eq!(
        instrs,
        vec![Instruction::Swap {
            offer: source(50),
            ask: "ATOM".to_string(),
            dex: "venueA".to_string(),
            max_spread: percent(1),
        }]
    );
}

#[test]
fn created_ids_increase_and_are_unique() {
    let mut app = fresh_app();
    let mut seen: Vec<u64> = Vec::new();
    for k in 0..5u128 {
        let (id, _) = app
            .create_dca(
                &admin(),
                source(10 + k),
                "ATOM".to_string(),
                Frequency::Hourly,
                "venueA".to_string(),
                true,
            )
            .expect("creation must succeed");
        if let Some(prev) = seen.last() {
            assert!(id > *prev);
        }
        assert!(!seen.contains(&id));
        seen.push(id);
    }
    assert_eq!(seen, vec![1, 2, 3, 4, 5]);
}

#[test]
fn cancel_then_lookup_and_convert_not_found() {
    let mut app = fresh_app();
    let (id, _) = app
        .create_dca(
            &admin(),
            source(50),
            "ATOM".to_string(),
            Frequency::Daily,
            "venueA".to_string(),
            true,
        )
        .expect("creation must succeed");
    let instrs = app.cancel_dca(&admin(), id).expect("cancel must succeed");
    assert_eq!(instrs, vec![Instruction::DeregisterTask { dca_id: id }]);
    assert_eq!(app.load_entry(id).err(), Some(DcaError::NotFound));
    let r = app.convert(&"mgr".to_string(), id, Ok("mgr".to_string()), Ok(0));
    assert_eq!(r.err(), Some(DcaError::NotFound));
}

#[test]
fn cancelled_id_is_never_reused() {
    let mut app = fresh_app();
    let (first, _) = app
        .create_dca(
            &admin(),
            source(50),
            "ATOM".to_string(),
            Frequency::Daily,
            "venueA".to_string(),
            true,
        )
        .expect("creation must succeed");
    app.cancel_dca(&admin(), first).expect("cancel must succeed");
    let (second, _) = app
        .create_dca(
            &admin(),
            source(60),
            "ATOM".to_string(),
            Frequency::Daily,
            "venueA".to_string(),
            true,
        )
        .expect("creation must succeed");
    assert_ne!(first, second);
    assert_eq!(second, 2);
}

#[test]
fn update_config_all_unset_changes_nothing() {
    let mut app = fresh_app();
    app.update_config(&admin(), ConfigUpdate::default())
        .expect("update must succeed");
    let c = app.get_config();
    assert_eq!(c.native_denom, "uusd");
    assert_eq!(c.dca_creation_amount, 100);
    assert_eq!(c.refill_threshold, 20);
    assert_eq!(c.max_spread, percent(1));
}

#[test]
fn update_config_changes_exactly_the_set_fields() {
    let mut app = fresh_app();
    app.update_config(
        &admin(),
        ConfigUpdate {
            refill_threshold: Some(55),
            max_spread: Some(percent(2)),
            ..ConfigUpdate::default()
        },
    )
    .expect("update must succeed");
    let c = app.get_config();
    assert_eq!(c.native_denom, "uusd");
    assert_eq!(c.dca_creation_amount, 100);
    assert_eq!(c.refill_threshold, 55);
    assert_eq!(c.max_spread, percent(2));
}
