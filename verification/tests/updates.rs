//! Scenarios for updating plans: field merging and schedule re-creation.

use dca::app::DcaApp;
use dca::error::DcaError;
use dca::frequency::Frequency;
use dca::frequency::Interval;
use dca::instr::Instruction;
use dca::types::percent;
use dca::types::Coin;
use dca::types::OfferAsset;
use dca::types::ResolvedAsset;

fn fresh_app() -> DcaApp {
    DcaApp::instantiate(
        "admin".to_string(),
        ResolvedAsset::Native("uusd".to_string()),
        100,
        20,
        percent(1),
    )
    .expect("native funding asset must be accepted")
}

fn admin() -> String {
    "admin".to_string()
}

fn source(amount: u128) -> OfferAsset {
    OfferAsset {
        name: "uusd".to_string(),
        amount,
    }
}

fn create_one(app: &mut DcaApp) -> u64 {
    let (id, _) = app
        .create_dca(
            &admin(),
            source(50),
            "ATOM".to_string(),
            Frequency::Daily,
            "venueA".to_string(),
            true,
        )
        .expect("creation must succeed");
    id
}

#[test]
fn update_with_frequency_emits_deregister_then_register() {
    let mut app = fresh_app();
    let id = create_one(&mut app);
    let instrs = app
        .update_dca(
            &admin(),
            id,
            None,
            None,
            Some(Frequency::Weekly),
            None,
            true,
        )
        .expect("update must succeed");
    assert_eq!(
        instrs,
        vec![
            Instruction::DeregisterTask { dca_id: id },
            Instruction::RegisterTask {
                dca_id: id,
                interval: Interval { seconds: 604800 },
                funding: Coin {
                    denom: "uusd".to_string(),
                    amount: 100,
                },
                stop_on_fail: true,
            },
        ]
    );
}

#[test]
fn update_without_frequency_emits_no_scheduling() {
    let mut app = fresh_app();
    let id = create_one(&mut app);
    let instrs = app
        .update_dca(
            &admin(),
            id,
            Some(source(75)),
            Some("OSMO".to_string()),
            None,
            Some("venueB".to_string()),
            true,
        )
        .expect("update must succeed");
    assert_eq!(instrs, Vec::new());
}

#[test]
fn update_merges_only_supplied_fields() {
    let mut app = fresh_app();
    let id = create_one(&mut app);
    app.update_dca(
        &admin(),
        id,
        Some(source(75)),
        None,
        None,
        Some("venueB".to_string()),
        true,
    )
    .expect("update must succeed");
    let entry = app.load_entry(id).expect("entry must exist");
    assert_eq!(entry.source_asset, source(75));
    assert_eq!(entry.target_asset, "ATOM");
    assert_eq!(entry.frequency, Frequency::Daily);
    assert_eq!(entry.dex, "venueB");
}

#[test]
fn update_keeps_id_stable() {
    let mut app = fresh_app();
    let id = create_one(&mut app);
    app.update_dca(
        &admin(),
        id,
        None,
        None,
        Some(Frequency::Hourly),
        None,
        true,
    )
    .expect("update must succeed");
    let entry = app.load_entry(id).expect("entry must exist");
    assert_eq!(entry.frequency, Frequency::Hourly);
    // No new plan appeared under a fresh id.
    assert_eq!(app.load_entry(id + 1).err(), Some(DcaError::NotFound));
}

#[test]
fn create_with_custom_cadence_schedules_its_period() {
    let mut app = fresh_app();
    let frequency = Frequency::custom(90).expect("a positive period is a cadence");
    let (id, instrs) = app
        .create_dca(
            &admin(),
            source(50),
            "ATOM".to_string(),
            frequency,
            "venueA".to_string(),
            true,
        )
        .expect("creation must succeed");
    assert_eq!(
        instrs,
        vec![Instruction::RegisterTask {
            dca_id: id,
            interval: Interval { seconds: 90 },
            funding: Coin {
                denom: "uusd".to_string(),
                amount: 100,
            },
            stop_on_fail: true,
        }]
    );
}

#[test]
fn frequencies_convert_to_exact_intervals() {
    assert_eq!(Frequency::Hourly.to_interval(), Interval { seconds: 3600 });
    assert_eq!(Frequency::Daily.to_interval(), Interval { seconds: 86400 });
    assert_eq!(Frequency::Weekly.to_interval(), Interval { seconds: 604800 });
    assert_eq!(
        Frequency::EverySeconds(90).to_interval(),
        Interval { seconds: 90 }
    );
}

#[test]
fn custom_frequency_rejects_zero_period() {
    assert_eq!(Frequency::custom(0), None);
    assert_eq!(Frequency::custom(90), Some(Frequency::EverySeconds(90)));
}

#[test]
fn percent_is_exact() {
    assert_eq!(percent(1), 10_000_000_000_000_000);
    assert_eq!(percent(100), dca::types::FRACTION_ONE);
}
