//! Authorization and failure-mode scenarios.

use dca::app::DcaApp;
use dca::config::ConfigUpdate;
use dca::error::DcaError;
use dca::error::TaskQueryError;
use dca::frequency::Frequency;
use dca::types::percent;
use dca::types::OfferAsset;
use dca::types::ResolvedAsset;

fn fresh_app() -> DcaApp {
    DcaApp::instantiate(
        "admin".to_string(),
        ResolvedAsset::Native("uusd".to_string()),
        100,
        20,
        percent(1),
    )
    .expect("native funding asset must be accepted")
}

fn admin() -> String {
    "admin".to_string()
}

fn source(amount: u128) -> OfferAsset {
    OfferAsset {
        name: "uusd".to_string(),
        amount,
    }
}

fn create_one(app: &mut DcaApp) -> u64 {
    let (id, _) = app
        .create_dca(
            &admin(),
            source(50),
            "ATOM".to_string(),
            Frequency::Daily,
            "venueA".to_string(),
            true,
        )
        .expect("creation must succeed");
    id
}

#[test]
fn assert_admin_accepts_only_the_administrator() {
    let app = fresh_app();
    assert!(app.assert_admin(&admin()).is_ok());
    assert_eq!(
        app.assert_admin(&"mallory".to_string()).err(),
        Some(DcaError::Unauthorized)
    );
}

#[test]
fn assert_task_manager_matches_lookup() {
    assert!(DcaApp::assert_task_manager(&"mgr".to_string(), Ok("mgr".to_string())).is_ok());
    assert_eq!(
        DcaApp::assert_task_manager(&"mallory".to_string(), Ok("mgr".to_string())).err(),
        Some(DcaError::NotManagerConvert)
    );
    assert_eq!(
        DcaApp::assert_task_manager(&"mgr".to_string(), Err(TaskQueryError::Unavailable)).err(),
        Some(DcaError::ServiceUnavailable)
    );
    assert_eq!(
        DcaApp::assert_task_manager(&"mgr".to_string(), Err(TaskQueryError::UnknownTask)).err(),
        Some(DcaError::NotFound)
    );
}

#[test]
fn update_config_rejects_non_admin() {
    let mut app = fresh_app();
    let r = app.update_config(&"mallory".to_string(), ConfigUpdate::default());
    assert_eq!(r.err(), Some(DcaError::Unauthorized));
    assert_eq!(app.get_config().dca_creation_amount, 100);
}

#[test]
fn create_rejects_non_admin() {
    let mut app = fresh_app();
    let r = app.create_dca(
        &"mallory".to_string(),
        source(50),
        "ATOM".to_string(),
        Frequency::Daily,
        "venueA".to_string(),
        true,
    );
    assert_eq!(r.err(), Some(DcaError::Unauthorized));
}

#[test]
fn update_rejects_non_admin() {
    let mut app = fresh_app();
    let id = create_one(&mut app);
    let r = app.update_dca(&"mallory".to_string(), id, None, None, None, None, true);
    assert_eq!(r.err(), Some(DcaError::Unauthorized));
}

#[test]
fn cancel_rejects_non_admin() {
    let mut app = fresh_app();
    let id = create_one(&mut app);
    let r = app.cancel_dca(&"mallory".to_string(), id);
    assert_eq!(r.err(), Some(DcaError::Unauthorized));
    assert!(app.load_entry(id).is_ok());
}

#[test]
fn create_infeasible_swap_persists_nothing() {
    let mut app = fresh_app();
    let r = app.create_dca(
        &admin(),
        source(50),
        "ATOM".to_string(),
        Frequency::Daily,
        "venueA".to_string(),
        false,
    );
    assert_eq!(r.err(), Some(DcaError::SwapUnavailable));
    // No entry was stored and no id was consumed: the next creation still
    // allocates the first id.
    assert_eq!(app.load_entry(1).err(), Some(DcaError::NotFound));
    let id = create_one(&mut app);
    assert_eq!(id, 1);
}

#[test]
fn update_infeasible_swap_fails() {
    let mut app = fresh_app();
    let id = create_one(&mut app);
    let r = app.update_dca(
        &admin(),
        id,
        Some(source(75)),
        None,
        None,
        None,
        false,
    );
    assert_eq!(r.err(), Some(DcaError::SwapUnavailable));
    let entry = app.load_entry(id).expect("entry must remain");
    assert_eq!(entry.source_asset.amount, 50);
}

#[test]
fn update_missing_plan_not_found() {
    let mut app = fresh_app();
    let r = app.update_dca(&admin(), 7, None, None, None, None, true);
    assert_eq!(r.err(), Some(DcaError::NotFound));
}

#[test]
fn cancel_missing_plan_not_found() {
    let mut app = fresh_app();
    let r = app.cancel_dca(&admin(), 7);
    assert_eq!(r.err(), Some(DcaError::NotFound));
}

#[test]
fn convert_rejects_foreign_caller() {
    let mut app = fresh_app();
    let id = create_one(&mut app);
    // The registered manager is "mgr"; a different caller is turned away
    // whatever the balance says.
    for balance in [0u128, 15, 20, 1000] {
        let r = app.convert(
            &"mallory".to_string(),
            id,
            Ok("mgr".to_string()),
            Ok(balance),
        );
        assert_eq!(r.err(), Some(DcaError::NotManagerConvert));
    }
}

#[test]
fn convert_surfaces_manager_lookup_failure() {
    let mut app = fresh_app();
    let id = create_one(&mut app);
    let r = app.convert(
        &"mgr".to_string(),
        id,
        Err(TaskQueryError::Unavailable),
        Ok(100),
    );
    assert_eq!(r.err(), Some(DcaError::ServiceUnavailable));
    let r = app.convert(
        &"mgr".to_string(),
        id,
        Err(TaskQueryError::UnknownTask),
        Ok(100),
    );
    assert_eq!(r.err(), Some(DcaError::NotFound));
}

#[test]
fn convert_surfaces_balance_lookup_failure() {
    let mut app = fresh_app();
    let id = create_one(&mut app);
    let r = app.convert(
        &"mgr".to_string(),
        id,
        Ok("mgr".to_string()),
        Err(TaskQueryError::Unavailable),
    );
    assert_eq!(r.err(), Some(DcaError::ServiceUnavailable));
}
