use servicer::lifecycle::{
    create_decision, delete_outcome, delete_plan, disable_plan, enable_plan, enabled_on_boot, names_existing_unit,
    overwrite_abort_decision, parse_active_state, parse_load_state, parse_unit_file_state,
    reload_decision, rename_plan, start_decision, start_plan, stop_plan, Action, ActiveState,
    LoadState, UnitFileState,
};
use servicer::ServiceError;

fn reload_manager_count(plan: &[Action]) -> usize {
    plan.iter().filter(|a| matches!(a, Action::ReloadManager)).count()
}

#[test]
fn active_state_classification() {
    assert_eq!(parse_active_state("active"), ActiveState::Active);
    assert_eq!(parse_active_state("reloading"), ActiveState::Reloading);
    assert_eq!(parse_active_state("failed"), ActiveState::Failed);
    assert_eq!(parse_active_state("invalid-unit-path"), ActiveState::InvalidUnitPath);
    assert_eq!(
        parse_active_state("deactivating"),
        ActiveState::Unknown("deactivating".to_string())
    );
}

#[test]
fn unit_file_state_classification() {
    assert_eq!(parse_unit_file_state("enabled"), UnitFileState::Enabled);
    assert_eq!(parse_unit_file_state("enabled-runtime"), UnitFileState::EnabledRuntime);
    assert_eq!(parse_unit_file_state("invalid-unit-path"), UnitFileState::InvalidUnitPath);
    assert_eq!(parse_unit_file_state("static"), UnitFileState::Unknown("static".to_string()));
}

#[test]
fn load_state_classification() {
    assert_eq!(parse_load_state("not-found"), LoadState::NotFound);
    assert_eq!(parse_load_state("invalid-unit-path"), LoadState::InvalidUnitPath);
    assert_eq!(parse_load_state("loaded"), LoadState::Unknown("loaded".to_string()));
    assert!(names_existing_unit(&parse_load_state("loaded")));
    assert!(!names_existing_unit(&parse_load_state("not-found")));
    assert!(!names_existing_unit(&parse_load_state("invalid-unit-path")));
}

#[test]
fn boot_persistence_test() {
    assert!(enabled_on_boot(&UnitFileState::Enabled));
    assert!(enabled_on_boot(&UnitFileState::EnabledRuntime));
    assert!(!enabled_on_boot(&UnitFileState::InvalidUnitPath));
    assert!(!enabled_on_boot(&UnitFileState::Unknown("disabled".to_string())));
}

#[test]
fn create_rejected_when_file_exists_without_overwrite() {
    assert_eq!(create_decision(true, false), Err(ServiceError::AlreadyExists));
    assert_eq!(create_decision(true, true), Ok(()));
    assert_eq!(create_decision(false, false), Ok(()));
    assert_eq!(create_decision(false, true), Ok(()));
}

#[test]
fn start_is_noop_when_active_or_reloading() {
    assert!(!start_decision(&ActiveState::Active));
    assert!(!start_decision(&ActiveState::Reloading));
    assert!(start_decision(&ActiveState::Failed));
    assert!(start_decision(&ActiveState::InvalidUnitPath));
    assert!(start_decision(&ActiveState::Unknown("inactive".to_string())));
}

#[test]
fn start_plan_issues_no_start_for_running_unit() {
    let plan = start_plan("a.ser.service", &ActiveState::Active, true, false);
    assert!(!plan.iter().any(|a| matches!(a, Action::StartUnit(_))));
    assert_eq!(
        plan,
        vec![
            Action::EnableUnit("a.ser.service".to_string()),
            Action::ReloadManager,
        ]
    );
}

#[test]
fn start_plan_starts_and_enables_when_owed() {
    let plan = start_plan("a.ser.service", &ActiveState::Failed, true, false);
    assert_eq!(
        plan,
        vec![
            Action::StartUnit("a.ser.service".to_string()),
            Action::EnableUnit("a.ser.service".to_string()),
            Action::ReloadManager,
        ]
    );
    let plan = start_plan("a.ser.service", &ActiveState::Failed, true, true);
    assert_eq!(plan, vec![Action::StartUnit("a.ser.service".to_string())]);
    let plan = start_plan("a.ser.service", &ActiveState::Active, false, true);
    assert!(plan.is_empty());
}

#[test]
fn reload_forwarded_only_for_failed_unit() {
    assert!(reload_decision(&ActiveState::Failed));
    assert!(!reload_decision(&ActiveState::Active));
    assert!(!reload_decision(&ActiveState::Reloading));
    assert!(!reload_decision(&ActiveState::InvalidUnitPath));
    assert!(!reload_decision(&ActiveState::Unknown("inactive".to_string())));
}

#[test]
fn enable_and_disable_reload_manager_exactly_once() {
    let e = enable_plan("a.ser.service");
    assert_eq!(reload_manager_count(&e), 1);
    assert_eq!(
        e,
        vec![Action::EnableUnit("a.ser.service".to_string()), Action::ReloadManager]
    );
    let d = disable_plan("a.ser.service");
    assert_eq!(reload_manager_count(&d), 1);
    assert_eq!(
        d,
        vec![Action::DisableUnit("a.ser.service".to_string()), Action::ReloadManager]
    );
}

#[test]
fn stop_plan_is_one_unconditional_stop() {
    assert_eq!(
        stop_plan("a.ser.service"),
        vec![Action::StopUnit("a.ser.service".to_string())]
    );
}

#[test]
fn delete_plan_stops_disables_then_removes() {
    let u = "a.ser.service".to_string();
    assert_eq!(
        delete_plan(&u),
        vec![
            Action::StopUnit(u.clone()),
            Action::DisableUnit(u.clone()),
            Action::ReloadManager,
            Action::RemoveUnitFile(u.clone()),
        ]
    );
}

#[test]
fn rename_plan_copies_before_deleting_and_replays_state() {
    let a = "a.ser.service".to_string();
    let b = "b.ser.service".to_string();
    let plan = rename_plan(&a, &b, true, true);
    assert_eq!(
        plan,
        vec![
            Action::CopyUnitFile(a.clone(), b.clone()),
            Action::StopUnit(a.clone()),
            Action::DisableUnit(a.clone()),
            Action::ReloadManager,
            Action::RemoveUnitFile(a.clone()),
            Action::StartUnit(b.clone()),
            Action::EnableUnit(b.clone()),
            Action::ReloadManager,
        ]
    );
}

#[test]
fn rename_plan_skips_replay_for_inactive_disabled_unit() {
    let a = "a.ser.service".to_string();
    let b = "b.ser.service".to_string();
    let plan = rename_plan(&a, &b, false, false);
    assert_eq!(
        plan,
        vec![
            Action::CopyUnitFile(a.clone(), b.clone()),
            Action::StopUnit(a.clone()),
            Action::DisableUnit(a.clone()),
            Action::ReloadManager,
            Action::RemoveUnitFile(a.clone()),
        ]
    );
}

#[test]
fn missing_unit_file_is_not_found() {
    assert_eq!(
        servicer::lifecycle::require_unit_file(false),
        Err(ServiceError::NotFound)
    );
    assert_eq!(servicer::lifecycle::require_unit_file(true), Ok(()));
}

#[test]
fn delete_outcome_names_the_failed_step() {
    assert_eq!(delete_outcome(true, true, true), Ok(()));
    assert_eq!(delete_outcome(false, true, true), Err(ServiceError::AdapterError));
    assert_eq!(delete_outcome(true, false, true), Err(ServiceError::AdapterError));
    assert_eq!(delete_outcome(true, true, false), Err(ServiceError::PartialFailure));
}

#[test]
fn overwrite_abort_test() {
    assert!(!overwrite_abort_decision(&ActiveState::Active, false));
    assert!(!overwrite_abort_decision(&ActiveState::Reloading, false));
    assert!(overwrite_abort_decision(&ActiveState::Active, true));
    assert!(overwrite_abort_decision(&ActiveState::Failed, false));
}
