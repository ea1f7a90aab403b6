use hotkey_launcher::config::default_config;
use hotkey_launcher::dispatch::Dispatcher;
use hotkey_launcher::permission::evaluate_permission;
use hotkey_launcher::permission::guidance_message;
use hotkey_launcher::permission::PermissionGate;
use hotkey_launcher::permission::StartupDecision;
use hotkey_launcher::registrar::Registrar;
use hotkey_launcher::table::ActionTable;

/// Registers the fixed configuration under the identifiers 101 (Alt+O),
/// 102 (Alt+A) and 103 (Alt+P) and enters the dispatch loop.
fn start_default_loop() -> Dispatcher {
    let mut registrar = Registrar::new(default_config()).unwrap();
    for id in [101_u32, 102, 103] {
        registrar.bind(id).unwrap();
    }
    let dispatcher = Dispatcher::new(registrar.finish().unwrap());
    assert_eq!(dispatcher.action_table().len(), 3);
    dispatcher
}

#[test]
fn unmapped_identifier_is_noop() {
    let mut dispatcher = start_default_loop();
    assert!(dispatcher.on_notification(999).is_none());
    // The loop stayed idle: the next, valid, press dispatches normally.
    let cmd = dispatcher.on_notification(101).unwrap();
    assert_eq!(cmd, "open -a Bruno");
}

#[test]
fn mapped_identifier_spawns_exactly_once() {
    let mut dispatcher = start_default_loop();
    let cmd = dispatcher.on_notification(103).unwrap();
    assert_eq!(cmd, "open -a Terminal");
    // The spawn attempt started fine: nothing to report, loop idle again.
    assert!(dispatcher.on_spawn_result(None).is_none());
    assert!(dispatcher.on_notification(999).is_none());
}

#[test]
fn repeats_each_trigger_one_spawn() {
    let mut dispatcher = start_default_loop();
    for _ in 0..3 {
        let cmd = dispatcher.on_notification(102).unwrap();
        assert_eq!(cmd, "open -a Rio");
        assert!(dispatcher.on_spawn_result(None).is_none());
    }
}

#[test]
fn alt_a_press_spawns_rio_only() {
    let mut dispatcher = start_default_loop();
    // Alt+A was bound to identifier 102.
    let spawned = dispatcher.on_notification(102);
    assert_eq!(spawned.as_deref(), Some("open -a Rio"));
    assert!(dispatcher.on_spawn_result(None).is_none());
    // That press spawned one command and nothing else: the loop is idle
    // with no further work decided.
    assert!(dispatcher.on_notification(999).is_none());
}

#[test]
fn spawn_failure_reported_and_loop_continues() {
    let mut dispatcher = start_default_loop();
    let cmd = dispatcher.on_notification(102).unwrap();
    assert_eq!(cmd, "open -a Rio");
    let diag = dispatcher
        .on_spawn_result(Some("No such file or directory"))
        .expect("a start failure must be reported");
    assert_eq!(
        diag,
        "failed to execute command open -a Rio: No such file or directory"
    );
    // The failure was isolated: a subsequent, different, valid press
    // still dispatches correctly.
    let next = dispatcher.on_notification(101).unwrap();
    assert_eq!(next, "open -a Bruno");
    assert!(dispatcher.on_spawn_result(None).is_none());
}

#[test]
fn permission_denied_exits_cleanly_with_guidance() {
    let decision = evaluate_permission(PermissionGate::Gated, Some(false));
    assert_eq!(decision, StartupDecision::ExitPermissionDenied);
    assert_eq!(
        guidance_message(),
        "Accessibility is not allowed. Please enable accessibility in System Preferences."
    );
    // Denial precedes registration: the table stays empty.
    let table = ActionTable::new();
    assert_eq!(table.len(), 0);
}

#[test]
fn permission_outcomes() {
    assert_eq!(
        evaluate_permission(PermissionGate::Ungated, None),
        StartupDecision::Proceed
    );
    assert_eq!(
        evaluate_permission(PermissionGate::Ungated, Some(false)),
        StartupDecision::Proceed
    );
    assert_eq!(
        evaluate_permission(PermissionGate::Gated, Some(true)),
        StartupDecision::Proceed
    );
    assert_eq!(
        evaluate_permission(PermissionGate::Gated, None),
        StartupDecision::AbortPermissionQuery
    );
}

#[test]
fn empty_table_ignores_everything() {
    let mut dispatcher = Dispatcher::new(ActionTable::new());
    assert!(dispatcher.on_notification(0).is_none());
    assert!(dispatcher.on_notification(u32::MAX).is_none());
}
