use hotkey_launcher::config::default_config;
use hotkey_launcher::config::find_duplicate;
use hotkey_launcher::config::CandidateEntry;
use hotkey_launcher::errors::StartupError;
use hotkey_launcher::hotkey::HotkeyDescriptor;
use hotkey_launcher::hotkey::KEY_A;
use hotkey_launcher::hotkey::KEY_O;
use hotkey_launcher::hotkey::KEY_P;
use hotkey_launcher::hotkey::MOD_ALT;
use hotkey_launcher::registrar::Registrar;

fn alt(key_code: u32) -> HotkeyDescriptor {
    HotkeyDescriptor::new(MOD_ALT, key_code)
}

#[test]
fn default_config_contents() {
    let config = default_config();
    assert_eq!(config.len(), 3);
    assert_eq!(config[0].descriptor, alt(KEY_O));
    assert_eq!(config[0].command, "open -a Bruno");
    assert_eq!(config[1].descriptor, alt(KEY_A));
    assert_eq!(config[1].command, "open -a Rio");
    assert_eq!(config[2].descriptor, alt(KEY_P));
    assert_eq!(config[2].command, "open -a Terminal");
    assert!(find_duplicate(&config).is_none());
}

#[test]
fn registration_distinct_yields_full_table() {
    let config = default_config();
    let mut registrar = Registrar::new(config).unwrap();
    let ids = [101_u32, 102, 103];
    for id in ids {
        let pending = registrar.pending().expect("a candidate should be pending");
        assert_eq!(pending.descriptor.modifiers, MOD_ALT);
        assert!(registrar.bind(id).is_ok());
    }
    assert!(registrar.is_complete());
    assert!(registrar.pending().is_none());
    let table = registrar.finish().unwrap();
    assert_eq!(table.len(), 3);
    assert_eq!(table.lookup(101).unwrap().command, "open -a Bruno");
    assert_eq!(table.lookup(102).unwrap().command, "open -a Rio");
    assert_eq!(table.lookup(103).unwrap().command, "open -a Terminal");
    assert_eq!(table.lookup(101).unwrap().descriptor, alt(KEY_O));
    assert!(table.lookup(999).is_none());
}

#[test]
fn duplicate_descriptor_fails_startup() {
    let config = vec![
        CandidateEntry { descriptor: alt(KEY_O), command: "open -a Bruno".to_string() },
        CandidateEntry { descriptor: alt(KEY_O), command: "open -a Rio".to_string() },
    ];
    assert!(matches!(
        find_duplicate(&config),
        Some((0, 1))
    ));
    let r = Registrar::new(config);
    match r {
        Err(StartupError::DuplicateDescriptor { first, second }) => {
            assert_eq!(first, 0);
            assert_eq!(second, 1);
        }
        _ => panic!("a duplicate descriptor must abort startup"),
    }
}

#[test]
fn duplicate_identifier_rejected() {
    let config = default_config();
    let mut registrar = Registrar::new(config).unwrap();
    assert!(registrar.bind(5).is_ok());
    match registrar.bind(5) {
        Err(StartupError::DuplicateIdentifier { id }) => assert_eq!(id, 5),
        _ => panic!("a repeated identifier must be rejected"),
    }
    assert_eq!(registrar.bound_count(), 1);
}

#[test]
fn bind_without_pending_rejected() {
    let config: Vec<CandidateEntry> = Vec::new();
    let mut registrar = Registrar::new(config).unwrap();
    assert!(registrar.is_complete());
    assert!(matches!(registrar.bind(1), Err(StartupError::NothingPending)));
    let table = registrar.finish().unwrap();
    assert_eq!(table.len(), 0);
    assert!(table.lookup(1).is_none());
}

#[test]
fn finish_incomplete_rejected() {
    let config = default_config();
    let mut registrar = Registrar::new(config).unwrap();
    assert!(registrar.bind(44).is_ok());
    assert!(!registrar.is_complete());
    assert!(matches!(registrar.finish(), Err(StartupError::Incomplete)));
}

#[test]
fn error_messages_are_single_lines() {
    let dup = StartupError::DuplicateDescriptor { first: 0, second: 1 };
    assert_eq!(dup.message(), "two configured entries share a key combination");
    let init = StartupError::ManagerInit { reason: "no display".to_string() };
    assert_eq!(init.message(), "hotkey subsystem failed to initialize: no display");
    let reg = StartupError::Registration { index: 2, reason: "already taken".to_string() };
    assert_eq!(reg.message(), "hotkey registration failed: already taken");
    let dup_id = StartupError::DuplicateIdentifier { id: 7 };
    assert_eq!(dup_id.message(), "hotkey subsystem issued a duplicate identifier");
    assert_eq!(
        StartupError::NothingPending.message(),
        "an identifier was offered with no candidate pending"
    );
    assert_eq!(
        StartupError::Incomplete.message(),
        "registration ended before every candidate was bound"
    );
    assert_eq!(
        StartupError::PermissionQuery.message(),
        "the permission state could not be queried"
    );
    for e in [dup, init, reg, dup_id] {
        assert!(!e.message().contains('\n'));
    }
}
