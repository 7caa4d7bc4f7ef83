use profile_vault::commands;
use profile_vault::credential;
use profile_vault::errors::AppError;
use profile_vault::models::PatientInput;
use profile_vault::profile::{
    create_profile, find_profile_index, list_profiles, validate_profile_input, StoredProfile,
};
use profile_vault::session::AppState;
use profile_vault::store::{key_pragma_statement, PatientStore};

fn sample_input(first: &str, last: &str) -> PatientInput {
    PatientInput {
        first_name: first.to_string(),
        last_name: last.to_string(),
        birth_date: "1990-01-01".to_string(),
        gender: "F".to_string(),
        phone: "555-0100".to_string(),
        email: Some("a@example.test".to_string()),
    }
}

fn new_profile(catalog: &mut Vec<StoredProfile>, name: &str, password: &str) -> StoredProfile {
    create_profile(catalog, "/tmp/appdata", name, password).expect("profile creation")
}

#[test]
fn hash_verify_roundtrip_succeeds() {
    let mut catalog = Vec::new();
    let p = new_profile(&mut catalog, "Alice", "correct horse");
    assert!(credential::verify_password(&p, "correct horse").is_ok());
}

#[test]
fn hash_verify_rejects_other_password() {
    let mut catalog = Vec::new();
    let p = new_profile(&mut catalog, "Alice", "correct horse");
    let r = credential::verify_password(&p, "wrong horse");
    assert!(matches!(r, Err(AppError::Auth(_))));
}

#[test]
fn derive_key_is_deterministic() {
    let mut catalog = Vec::new();
    let p = new_profile(&mut catalog, "Alice", "pw");
    let k1 = credential::derive_key(&p, "pw").expect("derive");
    let k2 = credential::derive_key(&p, "pw").expect("derive again");
    assert_eq!(k1, k2);
    assert_eq!(k1.len(), 32);
}

#[test]
fn same_password_gives_independent_credentials() {
    let mut catalog = Vec::new();
    let alice = new_profile(&mut catalog, "Alice", "shared");
    let bob = new_profile(&mut catalog, "Bob", "shared");
    assert_ne!(alice.password_hash, bob.password_hash);
    assert_ne!(alice.key_salt_b64, bob.key_salt_b64);
    let key_a = credential::derive_key(&alice, "shared").expect("derive one");
    let key_b = credential::derive_key(&bob, "shared").expect("derive two");
    assert_ne!(key_a, key_b);
}

#[test]
fn fresh_profile_lists_no_records() {
    let mut catalog = Vec::new();
    let p = new_profile(&mut catalog, "Alice", "pw");
    let mut state = AppState::new();
    let opened = commands::open_profile(&mut state, &catalog, &p.id, "pw");
    assert!(opened.is_ok());
    let store = PatientStore::new();
    let listed = commands::list_patients(&state, &store).expect("list");
    assert!(listed.is_empty());
}

#[test]
fn create_then_list_returns_it_first() {
    let mut state = AppState::new();
    let mut catalog = Vec::new();
    let p = new_profile(&mut catalog, "Alice", "pw");
    commands::open_profile(&mut state, &catalog, &p.id, "pw").expect("open");
    let mut store = PatientStore::new();
    let older = commands::create_patient(&state, &mut store, &sample_input("Old", "Er"))
        .expect("first create");
    let newer = commands::create_patient(&state, &mut store, &sample_input("New", "Er"))
        .expect("second create");
    let listed = commands::list_patients(&state, &store).expect("list");
    assert_eq!(listed.len(), 2);
    assert_eq!(listed[0].id, newer.id);
    assert_eq!(listed[0].first_name, "New");
    assert_eq!(listed[1].id, older.id);
}

#[test]
fn delete_removes_record_and_is_idempotent() {
    let mut state = AppState::new();
    let mut catalog = Vec::new();
    let p = new_profile(&mut catalog, "Alice", "pw");
    commands::open_profile(&mut state, &catalog, &p.id, "pw").expect("open");
    let mut store = PatientStore::new();
    let created = commands::create_patient(&state, &mut store, &sample_input("A", "B"))
        .expect("create");
    commands::delete_patient(&state, &mut store, &created.id).expect("delete");
    let listed = commands::list_patients(&state, &store).expect("list");
    assert!(listed.iter().all(|r| r.id != created.id));
    assert!(listed.is_empty());
    commands::delete_patient(&state, &mut store, "no-such-id").expect("idempotent delete");
    assert!(commands::list_patients(&state, &store).expect("list again").is_empty());
}

#[test]
fn data_commands_without_session_fail_with_auth() {
    let state = AppState::new();
    let mut store = PatientStore::new();
    let listed = commands::list_patients(&state, &store);
    assert!(matches!(listed, Err(AppError::Auth(_))));
    let created = commands::create_patient(&state, &mut store, &sample_input("A", "B"));
    assert!(matches!(created, Err(AppError::Auth(_))));
    let deleted = commands::delete_patient(&state, &mut store, "any");
    assert!(matches!(deleted, Err(AppError::Auth(_))));
}

#[test]
fn opening_second_profile_replaces_session() {
    let mut state = AppState::new();
    let mut catalog = Vec::new();
    let a = new_profile(&mut catalog, "Alice", "pw-a");
    let b = new_profile(&mut catalog, "Bob", "pw-b");
    commands::open_profile(&mut state, &catalog, &a.id, "pw-a").expect("open first");
    commands::open_profile(&mut state, &catalog, &b.id, "pw-b").expect("open second");
    let active = state.get_active_profile().expect("active");
    assert_eq!(active.id, b.id);
    assert_eq!(active.db_path, b.db_path);
    assert_ne!(active.db_path, a.db_path);
    // Data commands now run against the second profile's store.
    let mut store_b = PatientStore::new();
    let created = commands::create_patient(&state, &mut store_b, &sample_input("C", "D"))
        .expect("create on second");
    assert_eq!(commands::list_patients(&state, &store_b).expect("list")[0].id, created.id);
}

#[test]
fn blank_name_or_password_fails_validation_without_touching_catalog() {
    let mut catalog = Vec::new();
    let r1 = create_profile(&mut catalog, "/tmp/appdata", "   ", "pw");
    assert!(matches!(r1, Err(AppError::Validation(_))));
    let r2 = create_profile(&mut catalog, "/tmp/appdata", "Alice", " \t\n ");
    assert!(matches!(r2, Err(AppError::Validation(_))));
    assert!(catalog.is_empty());
}

#[test]
fn validate_profile_input_checks_blankness() {
    assert!(validate_profile_input("Alice", "pw").is_ok());
    assert!(matches!(validate_profile_input("  \t ", "pw"), Err(AppError::Validation(_))));
    assert!(matches!(validate_profile_input("Alice", " \n"), Err(AppError::Validation(_))));
}

#[test]
fn created_profile_carries_trimmed_name_and_fresh_identity() {
    let mut catalog = Vec::new();
    let p = create_profile(&mut catalog, "/tmp/appdata", "  Alice  ", "pw").expect("create");
    assert_eq!(p.name, "Alice");
    assert_eq!(p.id.len(), 36);
    assert!(!p.created_at.is_empty());
    assert_eq!(p.db_path, format!("/tmp/appdata/profiles/{}/profile.db", p.id));
    assert_eq!(catalog.len(), 1);
    assert_eq!(catalog[0].id, p.id);
}

#[test]
fn key_pragma_statement_is_exact_hex() {
    let key: Vec<u8> = vec![0x00, 0xab, 0xff, 0x10];
    let stmt = key_pragma_statement(&key);
    assert_eq!(stmt, "PRAGMA key = \"x'00abff10'\";");
}

#[test]
fn derived_key_feeds_pragma_of_expected_width() {
    let mut catalog = Vec::new();
    let p = new_profile(&mut catalog, "Alice", "pw");
    let key = credential::derive_key(&p, "pw").expect("derive");
    let stmt = key_pragma_statement(&key);
    // 16 fixed characters before the hex, 64 hex digits, 3 after.
    assert_eq!(stmt.len(), 16 + 64 + 3);
}

#[test]
fn malformed_salt_is_a_config_fault() {
    let mut catalog = Vec::new();
    let mut p = new_profile(&mut catalog, "Alice", "pw");
    p.key_salt_b64 = "!!! not base64 !!!".to_string();
    let r = credential::derive_key(&p, "pw");
    assert!(matches!(r, Err(AppError::Config(_))));
}

#[test]
fn malformed_hash_is_a_config_fault() {
    let mut catalog = Vec::new();
    let mut p = new_profile(&mut catalog, "Alice", "pw");
    p.password_hash = "not a phc string".to_string();
    let r = credential::verify_password(&p, "pw");
    assert!(matches!(r, Err(AppError::Config(_))));
}

#[test]
fn out_of_bound_params_are_a_config_fault() {
    let mut catalog = Vec::new();
    let mut p = new_profile(&mut catalog, "Alice", "pw");
    p.argon2_params.m_cost = 0;
    assert!(matches!(credential::verify_password(&p, "pw"), Err(AppError::Config(_))));
    assert!(matches!(credential::derive_key(&p, "pw"), Err(AppError::Config(_))));
}

#[test]
fn open_unknown_profile_is_not_found() {
    let mut state = AppState::new();
    let mut catalog = Vec::new();
    new_profile(&mut catalog, "Alice", "pw");
    let r = commands::open_profile(&mut state, &catalog, "missing-id", "pw");
    assert!(matches!(r, Err(AppError::NotFound(_))));
    assert!(state.get_active_profile().is_err());
}

#[test]
fn open_with_wrong_password_is_auth_and_leaves_session_closed() {
    let mut state = AppState::new();
    let mut catalog = Vec::new();
    let p = new_profile(&mut catalog, "Alice", "pw");
    let r = commands::open_profile(&mut state, &catalog, &p.id, "other");
    assert!(matches!(r, Err(AppError::Auth(_))));
    assert!(state.get_active_profile().is_err());
}

#[test]
fn summaries_expose_no_secret_material() {
    let mut catalog = Vec::new();
    let p = new_profile(&mut catalog, "Alice", "pw");
    let s = p.summary();
    assert_eq!(s.id, p.id);
    assert_eq!(s.name, "Alice");
    assert_eq!(s.created_at, p.created_at);
    let all = list_profiles(&catalog);
    assert_eq!(all.len(), 1);
    assert_eq!(all[0].id, p.id);
}

#[test]
fn find_profile_index_locates_first_match() {
    let mut catalog = Vec::new();
    let a = new_profile(&mut catalog, "Alice", "pw");
    let b = new_profile(&mut catalog, "Bob", "pw");
    assert_eq!(find_profile_index(&catalog, &a.id), Some(0));
    assert_eq!(find_profile_index(&catalog, &b.id), Some(1));
    assert_eq!(find_profile_index(&catalog, "nope"), None);
}

#[test]
fn get_patient_finds_existing_and_misses_absent() {
    let mut store = PatientStore::new();
    let created = store.create_patient(&sample_input("A", "B"));
    let found = store.get_patient(&created.id).expect("found");
    assert_eq!(found.id, created.id);
    assert_eq!(found.first_name, "A");
    assert!(store.get_patient("absent").is_none());
}

#[test]
fn error_message_carries_payload() {
    let e = AppError::Auth("no profile is open".to_string());
    assert_eq!(e.message(), "no profile is open");
    let v = AppError::Validation("a profile name is required".to_string());
    assert_eq!(v.message(), "a profile name is required");
}

#[test]
fn authenticate_profile_yields_session_without_installing_it() {
    let state = AppState::new();
    let mut catalog = Vec::new();
    let p = new_profile(&mut catalog, "Alice", "pw");
    let session = commands::authenticate_profile(&catalog, &p.id, "pw").expect("authenticate");
    assert_eq!(session.id, p.id);
    assert_eq!(session.db_path, p.db_path);
    assert_eq!(session.key, credential::derive_key(&p, "pw").expect("derive"));
    assert!(state.get_active_profile().is_err());
}
