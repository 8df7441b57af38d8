use eschool::features::auth::{
    accent_color, blank_session, start_lock, forget_session, has_session_token, login_error_message, get_stored_ids, get_token, keep_renewing, on_refreshed, on_relogged,
    record_login, relogin_step, save_token, store_ids, try_refresh_token, RenewalStep,
    PASSWORD_KEY, REFRESH_KEY, REMEMBER_KEY, TOKEN_KEY, USERNAME_KEY,
};
use eschool::features::secure::SecureStore;
use eschool::api::auth::Token;

fn token(a: &str, r: &str) -> Token {
    Token { access_token: a.to_string(), refresh_token: r.to_string() }
}

#[test]
fn store_reads_back_what_was_saved() {
    let mut s = SecureStore::new();
    assert_eq!(s.load("k"), None);
    s.save("k", "v1");
    assert_eq!(s.load("k"), Some("v1".to_string()));
    s.save("k", "v2");
    assert_eq!(s.load("k"), Some("v2".to_string()));
    assert_eq!(s.pairs().len(), 1);
    s.save("other", "x");
    assert_eq!(s.pairs().len(), 2);
    s.delete("k");
    assert_eq!(s.load("k"), None);
    assert_eq!(s.load("other"), Some("x".to_string()));
    s.delete("missing");
    assert_eq!(s.pairs().len(), 1);
}

#[test]
fn ids_read_back() {
    let mut s = SecureStore::new();
    assert_eq!(get_stored_ids(&s), (String::new(), String::new(), String::new()));
    store_ids(&mut s, "S", "C", "P", "Иван", "Школа");
    assert_eq!(get_stored_ids(&s), ("S".to_string(), "C".to_string(), "P".to_string()));
    assert_eq!(s.load("auth.full_name"), Some("Иван".to_string()));
    assert_eq!(s.load("auth.school_name"), Some("Школа".to_string()));
}

#[test]
fn tokens_are_saved_under_their_keys() {
    let mut s = SecureStore::new();
    assert_eq!(get_token(&s), None);
    save_token(&mut s, "acc", "ref");
    assert_eq!(get_token(&s), Some("acc".to_string()));
    assert_eq!(s.load(REFRESH_KEY), Some("ref".to_string()));
    assert_eq!(TOKEN_KEY, "auth.token");
}

#[test]
fn login_remembers_credentials_on_request() {
    let mut s = SecureStore::new();
    record_login(&mut s, &token("a", "r"), "user", "pw", true);
    assert_eq!(s.load(USERNAME_KEY), Some("user".to_string()));
    assert_eq!(s.load(PASSWORD_KEY), Some("pw".to_string()));
    assert_eq!(s.load(REMEMBER_KEY), Some("true".to_string()));
    record_login(&mut s, &token("a2", "r2"), "user", "pw", false);
    assert_eq!(s.load(USERNAME_KEY), None);
    assert_eq!(s.load(PASSWORD_KEY), None);
    assert_eq!(s.load(REMEMBER_KEY), Some("false".to_string()));
    assert_eq!(get_token(&s), Some("a2".to_string()));
}

#[test]
fn forgotten_session_has_no_token() {
    let mut s = SecureStore::new();
    record_login(&mut s, &token("a", "r"), "user", "pw", true);
    store_ids(&mut s, "S", "C", "P", "N", "SN");
    s.save("unrelated", "kept");
    forget_session(&mut s);
    assert_eq!(get_token(&s), None);
    assert_eq!(s.load(REFRESH_KEY), None);
    assert_eq!(get_stored_ids(&s), (String::new(), String::new(), String::new()));
    assert_eq!(s.load("unrelated"), Some("kept".to_string()));
    assert!(!keep_renewing(&s));
}

#[test]
fn renewal_prefers_the_refresh_token() {
    let mut s = SecureStore::new();
    save_token(&mut s, "old", "R");
    match try_refresh_token(&s) {
        RenewalStep::Refresh(r) => assert_eq!(r, "R"),
        other => panic!("unexpected {:?}", other),
    }
}

#[test]
fn renewal_falls_back_to_remembered_credentials() {
    let mut s = SecureStore::new();
    s.save(USERNAME_KEY, "user");
    s.save(PASSWORD_KEY, "pw");
    s.save(REMEMBER_KEY, "true");
    match try_refresh_token(&s) {
        RenewalStep::Login { username, password } => {
            assert_eq!(username, "user");
            assert_eq!(password, "pw");
        }
        other => panic!("unexpected {:?}", other),
    }
    s.save(REMEMBER_KEY, "false");
    assert!(matches!(relogin_step(&s), RenewalStep::Done(None)));
}

#[test]
fn renewal_without_anything_needs_manual_login() {
    let s = SecureStore::new();
    assert!(matches!(try_refresh_token(&s), RenewalStep::Done(None)));
}

#[test]
fn successful_refresh_is_stored() {
    let mut s = SecureStore::new();
    save_token(&mut s, "old", "R");
    let step = on_refreshed(&mut s, Ok(("new".to_string(), "R2".to_string())));
    match step {
        RenewalStep::Done(Some(t)) => assert_eq!(t, "new"),
        other => panic!("unexpected {:?}", other),
    }
    assert_eq!(get_token(&s), Some("new".to_string()));
    assert_eq!(s.load(REFRESH_KEY), Some("R2".to_string()));
    assert!(keep_renewing(&s));
}

#[test]
fn failed_refresh_changes_nothing() {
    let mut s = SecureStore::new();
    save_token(&mut s, "old", "R");
    let step = on_refreshed(&mut s, Err("Refresh failed (HTTP 401): x".to_string()));
    assert!(matches!(step, RenewalStep::Done(None)));
    assert_eq!(get_token(&s), Some("old".to_string()));
}

#[test]
fn relogin_outcomes() {
    let mut s = SecureStore::new();
    let step = on_relogged(&mut s, Ok(token("A", "B")));
    assert!(matches!(step, RenewalStep::Done(Some(ref t)) if t == "A"));
    assert_eq!(get_token(&s), Some("A".to_string()));
    let step = on_relogged(&mut s, Err("bad".to_string()));
    assert!(matches!(step, RenewalStep::Done(None)));
    assert_eq!(get_token(&s), Some("A".to_string()));
}

#[test]
fn desktop_logout_blanks_the_session() {
    let mut s = SecureStore::new();
    record_login(&mut s, &token("a", "r"), "user", "pw", true);
    store_ids(&mut s, "S", "C", "P", "N", "SN");
    blank_session(&mut s);
    assert_eq!(get_token(&s), Some(String::new()));
    assert_eq!(get_stored_ids(&s), (String::new(), String::new(), String::new()));
    assert_eq!(s.load(USERNAME_KEY), Some("user".to_string()));
}

#[test]
fn login_failure_message() {
    assert_eq!(login_error_message("Step 1: timeout"), "Ошибка входа: Step 1: timeout");
}

#[test]
fn signed_in_needs_a_non_empty_token() {
    let mut s = SecureStore::new();
    assert!(!has_session_token(&s));
    save_token(&mut s, "t", "r");
    assert!(has_session_token(&s));
    blank_session(&mut s);
    assert!(!has_session_token(&s));
}

#[test]
fn saved_accent_colour() {
    assert_eq!(accent_color(Some("16711680"), 7), 16711680);
    assert_eq!(accent_color(Some("red"), 7), 7);
    assert_eq!(accent_color(None, 7), 7);
}

#[test]
fn start_up_locks() {
    let mut s = SecureStore::new();
    let l = start_lock(&s, true, true, true);
    assert!(!l.signed_in && !l.pin_lock && !l.biometric_lock);
    save_token(&mut s, "t", "r");
    let l = start_lock(&s, false, true, false);
    assert!(l.signed_in && !l.pin_lock && !l.biometric_lock);
    let l = start_lock(&s, true, true, false);
    assert!(!l.signed_in && l.biometric_lock && !l.pin_lock);
    let l = start_lock(&s, true, false, true);
    assert!(!l.signed_in && l.pin_lock && !l.biometric_lock);
}
