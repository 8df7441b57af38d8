//! Credentials of the signed-in student: what is stored, and how an expired
//! token is renewed (refresh token first, then remembered credentials).
use vstd::prelude::*;
use crate::api::auth::Token;
use crate::features::secure::SecureStore;
use crate::text::{owned, parse_u32, parsed_u32};

verus! {

pub const TOKEN_KEY: &'static str = "auth.token";
pub const REFRESH_KEY: &'static str = "auth.refresh_token";
pub const SCHOOL_ID_KEY: &'static str = "auth.school_id";
pub const PROFILE_ID_KEY: &'static str = "auth.profile_id";
pub const CLASS_ID_KEY: &'static str = "auth.class_id";
pub const FULL_NAME_KEY: &'static str = "auth.full_name";
pub const SCHOOL_NAME_KEY: &'static str = "auth.school_name";
pub const USERNAME_KEY: &'static str = "auth.username";
pub const PASSWORD_KEY: &'static str = "auth.password";
pub const REMEMBER_KEY: &'static str = "auth.remember_me";

/// What a store holds under `key`.
pub open spec fn stored(m: Map<Seq<char>, Seq<char>>, key: Seq<char>) -> Option<Seq<char>> {
    if m.contains_key(key) {
        Some(m[key])
    } else {
        None
    }
}

/// What a store holds under `key`, or the empty string.
pub open spec fn stored_or_empty(m: Map<Seq<char>, Seq<char>>, key: Seq<char>) -> Seq<char> {
    if m.contains_key(key) {
        m[key]
    } else {
        Seq::empty()
    }
}

/// The view of an optional string.
pub open spec fn opt_chars(o: Option<String>) -> Option<Seq<char>> {
    match o {
        Some(s) => Some(s@),
        None => None,
    }
}

/// The stored access token.
pub fn get_token(store: &SecureStore) -> (t: Option<String>)
    ensures
        opt_chars(t) == stored(store@, TOKEN_KEY@),
{
    store.load(TOKEN_KEY)
}

fn load_or_empty(store: &SecureStore, key: &str) -> (v: String)
    ensures
        v@ == stored_or_empty(store@, key@),
{
    match store.load(key) {
        Some(v) => v,
        None => String::new(),
    }
}

/// The stored school, class and profile identifiers (empty when absent).
pub fn get_stored_ids(store: &SecureStore) -> (ids: (String, String, String))
    ensures
        ids.0@ == stored_or_empty(store@, SCHOOL_ID_KEY@),
        ids.1@ == stored_or_empty(store@, CLASS_ID_KEY@),
        ids.2@ == stored_or_empty(store@, PROFILE_ID_KEY@),
{
    (
        load_or_empty(store, SCHOOL_ID_KEY),
        load_or_empty(store, CLASS_ID_KEY),
        load_or_empty(store, PROFILE_ID_KEY),
    )
}

/// Stores the identifiers and names of the signed-in student.
pub fn store_ids(
    store: &mut SecureStore,
    school_id: &str,
    class_id: &str,
    profile_id: &str,
    full_name: &str,
    school_name: &str,
)
    ensures
        final(store)@ == old(store)@.insert(SCHOOL_ID_KEY@, school_id@).insert(CLASS_ID_KEY@, class_id@)
            .insert(PROFILE_ID_KEY@, profile_id@).insert(FULL_NAME_KEY@, full_name@).insert(
            SCHOOL_NAME_KEY@,
            school_name@,
        ),
{
    store.save(SCHOOL_ID_KEY, school_id);
    store.save(CLASS_ID_KEY, class_id);
    store.save(PROFILE_ID_KEY, profile_id);
    store.save(FULL_NAME_KEY, full_name);
    store.save(SCHOOL_NAME_KEY, school_name);
}

/// Stores a token pair.
pub fn save_token(store: &mut SecureStore, access: &str, refresh: &str)
    ensures
        final(store)@ == old(store)@.insert(TOKEN_KEY@, access@).insert(REFRESH_KEY@, refresh@),
{
    store.save(TOKEN_KEY, access);
    store.save(REFRESH_KEY, refresh);
}

/// Records a successful login: the token pair, and the credentials when the
/// student asked to be remembered (otherwise they are forgotten).
pub fn record_login(store: &mut SecureStore, token: &Token, username: &str, password: &str, remember: bool)
    ensures
        ({
            let with_tokens = old(store)@.insert(TOKEN_KEY@, token.access_token@).insert(
                REFRESH_KEY@,
                token.refresh_token@,
            );
            final(store)@ == if remember {
                with_tokens.insert(USERNAME_KEY@, username@).insert(PASSWORD_KEY@, password@).insert(
                    REMEMBER_KEY@,
                    "true"@,
                )
            } else {
                with_tokens.remove(USERNAME_KEY@).remove(PASSWORD_KEY@).insert(REMEMBER_KEY@, "false"@)
            }
        }),
{
    save_token(store, token.access_token.as_str(), token.refresh_token.as_str());
    if remember {
        store.save(USERNAME_KEY, username);
        store.save(PASSWORD_KEY, password);
        store.save(REMEMBER_KEY, "true");
    } else {
        store.delete(USERNAME_KEY);
        store.delete(PASSWORD_KEY);
        store.save(REMEMBER_KEY, "false");
    }
}

/// Forgets everything a session stored: tokens, identifiers, names and
/// remembered credentials.
pub fn forget_session(store: &mut SecureStore)
    ensures
        final(store)@ == old(store)@.remove(TOKEN_KEY@).remove(REFRESH_KEY@).remove(SCHOOL_ID_KEY@)
            .remove(PROFILE_ID_KEY@).remove(CLASS_ID_KEY@).remove(FULL_NAME_KEY@).remove(
            SCHOOL_NAME_KEY@,
        ).remove(USERNAME_KEY@).remove(PASSWORD_KEY@).remove(REMEMBER_KEY@),
{
    store.delete(TOKEN_KEY);
    store.delete(REFRESH_KEY);
    store.delete(SCHOOL_ID_KEY);
    store.delete(PROFILE_ID_KEY);
    store.delete(CLASS_ID_KEY);
    store.delete(FULL_NAME_KEY);
    store.delete(SCHOOL_NAME_KEY);
    store.delete(USERNAME_KEY);
    store.delete(PASSWORD_KEY);
    store.delete(REMEMBER_KEY);
}

/// Blanks the stored session of the desktop state: tokens, identifiers and
/// names are set to empty text (remembered credentials are kept).
pub fn blank_session(store: &mut SecureStore)
    ensures
        final(store)@ == old(store)@.insert(TOKEN_KEY@, ""@).insert(REFRESH_KEY@, ""@).insert(
            SCHOOL_ID_KEY@,
            ""@,
        ).insert(PROFILE_ID_KEY@, ""@).insert(CLASS_ID_KEY@, ""@).insert(FULL_NAME_KEY@, ""@).insert(
            SCHOOL_NAME_KEY@,
            ""@,
        ),
{
    store.save(TOKEN_KEY, "");
    store.save(REFRESH_KEY, "");
    store.save(SCHOOL_ID_KEY, "");
    store.save(PROFILE_ID_KEY, "");
    store.save(CLASS_ID_KEY, "");
    store.save(FULL_NAME_KEY, "");
    store.save(SCHOOL_NAME_KEY, "");
}

/// The message shown when a login fails: `Ошибка входа: ` and why.
pub fn login_error_message(error: &str) -> (m: String)
    ensures
        m@ == "Ошибка входа: "@ + error@,
{
    let mut m = owned("Ошибка входа: ");
    m.append(error);
    m
}

/// Whether the desktop state starts signed in: a non-empty token is stored.
pub fn has_session_token(store: &SecureStore) -> (signed_in: bool)
    ensures
        signed_in == (stored(store@, TOKEN_KEY@) matches Some(t) && t.len() > 0),
{
    match store.load(TOKEN_KEY) {
        Some(t) => !t.as_str().is_empty(),
        None => false,
    }
}

/// The accent colour to start with: the saved one when it reads as a
/// number, else `default`.
pub fn accent_color(saved: Option<&str>, default: u32) -> (c: u32)
    ensures
        c == match saved {
            Some(v) => match parsed_u32(v@) {
                Some(n) => n,
                None => default,
            },
            None => default,
        },
{
    match saved {
        Some(v) => match parse_u32(v) {
            Some(n) => n,
            None => default,
        },
        None => default,
    }
}

/// How the application starts: signed in, or held by a lock first.
#[derive(Debug, Clone, Copy, PartialEq, Eq, Structural)]
pub struct StartLock {
    /// Signed in at once: a token is stored and no lock holds.
    pub signed_in: bool,
    /// The PIN lock screen is shown.
    pub pin_lock: bool,
    /// Face ID / Touch ID is asked for.
    pub biometric_lock: bool,
}

/// The start-up lock: with a stored token, an available and enabled
/// biometric check locks, and so does an enabled PIN; the student is signed
/// in at once only with a token and no lock.
pub fn start_lock(store: &SecureStore, biometric_available: bool, biometric_enabled: bool, pin_enabled: bool) -> (l: StartLock)
    ensures
        l.biometric_lock == (store@.contains_key(TOKEN_KEY@) && biometric_available && biometric_enabled),
        l.pin_lock == (store@.contains_key(TOKEN_KEY@) && pin_enabled),
        l.signed_in == (store@.contains_key(TOKEN_KEY@) && !(l.biometric_lock || l.pin_lock)),
{
    let has_token = store.load(TOKEN_KEY).is_some();
    let biometric_lock = has_token && biometric_available && biometric_enabled;
    let pin_lock = has_token && pin_enabled;
    StartLock { signed_in: has_token && !(biometric_lock || pin_lock), pin_lock, biometric_lock }
}

// ── token renewal ────────────────────────────────────────────────────────

/// What a token renewal asks for next.
#[derive(Debug, Clone)]
pub enum RenewalStep {
    /// Renew with this refresh token, then call `on_refreshed`.
    Refresh(String),
    /// Log in again with these credentials, then call `on_relogged`.
    Login { username: String, password: String },
    /// Renewal is over: the new access token, or none (manual login needed).
    Done(Option<String>),
}

/// The credentials to log in again with: the store must say it remembers
/// them (`"true"`) and hold both.
pub open spec fn relogin_credentials(m: Map<Seq<char>, Seq<char>>) -> Option<(Seq<char>, Seq<char>)> {
    if stored(m, REMEMBER_KEY@) == Some("true"@) && m.contains_key(USERNAME_KEY@) && m.contains_key(
        PASSWORD_KEY@,
    ) {
        Some((m[USERNAME_KEY@], m[PASSWORD_KEY@]))
    } else {
        None
    }
}

/// `step` is the fall-back once the refresh token is of no use.
pub open spec fn falls_back(m: Map<Seq<char>, Seq<char>>, step: RenewalStep) -> bool {
    match relogin_credentials(m) {
        Some((u, p)) => {
            &&& step matches RenewalStep::Login { username, password }
            &&& username@ == u
            &&& password@ == p
        },
        None => step == RenewalStep::Done(None),
    }
}

/// Starts renewing the access token: with the stored refresh token when
/// there is one, else with remembered credentials, else not at all.
pub fn try_refresh_token(store: &SecureStore) -> (step: RenewalStep)
    ensures
        match stored(store@, REFRESH_KEY@) {
            Some(r) => step matches RenewalStep::Refresh(t) && t@ == r,
            None => falls_back(store@, step),
        },
{
    match store.load(REFRESH_KEY) {
        Some(r) => RenewalStep::Refresh(r),
        None => relogin_step(store),
    }
}

/// The step once the refresh token is of no use.
pub fn relogin_step(store: &SecureStore) -> (step: RenewalStep)
    ensures
        falls_back(store@, step),
{
    let remembered = match store.load(REMEMBER_KEY) {
        Some(v) => {
            let t = owned("true");
            v == t
        },
        None => false,
    };
    if remembered {
        match (store.load(USERNAME_KEY), store.load(PASSWORD_KEY)) {
            (Some(u), Some(p)) => RenewalStep::Login { username: u, password: p },
            _ => RenewalStep::Done(None),
        }
    } else {
        RenewalStep::Done(None)
    }
}

/// Continues after a refresh: a new pair is stored and its access token
/// returned; a failure falls back to remembered credentials.
pub fn on_refreshed(store: &mut SecureStore, result: Result<(String, String), String>) -> (step: RenewalStep)
    ensures
        match result {
            Ok((a, r)) => {
                &&& final(store)@ == old(store)@.insert(TOKEN_KEY@, a@).insert(REFRESH_KEY@, r@)
                &&& step matches RenewalStep::Done(Some(t)) && t@ == a@
            },
            Err(_) => final(store)@ == old(store)@ && falls_back(old(store)@, step),
        },
{
    match result {
        Ok((a, r)) => {
            save_token(store, a.as_str(), r.as_str());
            RenewalStep::Done(Some(a))
        },
        Err(_) => relogin_step(store),
    }
}

/// Continues after logging in again: the new pair is stored and its access
/// token returned; a failure ends renewal without a token.
pub fn on_relogged(store: &mut SecureStore, result: Result<Token, String>) -> (step: RenewalStep)
    ensures
        match result {
            Ok(t) => {
                &&& final(store)@ == old(store)@.insert(TOKEN_KEY@, t.access_token@).insert(
                    REFRESH_KEY@,
                    t.refresh_token@,
                )
                &&& step matches RenewalStep::Done(Some(a)) && a@ == t.access_token@
            },
            Err(_) => final(store)@ == old(store)@ && step == RenewalStep::Done(None),
        },
{
    match result {
        Ok(t) => {
            save_token(store, t.access_token.as_str(), t.refresh_token.as_str());
            RenewalStep::Done(Some(t.access_token))
        },
        Err(_) => RenewalStep::Done(None),
    }
}

/// Whether the background renewal keeps running: only while a token is
/// stored.
pub fn keep_renewing(store: &SecureStore) -> (go_on: bool)
    ensures
        go_on == store@.contains_key(TOKEN_KEY@),
{
    store.load(TOKEN_KEY).is_some()
}

// ── laws ─────────────────────────────────────────────────────────────────

/// After a successful renewal, the stored token is the one handed back.
pub proof fn law_renewed_token_is_stored(before: Map<Seq<char>, Seq<char>>, a: Seq<char>, r: Seq<char>)
    ensures
        stored(before.insert(TOKEN_KEY@, a).insert(REFRESH_KEY@, r), TOKEN_KEY@) == Some(a),
        stored(before.insert(TOKEN_KEY@, a).insert(REFRESH_KEY@, r), REFRESH_KEY@) == Some(r),
{
    reveal_strlit("auth.token");
    reveal_strlit("auth.refresh_token");
    assert(TOKEN_KEY@ != REFRESH_KEY@) by {
        assert(TOKEN_KEY@.len() != REFRESH_KEY@.len());
    }
}

/// Identifiers read back after storing them are the ones stored.
pub proof fn law_ids_read_back(
    before: Map<Seq<char>, Seq<char>>,
    school_id: Seq<char>,
    class_id: Seq<char>,
    profile_id: Seq<char>,
    full_name: Seq<char>,
    school_name: Seq<char>,
)
    ensures
        ({
            let after = before.insert(SCHOOL_ID_KEY@, school_id).insert(CLASS_ID_KEY@, class_id).insert(
                PROFILE_ID_KEY@,
                profile_id,
            ).insert(FULL_NAME_KEY@, full_name).insert(SCHOOL_NAME_KEY@, school_name);
            &&& stored_or_empty(after, SCHOOL_ID_KEY@) == school_id
            &&& stored_or_empty(after, CLASS_ID_KEY@) == class_id
            &&& stored_or_empty(after, PROFILE_ID_KEY@) == profile_id
        }),
{
    reveal_strlit("auth.school_id");
    reveal_strlit("auth.class_id");
    reveal_strlit("auth.profile_id");
    reveal_strlit("auth.full_name");
    reveal_strlit("auth.school_name");
    assert(SCHOOL_ID_KEY@ != CLASS_ID_KEY@ && SCHOOL_ID_KEY@ != PROFILE_ID_KEY@ && SCHOOL_ID_KEY@
        != FULL_NAME_KEY@ && SCHOOL_ID_KEY@ != SCHOOL_NAME_KEY@) by {
        assert(SCHOOL_ID_KEY@[5] != CLASS_ID_KEY@[5]);
        assert(SCHOOL_ID_KEY@[5] != PROFILE_ID_KEY@[5]);
        assert(SCHOOL_ID_KEY@[5] != FULL_NAME_KEY@[5]);
        assert(SCHOOL_ID_KEY@.len() != SCHOOL_NAME_KEY@.len());
    }
    assert(CLASS_ID_KEY@ != PROFILE_ID_KEY@ && CLASS_ID_KEY@ != FULL_NAME_KEY@ && CLASS_ID_KEY@
        != SCHOOL_NAME_KEY@) by {
        assert(CLASS_ID_KEY@[5] != PROFILE_ID_KEY@[5]);
        assert(CLASS_ID_KEY@[5] != FULL_NAME_KEY@[5]);
        assert(CLASS_ID_KEY@[5] != SCHOOL_NAME_KEY@[5]);
    }
    assert(PROFILE_ID_KEY@ != FULL_NAME_KEY@ && PROFILE_ID_KEY@ != SCHOOL_NAME_KEY@) by {
        assert(PROFILE_ID_KEY@[5] != FULL_NAME_KEY@[5]);
        assert(PROFILE_ID_KEY@[5] != SCHOOL_NAME_KEY@[5]);
    }
}

/// Once a session is forgotten, no token is stored.
pub proof fn law_forgotten_session_has_no_token(before: Map<Seq<char>, Seq<char>>)
    ensures
        stored(
            before.remove(TOKEN_KEY@).remove(REFRESH_KEY@).remove(SCHOOL_ID_KEY@).remove(
                PROFILE_ID_KEY@,
            ).remove(CLASS_ID_KEY@).remove(FULL_NAME_KEY@).remove(SCHOOL_NAME_KEY@).remove(
                USERNAME_KEY@,
            ).remove(PASSWORD_KEY@).remove(REMEMBER_KEY@),
            TOKEN_KEY@,
        ) is None,
{
}

} // verus!
