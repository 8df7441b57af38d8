//! The login page: checking the form before a login, the error it shows,
//! and the profile summary once signed in.
use vstd::prelude::*;
use crate::text::{owned, trimmed, trim};

verus! {

/// What is wrong with the form, if anything: a username of whitespace only,
/// then an empty password.
pub open spec fn form_problem(username: Seq<char>, password: Seq<char>) -> Option<Seq<char>> {
    if trimmed(username).len() == 0 {
        Some("Введите имя пользователя"@)
    } else if password.len() == 0 {
        Some("Введите пароль"@)
    } else {
        None
    }
}

/// Checks the login form; a login is started only when nothing is wrong.
pub fn credentials_problem(username: &str, password: &str) -> (p: Option<&'static str>)
    ensures
        match p {
            Some(m) => form_problem(username@, password@) == Some(m@),
            None => form_problem(username@, password@) is None,
        },
{
    let u = trim(username);
    if u.as_str().is_empty() {
        Some("Введите имя пользователя")
    } else if password.is_empty() {
        Some("Введите пароль")
    } else {
        None
    }
}

/// The error the page shows: the form's own, else the last login's; none
/// while a login is running or when there is neither.
pub fn error_to_show(local: &str, last_login: &str, loading: bool) -> (shown: Option<String>)
    ensures
        shown is None <==> (loading || (local@.len() == 0 && last_login@.len() == 0)),
        shown matches Some(m) ==> m@ == if local@.len() > 0 {
            local@
        } else {
            last_login@
        },
{
    if loading || (local.is_empty() && last_login.is_empty()) {
        None
    } else if !local.is_empty() {
        Some(owned(local))
    } else {
        Some(owned(last_login))
    }
}

/// The caption of the login button.
pub fn login_button_text(logging_in: bool) -> (t: &'static str)
    ensures
        t@ == if logging_in {
            "Вход…"@
        } else {
            "Войти"@
        },
{
    if logging_in {
        "Вход…"
    } else {
        "Войти"
    }
}

/// Whether the session is kept: the remember flag is stored as `true`.
pub fn session_note(remember: Option<&str>) -> (t: &'static str)
    ensures
        t@ == if remember matches Some(v) && v@ == "true"@ {
            "Сессия сохранена"@
        } else {
            "Сессия не сохранена"@
        },
{
    let kept = match remember {
        Some(v) => {
            let a = owned(v);
            let t = owned("true");
            a == t
        },
        None => false,
    };
    if kept {
        "Сессия сохранена"
    } else {
        "Сессия не сохранена"
    }
}

/// The class line of the profile, shown only for a known class.
pub fn class_line(label: &str) -> (line: Option<String>)
    ensures
        line is None <==> label@.len() == 0,
        line matches Some(l) ==> l@ == "Класс: "@ + label@,
{
    if label.is_empty() {
        None
    } else {
        let mut l = owned("Класс: ");
        l.append(label);
        Some(l)
    }
}

} // verus!
