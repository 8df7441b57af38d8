use eschool::api::auth::AuthResponse;
use eschool::api::login::{
    byte_prefix_300, char_prefix_300, resolve_against, HttpRequest, LoginData, LoginFlow, Method,
    Outcome, Reply, ReplyKind, Stage, Variant,
};

fn sent(out: Outcome) -> HttpRequest {
    match out {
        Outcome::Send(r) => r,
        Outcome::Finished(f) => panic!("flow ended early: {:?}", f),
    }
}

fn failure(out: Outcome) -> String {
    match out {
        Outcome::Finished(Err(e)) => e,
        other => panic!("expected a failure, got {:?}", other),
    }
}

fn redirect(to: &str) -> Reply {
    Reply::Redirect { location: Some(to.to_string()), body: String::new() }
}

const LOGIN_HTML: &str = r#"<form><input name="Input.ReturnUrl" value="/connect/authorize?a=1&amp;b=2"><input name="__RequestVerificationToken" type="hidden" value="CSRF-123"></form>"#;

/// Runs a flow up to the stage that waits for the credentials redirect.
fn at_credentials(variant: Variant) -> LoginFlow {
    let (flow, _) = LoginFlow::start(variant, "user", "pass");
    let (flow, _) = flow.advance(redirect("/Account/Login?ReturnUrl=x"));
    let (flow, _) = flow.advance(Reply::Page(Ok(LOGIN_HTML.to_string())));
    flow
}

#[test]
fn full_login_flow() {
    let (flow, req) = LoginFlow::start(Variant::Client, "user", "pass");
    assert_eq!(flow.stage, Stage::LoginRedirect);
    assert_eq!(req.method, Method::Get);
    assert_eq!(req.url, "https://diary.e-schools.by/api/v1/admin/auth/login/student");
    assert_eq!(req.read, ReplyKind::Redirect);
    assert!(req.referer.is_none() && req.form.is_empty());

    let (flow, out) = flow.advance(redirect("/Account/Login?ReturnUrl=x"));
    let req = sent(out);
    assert_eq!(flow.stage, Stage::LoginPage);
    assert_eq!(req.url, "https://oauth.rios.unibel.by/Account/Login?ReturnUrl=x");
    assert_eq!(req.read, ReplyKind::Page);

    let (flow, out) = flow.advance(Reply::Page(Ok(LOGIN_HTML.to_string())));
    let req = sent(out);
    assert_eq!(flow.stage, Stage::CredentialsRedirect);
    assert_eq!(flow.oauth_origin, "https://oauth.rios.unibel.by");
    assert_eq!(req.method, Method::PostForm);
    assert_eq!(req.url, "https://oauth.rios.unibel.by/Account/Login");
    let form: Vec<(&str, &str)> = req.form.iter().map(|(k, v)| (k.as_str(), v.as_str())).collect();
    assert_eq!(
        form,
        vec![
            ("Input.ReturnUrl", "/connect/authorize?a=1&b=2"),
            ("Input.Username", "user"),
            ("Input.Password", "pass"),
            ("Input.Button", "login"),
            ("Input.RememberLogin", "false"),
            ("__RequestVerificationToken", "CSRF-123"),
        ]
    );

    let (flow, out) = flow.advance(redirect("/connect/authorize/callback?x=1&amp;y=2"));
    let req = sent(out);
    assert_eq!(flow.stage, Stage::CallbackRedirect);
    assert_eq!(req.url, "https://oauth.rios.unibel.by/connect/authorize/callback?x=1&y=2");
    assert_eq!(req.referer, Some("https://oauth.rios.unibel.by/".to_string()));
    assert_eq!(req.read, ReplyKind::Redirect);

    let (flow, out) = flow.advance(redirect("/api/v1/admin/auth/callback?code=abc"));
    let req = sent(out);
    assert_eq!(flow.stage, Stage::DiaryRedirect);
    assert_eq!(req.url, "https://diary.e-schools.by/api/v1/admin/auth/callback?code=abc");

    let (flow, out) = flow.advance(redirect("https://diary.e-schools.by/preauthorized?data=UUID-1&x=2"));
    let req = sent(out);
    assert_eq!(flow.stage, Stage::Profile);
    assert_eq!(req.url, "https://diary.e-schools.by/api/v1/admin/auth/data_for_login/UUID-1");
    assert_eq!(req.read, ReplyKind::Profile);

    let (flow, out) = flow.advance(Reply::Profile(Ok(LoginData {
        profile_id: Some("p1".to_string()),
        school_id: Some("s1".to_string()),
        kind: Some("Student".to_string()),
    })));
    let req = sent(out);
    assert_eq!(flow.stage, Stage::Tokens);
    assert_eq!(req.url, "https://diary.e-schools.by/api/v1/auth/login?token=cDE6czE6c3R1ZGVudA==");
    assert_eq!(req.read, ReplyKind::Tokens);

    let (flow, out) = flow.advance(Reply::Tokens(Ok(AuthResponse {
        auth_token: "A".to_string(),
        refresh_token: "R".to_string(),
    })));
    assert_eq!(flow.stage, Stage::Finished);
    match out {
        Outcome::Finished(Ok(t)) => {
            assert_eq!(t.auth_token, "A");
            assert_eq!(t.refresh_token, "R");
        }
        other => panic!("unexpected {:?}", other),
    }
}

#[test]
fn absent_kind_logs_in_as_student() {
    let flow = at_credentials(Variant::Mobile);
    let (flow, _) = flow.advance(redirect("/cb"));
    let (flow, _) = flow.advance(redirect("/d"));
    let (flow, _) = flow.advance(redirect("/preauthorized?data=U"));
    let (_, out) = flow.advance(Reply::Profile(Ok(LoginData {
        profile_id: Some("p1".to_string()),
        school_id: Some("s1".to_string()),
        kind: None,
    })));
    assert_eq!(sent(out).url, "https://diary.e-schools.by/api/v1/auth/login?token=cDE6czE6c3R1ZGVudA==");
}

#[test]
fn unsent_request_names_its_step() {
    let (flow, _) = LoginFlow::start(Variant::Desktop, "u", "p");
    let (flow, out) = flow.advance(Reply::SendFailed("connection refused".to_string()));
    assert_eq!(flow.stage, Stage::Finished);
    assert_eq!(failure(out), "Step 1: connection refused");
}

#[test]
fn first_redirect_without_location() {
    let (flow, _) = LoginFlow::start(Variant::Client, "u", "p");
    let (_, out) = flow.advance(Reply::Redirect { location: None, body: "x".to_string() });
    assert_eq!(failure(out), "Step 1: no Location header");
}

#[test]
fn unreadable_login_page() {
    let (flow, _) = LoginFlow::start(Variant::Client, "u", "p");
    let (flow, _) = flow.advance(redirect("/login"));
    let (_, out) = flow.advance(Reply::Page(Err("decode".to_string())));
    assert_eq!(failure(out), "Step 2 text: decode");
}

#[test]
fn missing_csrf_by_variant() {
    let page = "<html>no form</html>".to_string();
    let mut got = Vec::new();
    for v in [Variant::Client, Variant::Desktop, Variant::Mobile] {
        let (flow, _) = LoginFlow::start(v, "u", "p");
        let (flow, _) = flow.advance(redirect("/login"));
        let (_, out) = flow.advance(Reply::Page(Ok(page.clone())));
        got.push(failure(out));
    }
    assert_eq!(
        got,
        vec![
            "CSRF not found".to_string(),
            "CSRF not found. HTML: <html>no form</html>".to_string(),
            "CSRF token not found".to_string(),
        ]
    );
}

#[test]
fn missing_return_url() {
    let page = r#"<input name="__RequestVerificationToken" value="t">"#.to_string();
    let (flow, _) = LoginFlow::start(Variant::Desktop, "u", "p");
    let (flow, _) = flow.advance(redirect("/login"));
    let (_, out) = flow.advance(Reply::Page(Ok(page.clone())));
    assert_eq!(failure(out), format!("ReturnUrl not found. HTML: {page}"));
    let (flow, _) = LoginFlow::start(Variant::Mobile, "u", "p");
    let (flow, _) = flow.advance(redirect("/login"));
    let (_, out) = flow.advance(Reply::Page(Ok(page)));
    assert_eq!(failure(out), "ReturnUrl not found");
}

#[test]
fn credentials_rejected_without_location() {
    let body = "wrong password";
    let flow = at_credentials(Variant::Client);
    let (_, out) = flow.advance(Reply::Redirect { location: None, body: body.to_string() });
    assert_eq!(failure(out), "Step 3: no Location. Body: wrong password");
    let flow = at_credentials(Variant::Desktop);
    let (_, out) = flow.advance(Reply::Redirect { location: None, body: body.to_string() });
    assert_eq!(failure(out), "Step 3: no Location header. Body: wrong password");
    let flow = at_credentials(Variant::Mobile);
    let (_, out) = flow.advance(Reply::Redirect { location: None, body: body.to_string() });
    assert_eq!(failure(out), "Step 3: no Location header");
}

#[test]
fn callback_without_location_notes_expectation() {
    let flow = at_credentials(Variant::Desktop);
    let (flow, _) = flow.advance(redirect("/cb"));
    let (_, out) = flow.advance(Reply::Redirect { location: None, body: "b".to_string() });
    assert_eq!(failure(out), "Step 4: no Location header (expected diary callback). Body: b");
    let flow = at_credentials(Variant::Mobile);
    let (flow, _) = flow.advance(redirect("/cb"));
    let (flow, _) = flow.advance(redirect("/d"));
    let (_, out) = flow.advance(Reply::Redirect { location: None, body: "b".to_string() });
    assert_eq!(failure(out), "Step 5: no Location header (expected preauthorized)");
}

#[test]
fn long_body_is_cut_in_messages() {
    let body: String = "ж".repeat(200);
    let flow = at_credentials(Variant::Client);
    let (_, out) = flow.advance(Reply::Redirect { location: None, body: body.clone() });
    assert_eq!(failure(out), format!("Step 3: no Location. Body: {}", "ж".repeat(150)));
    let long: String = "a".repeat(400);
    let flow = at_credentials(Variant::Desktop);
    let (_, out) = flow.advance(Reply::Redirect { location: None, body: long });
    assert_eq!(failure(out), format!("Step 3: no Location header. Body: {}", "a".repeat(300)));
}

#[test]
fn missing_preauthorisation_uuid() {
    let flow = at_credentials(Variant::Client);
    let (flow, _) = flow.advance(redirect("/cb"));
    let (flow, _) = flow.advance(redirect("/d"));
    let (_, out) = flow.advance(redirect("https://diary.e-schools.by/home"));
    assert_eq!(failure(out), "UUID not found in preauth redirect");
    let flow = at_credentials(Variant::Desktop);
    let (flow, _) = flow.advance(redirect("/cb"));
    let (flow, _) = flow.advance(redirect("/d"));
    let (_, out) = flow.advance(redirect("https://diary.e-schools.by/home"));
    assert_eq!(failure(out), "UUID not found in preauth redirect: https://diary.e-schools.by/home");
}

#[test]
fn incomplete_profile() {
    let flow = at_credentials(Variant::Client);
    let (flow, _) = flow.advance(redirect("/cb"));
    let (flow, _) = flow.advance(redirect("/d"));
    let (flow, _) = flow.advance(redirect("/preauthorized?data=U"));
    let (_, out) = flow.advance(Reply::Profile(Ok(LoginData {
        profile_id: None,
        school_id: Some("s".to_string()),
        kind: None,
    })));
    assert_eq!(failure(out), "Step 6: no profile_id");
    let flow = at_credentials(Variant::Client);
    let (flow, _) = flow.advance(redirect("/cb"));
    let (flow, _) = flow.advance(redirect("/d"));
    let (flow, _) = flow.advance(redirect("/preauthorized?data=U"));
    let (_, out) = flow.advance(Reply::Profile(Ok(LoginData {
        profile_id: Some("p".to_string()),
        school_id: None,
        kind: None,
    })));
    assert_eq!(failure(out), "Step 6: no school_id");
}

#[test]
fn unparsed_profile_and_tokens() {
    let flow = at_credentials(Variant::Client);
    let (flow, _) = flow.advance(redirect("/cb"));
    let (flow, _) = flow.advance(redirect("/d"));
    let (flow, _) = flow.advance(redirect("/preauthorized?data=U"));
    let (_, out) = flow.advance(Reply::Profile(Err("expected value".to_string())));
    assert_eq!(failure(out), "Step 6 parse: expected value");
    let flow = at_credentials(Variant::Client);
    let (flow, _) = flow.advance(redirect("/cb"));
    let (flow, _) = flow.advance(redirect("/d"));
    let (flow, _) = flow.advance(redirect("/preauthorized?data=U"));
    let (flow, _) = flow.advance(Reply::Profile(Ok(LoginData {
        profile_id: Some("p".to_string()),
        school_id: Some("s".to_string()),
        kind: None,
    })));
    let (_, out) = flow.advance(Reply::Tokens(Err("missing field".to_string())));
    assert_eq!(failure(out), "Step 7 parse: missing field");
}

#[test]
fn snippets_and_resolution() {
    assert_eq!(byte_prefix_300("short"), "short");
    assert_eq!(char_prefix_300(&"б".repeat(301)), "б".repeat(300));
    assert_eq!(resolve_against("https://x/y".to_string(), "https://p"), "https://x/y");
    assert_eq!(resolve_against("/y".to_string(), "https://p"), "https://p/y");
}
