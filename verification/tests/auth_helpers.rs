use eschool::api::auth::{
    decode_entities, extract_csrf, extract_origin, extract_return_url, extract_uuid,
    finish_refresh, refresh_endpoint, refresh_first, refresh_grant_form, token_endpoint,
    AuthResponse,
};
use eschool::api::blocking::Fetched;
use eschool::network::auth::{token_from, Auth};
use eschool::network::client::authorization_value;
use eschool::network::oauth_web::resolve_url;

#[test]
fn entities_are_decoded_in_order() {
    assert_eq!(decode_entities("a &amp; b &lt;c&gt; &quot;d&quot;"), "a & b <c> \"d\"");
    // `&amp;` is decoded first, so an escaped entity becomes a real one
    assert_eq!(decode_entities("&amp;lt;"), "<");
    assert_eq!(decode_entities("/connect?x=1&amp;y=2"), "/connect?x=1&y=2");
}

#[test]
fn text_without_ampersand_is_kept() {
    assert_eq!(decode_entities("plain text, no entity"), "plain text, no entity");
    assert_eq!(decode_entities(""), "");
}

#[test]
fn origin_of_urls() {
    assert_eq!(extract_origin("https://oauth.rios.unibel.by/Account/Login?x=1"), "https://oauth.rios.unibel.by");
    assert_eq!(extract_origin("https://host"), "https://host");
    assert_eq!(extract_origin("http://a.b:8080/c/d"), "http://a.b:8080");
}

#[test]
fn login_form_fields() {
    let html = r#"<form><input name="Input.ReturnUrl" value="/connect/authorize?a=1&amp;b=2"><input name="__RequestVerificationToken" type="hidden" value="CSRF-123"></form>"#;
    assert_eq!(extract_csrf(html), Some("CSRF-123".to_string()));
    assert_eq!(extract_return_url(html), Some("/connect/authorize?a=1&b=2".to_string()));
    assert_eq!(extract_csrf("<html></html>"), None);
    assert_eq!(extract_return_url("<html></html>"), None);
}

#[test]
fn preauthorisation_uuid() {
    assert_eq!(
        extract_uuid("https://diary.e-schools.by/preauthorized?data=abc-123&next=1"),
        Some("abc-123".to_string())
    );
    assert_eq!(extract_uuid("https://diary.e-schools.by/"), None);
}

#[test]
fn redirect_resolution() {
    assert_eq!(resolve_url("https://a.by/x/y", "https://b.by/z"), "https://b.by/z");
    assert_eq!(resolve_url("https://a.by/x/y", "/z?q=1"), "https://a.by/z?q=1");
    assert_eq!(resolve_url("https://a.by/x/y", "z"), "https://a.by/x/z");
    assert_eq!(resolve_url("nohost", "z"), "nohostz");
}

#[test]
fn application_login_url() {
    let auth = Auth::new();
    assert_eq!(auth.state, "schools");
    let ret = auth.build_return_url();
    assert_eq!(
        ret,
        "/connect/authorize/callback?client_id=oauth_diary_echools&response_type=code&state=schools\
         &authentication=client_secret_post\
         &redirect_uri=https%3A%2F%2Fdiary.e-schools.by%2Fapi%2Fv1%2Fadmin%2Fauth%2Fcallback\
         &scope=openid%20profile%20offline_access%20organization.write%20person.write%20person.write.all\
         %20person.read%20persons.read%20dictionaries.read%20organization.read"
    );
    let url = auth.login_url();
    assert!(url.starts_with(
        "https://oauth.rios.unibel.by/Account/Login?ReturnUrl=%2Fconnect%2Fauthorize%2Fcallback%3Fclient_id%3Doauth_diary_echools%26"
    ));
    // the already encoded redirect URI is encoded once more
    assert!(url.contains("https%253A%252F%252Fdiary.e-schools.by"));
    assert_eq!(url.matches('?').count(), 1);
}

#[test]
fn refresh_requests() {
    assert_eq!(refresh_endpoint(), "https://diary.e-schools.by/api/v1/auth/refresh");
    assert_eq!(token_endpoint(), "https://oauth.rios.unibel.by/connect/token");
    let form = refresh_grant_form("R-1");
    assert_eq!(
        form,
        vec![
            ("client_id".to_string(), "oauth_diary_echools".to_string()),
            ("grant_type".to_string(), "refresh_token".to_string()),
            ("refresh_token".to_string(), "R-1".to_string()),
        ]
    );
}

#[test]
fn refresh_outcomes() {
    assert_eq!(
        finish_refresh(Fetched::SendFailed("dns".to_string())),
        Err("Refresh request failed: dns".to_string())
    );
    assert_eq!(
        finish_refresh(Fetched::Rejected { status: "401 Unauthorized".to_string(), body: "expired".to_string() }),
        Err("Refresh failed (HTTP 401 Unauthorized): expired".to_string())
    );
    assert_eq!(
        finish_refresh(Fetched::Read(Err("eof".to_string()))),
        Err("Failed to parse refresh response: eof".to_string())
    );
    let ok = finish_refresh(Fetched::Read(Ok(AuthResponse {
        auth_token: "A2".to_string(),
        refresh_token: "R2".to_string(),
    })));
    assert_eq!(ok, Ok(("A2".to_string(), "R2".to_string())));
}

#[test]
fn refresh_token_tried_first_only_when_present() {
    assert!(refresh_first(Some("r")));
    assert!(!refresh_first(Some("")));
    assert!(!refresh_first(None));
}

#[test]
fn tokens_and_headers() {
    let t = token_from(AuthResponse { auth_token: "acc".to_string(), refresh_token: "ref".to_string() });
    assert_eq!(t.access_token, "acc");
    assert_eq!(t.refresh_token, "ref");
    assert_eq!(t.expires_at, None);
    assert_eq!(authorization_value(&t), "Bearer acc");
}

#[test]
fn login_url_decodes_to_the_callback() {
    let auth = Auth::new();
    let url = auth.login_url();
    let prefix = "https://oauth.rios.unibel.by/Account/Login?ReturnUrl=";
    assert!(url.starts_with(prefix));
    let decoded = urlencoding::decode(&url[prefix.len()..]).unwrap();
    assert_eq!(decoded, auth.build_return_url());
}
