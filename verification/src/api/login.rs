//! The seven-step OAuth login of diary.e-schools.by as a state machine.
//!
//! 1. GET  diary `login/student`   → redirect to the OAuth login page
//! 2. GET  the OAuth login page    → anti-forgery token and return URL
//! 3. POST `Account/Login`         → redirect to the authorisation callback
//! 4. GET  the callback            → redirect to the diary callback
//! 5. GET  the diary callback      → redirect to `preauthorized?data=UUID`
//! 6. GET  `data_for_login/UUID`   → the login profile
//! 7. GET  `auth/login?token=…`    → the token pair
//!
//! The machine decides; the caller performs each request and hands back
//! what came of it.  Three wordings of the failure messages exist, one per
//! client that runs the flow.
use vstd::prelude::*;
use vstd::utf8::encode_utf8;
use crate::api::auth::{
    decode_entities, decoded, extract_csrf, extract_origin, extract_return_url, extract_uuid,
    opt_view, origin_defined, origin_of, AuthResponse, CSRF_PATTERN, RETURN_URL_PATTERN,
    UUID_PATTERN,
};
use crate::api::blocking::BASE_URL;
use crate::api::endpoints::OAUTH_URL;
use crate::codec::{base64_encode, base64_standard, lowercase, regex_first_group, to_lowercase};
use crate::text::{
    byte_len, chars_in_bytes, chars_of, chars_within_bytes, has_prefix, is_byte_boundary,
    lemma_ascii_prefix_bytes, lemma_find_from_some, occurs_at, owned, starts_with, string_of,
};

verus! {

/// Which client runs the flow; they word their failures differently.
#[derive(Debug, Clone, Copy, PartialEq, Eq, Structural)]
pub enum Variant {
    /// The API client library.
    Client,
    /// The desktop application.
    Desktop,
    /// The mobile application.
    Mobile,
}

/// Where the flow stands: the reply it waits for, or finished.
#[derive(Debug, Clone, Copy, PartialEq, Eq, Structural)]
pub enum Stage {
    LoginRedirect,
    LoginPage,
    CredentialsRedirect,
    CallbackRedirect,
    DiaryRedirect,
    Profile,
    Tokens,
    Finished,
}

/// How the caller must read the reply to a request.
#[derive(Debug, Clone, Copy, PartialEq, Eq, Structural)]
pub enum ReplyKind {
    /// The `Location` header, and the body text (empty if unreadable).
    Redirect,
    /// The body text.
    Page,
    /// The login profile, parsed from JSON.
    Profile,
    /// The token pair, parsed from JSON.
    Tokens,
}

/// HTTP methods the flow uses.
#[derive(Debug, Clone, Copy, PartialEq, Eq, Structural)]
pub enum Method {
    Get,
    PostForm,
}

/// A request for the caller to perform, without following redirects.
#[derive(Debug, Clone)]
pub struct HttpRequest {
    pub method: Method,
    pub url: String,
    /// A `Referer` header to send, if any.
    pub referer: Option<String>,
    /// Form fields of a `PostForm`, in order.
    pub form: Vec<(String, String)>,
    pub read: ReplyKind,
}

/// The fields of the step-6 login profile that the flow reads: the
/// `profile_id` string, the `id` string of the first of `schools`, and the
/// first string of `kinds`.
#[derive(Debug, Clone)]
pub struct LoginData {
    pub profile_id: Option<String>,
    pub school_id: Option<String>,
    pub kind: Option<String>,
}

/// What came of a request.
#[derive(Debug)]
pub enum Reply {
    /// The request could not be sent; the error text.
    SendFailed(String),
    /// A reply read as `ReplyKind::Redirect`.
    Redirect { location: Option<String>, body: String },
    /// A reply read as `ReplyKind::Page`: the text, or why it was unreadable.
    Page(Result<String, String>),
    /// A reply read as `ReplyKind::Profile`: the profile, or the parse error.
    Profile(Result<LoginData, String>),
    /// A reply read as `ReplyKind::Tokens`: the tokens, or the parse error.
    Tokens(Result<AuthResponse, String>),
}

/// What the flow asks for next.
#[derive(Debug)]
pub enum Outcome {
    Send(HttpRequest),
    Finished(Result<AuthResponse, String>),
}

/// A login in progress.
pub struct LoginFlow {
    pub variant: Variant,
    pub stage: Stage,
    pub username: String,
    pub password: String,
    /// The OAuth login page, known from stage `LoginPage` on.
    pub login_page_url: String,
    /// Scheme and host of the login page, known from `CredentialsRedirect` on.
    pub oauth_origin: String,
}

// ── specification ────────────────────────────────────────────────────────

/// The position of a stage in the flow (the step whose reply it awaits).
pub open spec fn stage_number(st: Stage) -> nat {
    match st {
        Stage::LoginRedirect => 1,
        Stage::LoginPage => 2,
        Stage::CredentialsRedirect => 3,
        Stage::CallbackRedirect => 4,
        Stage::DiaryRedirect => 5,
        Stage::Profile => 6,
        Stage::Tokens => 7,
        Stage::Finished => 8,
    }
}

/// `"Step n"` for the step a stage awaits.
pub open spec fn step_label(st: Stage) -> Seq<char> {
    match st {
        Stage::LoginRedirect => "Step 1"@,
        Stage::LoginPage => "Step 2"@,
        Stage::CredentialsRedirect => "Step 3"@,
        Stage::CallbackRedirect => "Step 4"@,
        Stage::DiaryRedirect => "Step 5"@,
        Stage::Profile => "Step 6"@,
        Stage::Tokens => "Step 7"@,
        Stage::Finished => "Done"@,
    }
}

/// How the reply to a stage's request is read.
pub open spec fn expected_reply(st: Stage) -> ReplyKind {
    match st {
        Stage::LoginPage => ReplyKind::Page,
        Stage::Profile => ReplyKind::Profile,
        Stage::Tokens => ReplyKind::Tokens,
        _ => ReplyKind::Redirect,
    }
}

/// A reply read the way `kind` says (a failed send fits any kind).
pub open spec fn reply_fits(reply: Reply, kind: ReplyKind) -> bool {
    match reply {
        Reply::SendFailed(_) => true,
        Reply::Redirect { .. } => kind is Redirect,
        Reply::Page(_) => kind is Page,
        Reply::Profile(_) => kind is Profile,
        Reply::Tokens(_) => kind is Tokens,
    }
}

/// The body text that a failure message quotes in the client library: its
/// first 300 bytes (all of it when shorter).
pub open spec fn byte_snippet(body: Seq<char>) -> Seq<char> {
    if is_byte_boundary(body, 300) {
        body.take(chars_in_bytes(body, 300))
    } else {
        body
    }
}

/// The body text that a failure message quotes in the desktop application:
/// its first 300 characters.
pub open spec fn char_snippet(body: Seq<char>) -> Seq<char> {
    if body.len() <= 300 {
        body
    } else {
        body.take(300)
    }
}

/// A reply the flow can take: read as the stage expects, and, for the
/// client library, a body whose 300-byte prefix ends on a character boundary
/// (the library slices it there and would panic otherwise).
pub open spec fn reply_admissible(flow: LoginFlow, reply: Reply) -> bool {
    &&& reply_fits(reply, expected_reply(flow.stage))
    &&& (flow.variant is Client && 3 <= stage_number(flow.stage) <= 5) ==> match reply {
        Reply::Redirect { location: None, body } => byte_len(body@) <= 300 || is_byte_boundary(
            body@,
            300,
        ),
        _ => true,
    }
}

/// A URL from a redirect, made absolute against `prefix` unless it already
/// starts with `http`.
pub open spec fn resolved(url: Seq<char>, prefix: Seq<char>) -> Seq<char> {
    if starts_with(url, "http"@) {
        url
    } else {
        prefix + url
    }
}

/// What the step-`n` note of a missing `Location` header adds.
pub open spec fn expectation_note(st: Stage) -> Seq<char> {
    match st {
        Stage::CallbackRedirect => " (expected diary callback)"@,
        Stage::DiaryRedirect => " (expected preauthorized)"@,
        _ => ""@,
    }
}

/// The failure when a redirect of steps 3–5 carries no `Location` header.
pub open spec fn no_location_message(v: Variant, st: Stage, body: Seq<char>) -> Seq<char> {
    match v {
        Variant::Client => step_label(st) + ": no Location. Body: "@ + byte_snippet(body),
        Variant::Desktop => step_label(st) + ": no Location header"@ + expectation_note(st)
            + ". Body: "@ + char_snippet(body),
        Variant::Mobile => step_label(st) + ": no Location header"@ + expectation_note(st),
    }
}

/// The failure when the login page has no anti-forgery token.
pub open spec fn csrf_missing_message(v: Variant, html: Seq<char>) -> Seq<char> {
    match v {
        Variant::Client => "CSRF not found"@,
        Variant::Desktop => "CSRF not found. HTML: "@ + char_snippet(html),
        Variant::Mobile => "CSRF token not found"@,
    }
}

/// The failure when the login page has no return URL.
pub open spec fn return_url_missing_message(v: Variant, html: Seq<char>) -> Seq<char> {
    match v {
        Variant::Desktop => "ReturnUrl not found. HTML: "@ + char_snippet(html),
        _ => "ReturnUrl not found"@,
    }
}

/// The failure when the pre-authorisation redirect has no UUID.
pub open spec fn uuid_missing_message(v: Variant, redirect: Seq<char>) -> Seq<char> {
    match v {
        Variant::Client => "UUID not found in preauth redirect"@,
        _ => "UUID not found in preauth redirect: "@ + redirect,
    }
}

/// The view of the fields of a form.
pub open spec fn form_view(form: Vec<(String, String)>) -> Seq<(Seq<char>, Seq<char>)> {
    form@.map_values(|p: (String, String)| (p.0@, p.1@))
}

/// The credentials form of step 3.
pub open spec fn credentials_form(
    return_url: Seq<char>,
    username: Seq<char>,
    password: Seq<char>,
    csrf: Seq<char>,
) -> Seq<(Seq<char>, Seq<char>)> {
    seq![
        ("Input.ReturnUrl"@, return_url),
        ("Input.Username"@, username),
        ("Input.Password"@, password),
        ("Input.Button"@, "login"@),
        ("Input.RememberLogin"@, "false"@),
        ("__RequestVerificationToken"@, csrf),
    ]
}

/// `out` asks for this request.
pub open spec fn sends(
    out: Outcome,
    method: Method,
    url: Seq<char>,
    referer: Option<Seq<char>>,
    form: Seq<(Seq<char>, Seq<char>)>,
    read: ReplyKind,
) -> bool {
    &&& out matches Outcome::Send(r)
    &&& r.method == method
    &&& r.url@ == url
    &&& opt_view(r.referer) == referer
    &&& form_view(r.form) == form
    &&& r.read == read
}

/// `out` is a GET of `url` read as `read`, with no `Referer`.
pub open spec fn plain_get(out: Outcome, url: Seq<char>, read: ReplyKind) -> bool {
    sends(out, Method::Get, url, None, Seq::empty(), read)
}

/// `out` ends the flow with the failure `msg`.
pub open spec fn fails(out: Outcome, msg: Seq<char>) -> bool {
    out matches Outcome::Finished(Err(e)) && e@ == msg
}

/// `next` keeps the variant, credentials and URLs of `flow` and stands at `st`.
pub open spec fn moved_to(flow: LoginFlow, next: LoginFlow, st: Stage) -> bool {
    &&& next.stage == st
    &&& next.variant == flow.variant
    &&& next.username@ == flow.username@
    &&& next.password@ == flow.password@
    &&& next.login_page_url@ == flow.login_page_url@
    &&& next.oauth_origin@ == flow.oauth_origin@
}

/// The login token of step 7: `profile:school:kind`, Base64 of its UTF-8.
pub open spec fn login_token(profile: Seq<char>, school: Seq<char>, kind: Seq<char>) -> Seq<char> {
    base64_standard(encode_utf8(profile + ":"@ + school + ":"@ + kind))
}

/// The kind of the profile, lower-cased; `student` (already lower-case)
/// when absent.
pub open spec fn profile_kind(kind: Option<String>) -> Seq<char> {
    match kind {
        Some(k) => lowercase(k@),
        None => "student"@,
    }
}

/// One step of the flow: given the reply to the request of `flow.stage`,
/// `next` and `out` are what follows.
pub open spec fn advances(flow: LoginFlow, reply: Reply, next: LoginFlow, out: Outcome) -> bool {
    match reply {
        Reply::SendFailed(e) => next.stage is Finished && fails(out, step_label(flow.stage) + ": "@ + e@),
        Reply::Redirect { location, body } => match location {
            None => next.stage is Finished && match flow.stage {
                Stage::LoginRedirect => fails(out, "Step 1: no Location header"@),
                _ => fails(out, no_location_message(flow.variant, flow.stage, body@)),
            },
            Some(loc) => match flow.stage {
                Stage::LoginRedirect => {
                    let page = resolved(loc@, OAUTH_URL@);
                    &&& next.stage is LoginPage
                    &&& next.variant == flow.variant
                    &&& next.username@ == flow.username@
                    &&& next.password@ == flow.password@
                    &&& next.login_page_url@ == page
                    &&& plain_get(out, page, ReplyKind::Page)
                },
                Stage::CredentialsRedirect => {
                    &&& moved_to(flow, next, Stage::CallbackRedirect)
                    &&& sends(
                        out,
                        Method::Get,
                        resolved(decoded(loc@), flow.oauth_origin@),
                        Some(flow.oauth_origin@ + "/"@),
                        Seq::empty(),
                        ReplyKind::Redirect,
                    )
                },
                Stage::CallbackRedirect => {
                    &&& moved_to(flow, next, Stage::DiaryRedirect)
                    &&& plain_get(out, resolved(decoded(loc@), BASE_URL@), ReplyKind::Redirect)
                },
                _ => {
                    let redirect = decoded(loc@);
                    match regex_first_group(UUID_PATTERN@, redirect) {
                        None => next.stage is Finished && fails(
                            out,
                            uuid_missing_message(flow.variant, redirect),
                        ),
                        Some(uuid) => {
                            &&& moved_to(flow, next, Stage::Profile)
                            &&& plain_get(
                                out,
                                BASE_URL@ + "/api/v1/admin/auth/data_for_login/"@ + uuid,
                                ReplyKind::Profile,
                            )
                        },
                    }
                },
            },
        },
        Reply::Page(page) => match page {
            Err(e) => next.stage is Finished && fails(out, "Step 2 text: "@ + e@),
            Ok(html) => match regex_first_group(CSRF_PATTERN@, html@) {
                None => next.stage is Finished && fails(
                    out,
                    csrf_missing_message(flow.variant, html@),
                ),
                Some(csrf) => match regex_first_group(RETURN_URL_PATTERN@, html@) {
                    None => next.stage is Finished && fails(
                        out,
                        return_url_missing_message(flow.variant, html@),
                    ),
                    Some(ret) => {
                        let origin = origin_of(flow.login_page_url@);
                        &&& next.stage is CredentialsRedirect
                        &&& next.variant == flow.variant
                        &&& next.username@ == flow.username@
                        &&& next.password@ == flow.password@
                        &&& next.login_page_url@ == flow.login_page_url@
                        &&& next.oauth_origin@ == origin
                        &&& sends(
                            out,
                            Method::PostForm,
                            origin + "/Account/Login"@,
                            None,
                            credentials_form(decoded(ret), flow.username@, flow.password@, csrf),
                            ReplyKind::Redirect,
                        )
                    },
                },
            },
        },
        Reply::Profile(profile) => match profile {
            Err(e) => next.stage is Finished && fails(out, "Step 6 parse: "@ + e@),
            Ok(d) => match d.profile_id {
                None => next.stage is Finished && fails(out, "Step 6: no profile_id"@),
                Some(p) => match d.school_id {
                    None => next.stage is Finished && fails(out, "Step 6: no school_id"@),
                    Some(s) => {
                        &&& moved_to(flow, next, Stage::Tokens)
                        &&& plain_get(
                            out,
                            BASE_URL@ + "/api/v1/auth/login?token="@ + login_token(
                                p@,
                                s@,
                                profile_kind(d.kind),
                            ),
                            ReplyKind::Tokens,
                        )
                    },
                },
            },
        },
        Reply::Tokens(tokens) => next.stage is Finished && match tokens {
            Err(e) => fails(out, "Step 7 parse: "@ + e@),
            Ok(t) => out == Outcome::Finished(Ok(t)),
        },
    }
}

impl LoginFlow {
    /// The URLs the flow has learnt are usable at its stage.
    pub open spec fn wf(self) -> bool {
        2 <= stage_number(self.stage) <= 7 ==> origin_defined(self.login_page_url@)
    }
}

// ── helpers ─────────────────────────────────────────────────────────────

fn step_text(st: &Stage) -> (s: &'static str)
    ensures
        s@ == step_label(*st),
{
    match st {
        Stage::LoginRedirect => "Step 1",
        Stage::LoginPage => "Step 2",
        Stage::CredentialsRedirect => "Step 3",
        Stage::CallbackRedirect => "Step 4",
        Stage::DiaryRedirect => "Step 5",
        Stage::Profile => "Step 6",
        Stage::Tokens => "Step 7",
        Stage::Finished => "Done",
    }
}

fn note_text(st: &Stage) -> (s: &'static str)
    ensures
        s@ == expectation_note(*st),
{
    match st {
        Stage::CallbackRedirect => " (expected diary callback)",
        Stage::DiaryRedirect => " (expected preauthorized)",
        _ => "",
    }
}

/// The first 300 bytes of `body` (all of it when shorter).
pub fn byte_prefix_300(body: &str) -> (res: String)
    ensures
        res@ == byte_snippet(body@),
{
    let cs = chars_of(body);
    match chars_within_bytes(&cs, 300) {
        Some(k) => string_of(&cs, 0, k),
        None => string_of(&cs, 0, cs.len()),
    }
}

/// The first 300 characters of `body` (all of it when shorter).
pub fn char_prefix_300(body: &str) -> (res: String)
    ensures
        res@ == char_snippet(body@),
{
    let cs = chars_of(body);
    if cs.len() <= 300 {
        string_of(&cs, 0, cs.len())
    } else {
        string_of(&cs, 0, 300)
    }
}

/// Makes a redirect target absolute against `prefix` unless it starts with
/// `http`.
pub fn resolve_against(url: String, prefix: &str) -> (res: String)
    ensures
        res@ == resolved(url@, prefix@),
{
    let cs = chars_of(url.as_str());
    let http = chars_of("http");
    if has_prefix(&cs, &http) {
        url
    } else {
        let mut s = String::new();
        s.append(prefix);
        s.append(url.as_str());
        s
    }
}

fn get_request(url: String, read: ReplyKind) -> (r: HttpRequest)
    ensures
        r.method == Method::Get,
        r.url == url,
        r.referer is None,
        r.form@.len() == 0,
        r.read == read,
{
    HttpRequest { method: Method::Get, url, referer: None, form: Vec::new(), read }
}

fn failure(msg: String) -> (o: Outcome)
    ensures
        o == Outcome::Finished(Err(msg)),
{
    Outcome::Finished(Err(msg))
}

proof fn lemma_resolved_login_page_has_origin(loc: Seq<char>)
    ensures
        origin_defined(resolved(loc, OAUTH_URL@)),
{
    reveal_strlit("http");
    reveal_strlit("https://oauth.rios.unibel.by");
    reveal_strlit("://");
    let page = resolved(loc, OAUTH_URL@);
    if starts_with(loc, "http"@) {
        let pre = loc.subrange(0, 4);
        assert(pre == "http"@);
        assert(pre[0] == loc[0] && pre[1] == loc[1] && pre[2] == loc[2]);
        assert("http"@[0] == 'h' && "http"@[1] == 't' && "http"@[2] == 't');
        assert(loc[0] == 'h' && loc[1] == 't' && loc[2] == 't');
        lemma_ascii_prefix_bytes(loc, 3);
        assert(0 <= 3 <= loc.len() && byte_len(loc.take(3)) == 3);
        assert(is_byte_boundary(loc, 3));
    } else {
        assert(page.subrange(5, 8) =~= "://"@);
        assert(occurs_at(page, "://"@, 5));
        lemma_find_from_some(page, "://"@, 0, 5);
    }
}

impl LoginFlow {
    /// Begins a login: the flow and its first request, the diary's
    /// student-login redirect.
    pub fn start(variant: Variant, username: &str, password: &str) -> (res: (LoginFlow, HttpRequest))
        ensures
            res.0.stage is LoginRedirect,
            res.0.variant == variant,
            res.0.username@ == username@,
            res.0.password@ == password@,
            res.0.wf(),
            plain_get(
                Outcome::Send(res.1),
                BASE_URL@ + "/api/v1/admin/auth/login/student"@,
                ReplyKind::Redirect,
            ),
    {
        let mut url = String::new();
        url.append(BASE_URL);
        url.append("/api/v1/admin/auth/login/student");
        let req = get_request(url, ReplyKind::Redirect);
        let mut user = String::new();
        user.append(username);
        let mut pass = String::new();
        pass.append(password);
        let flow = LoginFlow {
            variant,
            stage: Stage::LoginRedirect,
            username: user,
            password: pass,
            login_page_url: String::new(),
            oauth_origin: String::new(),
        };
        assert(req.form@ =~= Seq::<(String, String)>::empty());
        assert(form_view(req.form) =~= Seq::empty());
        (flow, req)
    }
}


fn no_location(variant: &Variant, stage: &Stage, body: &str) -> (s: String)
    ensures
        s@ == no_location_message(*variant, *stage, body@),
{
    let mut s = owned(step_text(stage));
    match variant {
        Variant::Client => {
            s.append(": no Location. Body: ");
            let snip = byte_prefix_300(body);
            s.append(snip.as_str());
        },
        Variant::Desktop => {
            s.append(": no Location header");
            s.append(note_text(stage));
            s.append(". Body: ");
            let snip = char_prefix_300(body);
            s.append(snip.as_str());
        },
        Variant::Mobile => {
            s.append(": no Location header");
            s.append(note_text(stage));
        },
    }
    s
}

fn csrf_missing(variant: &Variant, html: &str) -> (s: String)
    ensures
        s@ == csrf_missing_message(*variant, html@),
{
    match variant {
        Variant::Client => owned("CSRF not found"),
        Variant::Desktop => {
            let mut s = owned("CSRF not found. HTML: ");
            let snip = char_prefix_300(html);
            s.append(snip.as_str());
            s
        },
        Variant::Mobile => owned("CSRF token not found"),
    }
}

fn return_url_missing(variant: &Variant, html: &str) -> (s: String)
    ensures
        s@ == return_url_missing_message(*variant, html@),
{
    match variant {
        Variant::Desktop => {
            let mut s = owned("ReturnUrl not found. HTML: ");
            let snip = char_prefix_300(html);
            s.append(snip.as_str());
            s
        },
        _ => owned("ReturnUrl not found"),
    }
}

fn uuid_missing(variant: &Variant, redirect: &str) -> (s: String)
    ensures
        s@ == uuid_missing_message(*variant, redirect@),
{
    match variant {
        Variant::Client => owned("UUID not found in preauth redirect"),
        _ => {
            let mut s = owned("UUID not found in preauth redirect: ");
            s.append(redirect);
            s
        },
    }
}

fn labelled(stage: &Stage, what: &str) -> (s: String)
    ensures
        s@ == step_label(*stage) + ": "@ + what@,
{
    let mut s = owned(step_text(stage));
    s.append(": ");
    s.append(what);
    s
}

fn prefixed(prefix: &str, what: &str) -> (s: String)
    ensures
        s@ == prefix@ + what@,
{
    let mut s = owned(prefix);
    s.append(what);
    s
}

fn credentials(return_url: String, username: &str, password: &str, csrf: String) -> (form: Vec<(String, String)>)
    ensures
        form_view(form) == credentials_form(return_url@, username@, password@, csrf@),
{
    let mut form: Vec<(String, String)> = Vec::new();
    form.push((owned("Input.ReturnUrl"), return_url));
    form.push((owned("Input.Username"), owned(username)));
    form.push((owned("Input.Password"), owned(password)));
    form.push((owned("Input.Button"), owned("login")));
    form.push((owned("Input.RememberLogin"), owned("false")));
    form.push((owned("__RequestVerificationToken"), csrf));
    assert(form_view(form) =~= credentials_form(return_url@, username@, password@, csrf@));
    form
}

impl LoginFlow {
    /// Takes the reply to the request of the current stage and decides what
    /// follows: the next request, or the end of the flow with its tokens or
    /// its failure.
    pub fn advance(self, reply: Reply) -> (res: (LoginFlow, Outcome))
        requires
            self.wf(),
            !(self.stage is Finished),
            reply_admissible(self, reply),
        ensures
            res.0.wf(),
            advances(self, reply, res.0, res.1),
    {
        let ghost flow = self;
        let LoginFlow { variant, stage, username, password, login_page_url, oauth_origin } = self;
        match reply {
            Reply::SendFailed(e) => {
                let msg = labelled(&stage, e.as_str());
                let next = LoginFlow {
                    variant,
                    stage: Stage::Finished,
                    username,
                    password,
                    login_page_url,
                    oauth_origin,
                };
                (next, failure(msg))
            },
            Reply::Redirect { location, body } => {
                match location {
                    None => {
                        let msg = match stage {
                            Stage::LoginRedirect => owned("Step 1: no Location header"),
                            _ => no_location(&variant, &stage, body.as_str()),
                        };
                        let next = LoginFlow {
                            variant,
                            stage: Stage::Finished,
                            username,
                            password,
                            login_page_url,
                            oauth_origin,
                        };
                        (next, failure(msg))
                    },
                    Some(loc) => {
                        match stage {
                            Stage::LoginRedirect => {
                                proof { lemma_resolved_login_page_has_origin(loc@); }
                                let page = resolve_against(loc, OAUTH_URL);
                                let req = get_request(page.clone(), ReplyKind::Page);
                                let next = LoginFlow {
                                    variant,
                                    stage: Stage::LoginPage,
                                    username,
                                    password,
                                    login_page_url: page,
                                    oauth_origin,
                                };
                                assert(form_view(req.form) =~= Seq::empty());
                                (next, Outcome::Send(req))
                            },
                            Stage::CredentialsRedirect => {
                                let callback = decode_entities(loc.as_str());
                                let url = resolve_against(callback, oauth_origin.as_str());
                                let referer = prefixed(oauth_origin.as_str(), "/");
                                let req = HttpRequest {
                                    method: Method::Get,
                                    url,
                                    referer: Some(referer),
                                    form: Vec::new(),
                                    read: ReplyKind::Redirect,
                                };
                                assert(form_view(req.form) =~= Seq::empty());
                                let next = LoginFlow {
                                    variant,
                                    stage: Stage::CallbackRedirect,
                                    username,
                                    password,
                                    login_page_url,
                                    oauth_origin,
                                };
                                (next, Outcome::Send(req))
                            },
                            Stage::CallbackRedirect => {
                                let callback = decode_entities(loc.as_str());
                                let url = resolve_against(callback, BASE_URL);
                                let req = get_request(url, ReplyKind::Redirect);
                                assert(form_view(req.form) =~= Seq::empty());
                                let next = LoginFlow {
                                    variant,
                                    stage: Stage::DiaryRedirect,
                                    username,
                                    password,
                                    login_page_url,
                                    oauth_origin,
                                };
                                (next, Outcome::Send(req))
                            },
                            Stage::DiaryRedirect => {
                                let redirect = decode_entities(loc.as_str());
                                match extract_uuid(redirect.as_str()) {
                                    None => {
                                        let msg = uuid_missing(&variant, redirect.as_str());
                                        let next = LoginFlow {
                                            variant,
                                            stage: Stage::Finished,
                                            username,
                                            password,
                                            login_page_url,
                                            oauth_origin,
                                        };
                                        (next, failure(msg))
                                    },
                                    Some(uuid) => {
                                        let mut url = owned(BASE_URL);
                                        url.append("/api/v1/admin/auth/data_for_login/");
                                        url.append(uuid.as_str());
                                        let req = get_request(url, ReplyKind::Profile);
                                        assert(form_view(req.form) =~= Seq::empty());
                                        let next = LoginFlow {
                                            variant,
                                            stage: Stage::Profile,
                                            username,
                                            password,
                                            login_page_url,
                                            oauth_origin,
                                        };
                                        (next, Outcome::Send(req))
                                    },
                                }
                            },
                            _ => {
                                assert(false);
                                let next = LoginFlow {
                                    variant,
                                    stage: Stage::Finished,
                                    username,
                                    password,
                                    login_page_url,
                                    oauth_origin,
                                };
                                (next, failure(String::new()))
                            },
                        }
                    },
                }
            },
            Reply::Page(page) => {
                match page {
                    Err(e) => {
                        let msg = prefixed("Step 2 text: ", e.as_str());
                        let next = LoginFlow {
                            variant,
                            stage: Stage::Finished,
                            username,
                            password,
                            login_page_url,
                            oauth_origin,
                        };
                        (next, failure(msg))
                    },
                    Ok(html) => {
                        match extract_csrf(html.as_str()) {
                            None => {
                                let msg = csrf_missing(&variant, html.as_str());
                                let next = LoginFlow {
                                    variant,
                                    stage: Stage::Finished,
                                    username,
                                    password,
                                    login_page_url,
                                    oauth_origin,
                                };
                                (next, failure(msg))
                            },
                            Some(csrf) => {
                                match extract_return_url(html.as_str()) {
                                    None => {
                                        let msg = return_url_missing(&variant, html.as_str());
                                        let next = LoginFlow {
                                            variant,
                                            stage: Stage::Finished,
                                            username,
                                            password,
                                            login_page_url,
                                            oauth_origin,
                                        };
                                        (next, failure(msg))
                                    },
                                    Some(ret) => {
                                        let origin = extract_origin(login_page_url.as_str());
                                        let url = prefixed(origin.as_str(), "/Account/Login");
                                        let form = credentials(
                                            ret,
                                            username.as_str(),
                                            password.as_str(),
                                            csrf,
                                        );
                                        let req = HttpRequest {
                                            method: Method::PostForm,
                                            url,
                                            referer: None,
                                            form,
                                            read: ReplyKind::Redirect,
                                        };
                                        let next = LoginFlow {
                                            variant,
                                            stage: Stage::CredentialsRedirect,
                                            username,
                                            password,
                                            login_page_url,
                                            oauth_origin: origin,
                                        };
                                        (next, Outcome::Send(req))
                                    },
                                }
                            },
                        }
                    },
                }
            },
            Reply::Profile(profile) => {
                match profile {
                    Err(e) => {
                        let msg = prefixed("Step 6 parse: ", e.as_str());
                        let next = LoginFlow {
                            variant,
                            stage: Stage::Finished,
                            username,
                            password,
                            login_page_url,
                            oauth_origin,
                        };
                        (next, failure(msg))
                    },
                    Ok(d) => {
                        let LoginData { profile_id, school_id, kind } = d;
                        match profile_id {
                            None => {
                                let next = LoginFlow {
                                    variant,
                                    stage: Stage::Finished,
                                    username,
                                    password,
                                    login_page_url,
                                    oauth_origin,
                                };
                                (next, failure(owned("Step 6: no profile_id")))
                            },
                            Some(pid) => {
                                match school_id {
                                    None => {
                                        let next = LoginFlow {
                                            variant,
                                            stage: Stage::Finished,
                                            username,
                                            password,
                                            login_page_url,
                                            oauth_origin,
                                        };
                                        (next, failure(owned("Step 6: no school_id")))
                                    },
                                    Some(sid) => {
                                        let ghost kind_view = profile_kind(kind);
                                        let lower = match kind {
                                            Some(k) => to_lowercase(k.as_str()),
                                            None => owned("student"),
                                        };
                                        let mut payload = owned(pid.as_str());
                                        payload.append(":");
                                        payload.append(sid.as_str());
                                        payload.append(":");
                                        payload.append(lower.as_str());
                                        let token = base64_encode(payload.as_str().as_bytes());
                                        let mut url = owned(BASE_URL);
                                        url.append("/api/v1/auth/login?token=");
                                        url.append(token.as_str());
                                        let req = get_request(url, ReplyKind::Tokens);
                                        assert(form_view(req.form) =~= Seq::empty());
                                        assert(lower@ == kind_view);
                                        let next = LoginFlow {
                                            variant,
                                            stage: Stage::Tokens,
                                            username,
                                            password,
                                            login_page_url,
                                            oauth_origin,
                                        };
                                        (next, Outcome::Send(req))
                                    },
                                }
                            },
                        }
                    },
                }
            },
            Reply::Tokens(tokens) => {
                let next = LoginFlow {
                    variant,
                    stage: Stage::Finished,
                    username,
                    password,
                    login_page_url,
                    oauth_origin,
                };
                match tokens {
                    Err(e) => (next, failure(prefixed("Step 7 parse: ", e.as_str()))),
                    Ok(t) => (next, Outcome::Finished(Ok(t))),
                }
            },
        }
    }
}


// ── laws of the flow ─────────────────────────────────────────────────────

/// Every step either asks for the request of the next stage or ends the
/// flow, so a login sends at most seven requests.
pub proof fn law_flow_progresses(flow: LoginFlow, reply: Reply, next: LoginFlow, out: Outcome)
    requires
        flow.wf(),
        !(flow.stage is Finished),
        reply_admissible(flow, reply),
        advances(flow, reply, next, out),
    ensures
        out is Send ==> stage_number(next.stage) == stage_number(flow.stage) + 1,
        out is Finished ==> next.stage is Finished,
{
}

/// Only the step-3 form carries credentials: every other request is a GET
/// without a form, and the one POST goes to `Account/Login` on the origin of
/// the login page, with the username and password of the flow.
pub proof fn law_credentials_only_to_login_form(flow: LoginFlow, reply: Reply, next: LoginFlow, out: Outcome)
    requires
        flow.wf(),
        !(flow.stage is Finished),
        reply_admissible(flow, reply),
        advances(flow, reply, next, out),
    ensures
        out matches Outcome::Send(r) ==> (r.method is Get ==> form_view(r.form).len() == 0),
        out matches Outcome::Send(r) ==> (r.method is PostForm ==> {
            &&& flow.stage is LoginPage
            &&& r.url@ == origin_of(flow.login_page_url@) + "/Account/Login"@
            &&& form_view(r.form)[1] == ("Input.Username"@, flow.username@)
            &&& form_view(r.form)[2] == ("Input.Password"@, flow.password@)
        }),
{
}

/// The flow succeeds only on the tokens of step 7, and hands them over as
/// they came.
pub proof fn law_success_only_from_tokens(flow: LoginFlow, reply: Reply, next: LoginFlow, out: Outcome)
    requires
        flow.wf(),
        !(flow.stage is Finished),
        reply_admissible(flow, reply),
        advances(flow, reply, next, out),
    ensures
        out matches Outcome::Finished(Ok(t)) ==> flow.stage is Tokens && reply == Reply::Tokens(Ok(t)),
{
}

/// A request that cannot be sent ends the flow with `Step n: ` and the error.
pub proof fn law_send_failure_names_step(flow: LoginFlow, e: String, next: LoginFlow, out: Outcome)
    requires
        flow.wf(),
        !(flow.stage is Finished),
        advances(flow, Reply::SendFailed(e), next, out),
    ensures
        next.stage is Finished,
        fails(out, step_label(flow.stage) + ": "@ + e@),
{
}

/// The client library, the desktop and the mobile application send the
/// same requests: given the same reply at the same point, two flows that
/// differ only in their variant go on alike, and differ at most in how they
/// word a failure.
pub proof fn law_variants_send_alike(
    f1: LoginFlow,
    f2: LoginFlow,
    reply: Reply,
    n1: LoginFlow,
    o1: Outcome,
    n2: LoginFlow,
    o2: Outcome,
)
    requires
        f1.stage == f2.stage,
        f1.username@ == f2.username@,
        f1.password@ == f2.password@,
        f1.login_page_url@ == f2.login_page_url@,
        f1.oauth_origin@ == f2.oauth_origin@,
        advances(f1, reply, n1, o1),
        advances(f2, reply, n2, o2),
    ensures
        n1.stage == n2.stage,
        (o1 is Send) == (o2 is Send),
        o1 matches Outcome::Send(r1) ==> (o2 matches Outcome::Send(r2) && r1.method == r2.method
            && r1.url@ == r2.url@ && opt_view(r1.referer) == opt_view(r2.referer) && form_view(
            r1.form,
        ) == form_view(r2.form) && r1.read == r2.read),
        o1 matches Outcome::Finished(Ok(t)) ==> o2 == o1,
{
}

} // verus!
