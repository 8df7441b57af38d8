//! Request addressing and reply checking for the diary API.
use vstd::prelude::*;
use crate::text::{chars_of, has_prefix, owned, starts_with};

verus! {

/// The diary API host.
pub const BASE_URL: &'static str = "https://diary.e-schools.by";

/// The URL of an API path: the path itself when it starts with `http`,
/// otherwise the path on the diary host.
pub open spec fn url_for(path: Seq<char>) -> Seq<char> {
    if starts_with(path, "http"@) {
        path
    } else {
        BASE_URL@ + path
    }
}

/// The URL a request for `path` goes to.
pub fn request_url(path: &str) -> (url: String)
    ensures
        url@ == url_for(path@),
{
    let cs = chars_of(path);
    let http = chars_of("http");
    if has_prefix(&cs, &http) {
        owned(path)
    } else {
        let mut url = owned(BASE_URL);
        url.append(path);
        url
    }
}

/// Whether an HTTP status code reports success (2xx).
pub fn is_success(code: u16) -> (ok: bool)
    ensures
        ok == (200 <= code <= 299),
{
    200 <= code && code <= 299
}

/// What came of an API request, as the caller observed it.
#[derive(Debug)]
pub enum Fetched<T> {
    /// The request could not be sent; the error text.
    SendFailed(String),
    /// A reply whose status is not a success: the status as displayed
    /// (`404 Not Found`) and the body text (empty if unreadable).
    Rejected { status: String, body: String },
    /// A successful reply, read into a value or failing to.
    Read(Result<T, String>),
}

/// How an API call ends: the value read, or `request failed: …`,
/// `HTTP <status>: <body>`, or `<read_label> failed: …`.
pub open spec fn fetch_result<T>(reply: Fetched<T>, read_label: Seq<char>, res: Result<T, String>) -> bool {
    match reply {
        Fetched::SendFailed(e) => res matches Err(m) && m@ == "request failed: "@ + e@,
        Fetched::Rejected { status, body } => res matches Err(m) && m@ == "HTTP "@ + status@ + ": "@
            + body@,
        Fetched::Read(Err(e)) => res matches Err(m) && m@ == read_label + " failed: "@ + e@,
        Fetched::Read(Ok(v)) => res == Ok::<T, String>(v),
    }
}

/// Ends a call whose reply is parsed from JSON (`parse failed: …`).
pub fn finish_json<T>(reply: Fetched<T>) -> (res: Result<T, String>)
    ensures
        fetch_result(reply, "parse"@, res),
{
    finish(reply, "parse")
}

/// Ends a call whose reply is read as text (`read failed: …`).
pub fn finish_text(reply: Fetched<String>) -> (res: Result<String, String>)
    ensures
        fetch_result(reply, "read"@, res),
{
    finish(reply, "read")
}

fn finish<T>(reply: Fetched<T>, read_label: &str) -> (res: Result<T, String>)
    ensures
        fetch_result(reply, read_label@, res),
{
    match reply {
        Fetched::SendFailed(e) => {
            let mut m = owned("request failed: ");
            m.append(e.as_str());
            Err(m)
        },
        Fetched::Rejected { status, body } => {
            let mut m = owned("HTTP ");
            m.append(status.as_str());
            m.append(": ");
            m.append(body.as_str());
            Err(m)
        },
        Fetched::Read(Err(e)) => {
            let mut m = owned(read_label);
            m.append(" failed: ");
            m.append(e.as_str());
            Err(m)
        },
        Fetched::Read(Ok(v)) => Ok(v),
    }
}

} // verus!
