//! URL resolution of the mobile OAuth flow.
use vstd::prelude::*;
use crate::api::auth::{host_end, host_end_index, origin_defined};
use crate::text::{chars_of, has_prefix, rfind, rfind_char, starts_with, string_of};

pub use crate::api::auth::{decode_entities, extract_csrf, extract_return_url, extract_uuid};

verus! {

/// Where `relative` leads from the page at `base`: itself when it starts
/// with `http`; after the scheme and host of `base` when it starts with `/`;
/// otherwise after the last `/` of `base` (or after all of `base`).
pub open spec fn resolved_url(base: Seq<char>, relative: Seq<char>) -> Seq<char> {
    if starts_with(relative, "http"@) {
        relative
    } else if starts_with(relative, "/"@) {
        base.subrange(0, host_end(base)) + relative
    } else {
        match rfind_char(base, '/') {
            Some(i) => base.subrange(0, i + 1) + relative,
            None => base + relative,
        }
    }
}

/// Inputs on which the resolution does not slice `base` off a character
/// boundary: a host-relative URL needs a `base` with a defined origin.
pub open spec fn resolvable(base: Seq<char>, relative: Seq<char>) -> bool {
    starts_with(relative, "http"@) || !starts_with(relative, "/"@) || origin_defined(base)
}

/// Resolves a redirect target against the page it came from.
pub fn resolve_url(base: &str, relative: &str) -> (res: String)
    requires
        resolvable(base@, relative@),
    ensures
        res@ == resolved_url(base@, relative@),
{
    let rel = chars_of(relative);
    let b = chars_of(base);
    let http = chars_of("http");
    let slash = chars_of("/");
    if has_prefix(&rel, &http) {
        string_of(&rel, 0, rel.len())
    } else if has_prefix(&rel, &slash) {
        let end = host_end_index(&b);
        let mut s = string_of(&b, 0, end);
        s.append(relative);
        s
    } else {
        let mut s = match rfind(&b, '/') {
            Some(i) => {
                proof {
                    lemma_rfind_below_in_range(b@, '/', b@.len() as int);
                }
                let n = b.len();
                assert(i < n);
                string_of(&b, 0, i + 1)
            },
            None => string_of(&b, 0, b.len()),
        };
        s.append(relative);
        s
    }
}

proof fn lemma_rfind_below_in_range(s: Seq<char>, c: char, end: int)
    requires
        end <= s.len(),
    ensures
        crate::text::rfind_below(s, c, end) matches Some(i) ==> 0 <= i < end,
    decreases end,
{
    if end > 0 && s[end - 1] != c {
        lemma_rfind_below_in_range(s, c, end - 1);
    }
}

} // verus!
