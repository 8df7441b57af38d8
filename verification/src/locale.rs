//! The language the application starts in.
use vstd::prelude::*;
use crate::text::{chars_of, find, find_first, lemma_find_from_occurs, string_of};

verus! {

/// The language code of a BCP-47 tag: what precedes its first `-`.
pub open spec fn language_code(tag: Seq<char>) -> Seq<char> {
    match find_first(tag, "-"@) {
        Some(i) => tag.take(i),
        None => tag,
    }
}

/// The locale the application uses for a system language tag: Russian and
/// Belarusian are supported, anything else falls back to English.
pub fn language_for_tag(tag: &str) -> (code: &'static str)
    ensures
        code@ == if language_code(tag@) == "ru"@ {
            "ru"@
        } else if language_code(tag@) == "be"@ {
            "be"@
        } else {
            "en"@
        },
{
    let cs = chars_of(tag);
    let dash = chars_of("-");
    let end = match find(&cs, &dash) {
        Some(i) => {
            proof {
                lemma_find_from_occurs(cs@, dash@, 0);
            }
            i
        },
        None => cs.len(),
    };
    let code = string_of(&cs, 0, end);
    assert(code@ == language_code(tag@));
    let ru = crate::text::owned("ru");
    let be = crate::text::owned("be");
    if code == ru {
        "ru"
    } else if code == be {
        "be"
    } else {
        "en"
    }
}

/// The locale on platforms without a system language lookup: English.
pub fn system_locale() -> (code: &'static str)
    ensures
        code@ == "en"@,
{
    "en"
}

} // verus!
