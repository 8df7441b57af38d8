//! Request paths of the application's API calls that the endpoint list of
//! the client library does not cover.
use vstd::prelude::*;
use crate::codec::url_encode;
use crate::network::auth::url_encoded;
use crate::text::{decimal, owned, push_decimal};

verus! {

/// The meal types dictionary.
pub const MEAL_TYPES: &'static str = "/api/v1/meals/dictionaries/meal_types";

/// The eating journals (queried by `POST`).
pub const EATING_JOURNALS: &'static str = "/api/v1/meals/eating_journals";

/// The class teacher's messages of one week.
pub fn master_messages_path(school_id: &str, class_id: &str, profile_id: &str, week_activity_id: &str) -> (path: String)
    ensures
        path@ == "/api/v1/education/diary/schools/"@ + school_id@ + "/classes/"@ + class_id@
            + "/students/"@ + profile_id@ + "/master_messages?week_activity_id="@ + week_activity_id@,
{
    let mut s = owned("/api/v1/education/diary/schools/");
    s.append(school_id);
    s.append("/classes/");
    s.append(class_id);
    s.append("/students/");
    s.append(profile_id);
    s.append("/master_messages?week_activity_id=");
    s.append(week_activity_id);
    s
}

/// The weekly diary signatures of one week.
pub fn diary_signatures_path(school_id: &str, class_id: &str, profile_id: &str, week_activity_id: &str) -> (path: String)
    ensures
        path@ == "/api/v1/education/diary/schools/"@ + school_id@ + "/classes/"@ + class_id@
            + "/students/"@ + profile_id@ + "/diary_signatures/weekly?week_activity_id="@
            + week_activity_id@,
{
    let mut s = owned("/api/v1/education/diary/schools/");
    s.append(school_id);
    s.append("/classes/");
    s.append(class_id);
    s.append("/students/");
    s.append(profile_id);
    s.append("/diary_signatures/weekly?week_activity_id=");
    s.append(week_activity_id);
    s
}

/// The planned subjects of a class.
pub fn planning_subjects_path(class_id: &str) -> (path: String)
    ensures
        path@ == "/api/v1/education/planning/classes/"@ + class_id@ + "/educational_subjects"@,
{
    let mut s = owned("/api/v1/education/planning/classes/");
    s.append(class_id);
    s.append("/educational_subjects");
    s
}

/// The premises of a school, optionally filtered by a percent-encoded query.
pub fn premises_path(school_id: &str, filter: Option<&str>) -> (path: String)
    ensures
        path@ == match filter {
            Some(f) => "/api/v1/institution/schools/"@ + school_id@ + "/premises?q="@ + url_encoded(f@),
            None => "/api/v1/institution/schools/"@ + school_id@ + "/premises"@,
        },
{
    let mut s = owned("/api/v1/institution/schools/");
    s.append(school_id);
    match filter {
        Some(f) => {
            s.append("/premises?q=");
            let q = url_encode(f);
            s.append(q.as_str());
        },
        None => {
            s.append("/premises");
        },
    }
    s
}

/// One page of the menus matching a query.
pub fn menu_page_path(filter: &str, page: u32, size: u32) -> (path: String)
    ensures
        path@ == "/api/v1/meals/menus/page?q="@ + url_encoded(filter@) + "&page="@ + decimal(
            page as nat,
        ) + "&size="@ + decimal(size as nat),
{
    let mut s = owned("/api/v1/meals/menus/page?q=");
    let q = url_encode(filter);
    s.append(q.as_str());
    s.append("&page=");
    push_decimal(&mut s, page as u64);
    s.append("&size=");
    push_decimal(&mut s, size as u64);
    s
}

/// The billing of a student between two timestamps.
pub fn payments_path(school_id: &str, profile_id: &str, start_ts: u64, end_ts: u64) -> (path: String)
    ensures
        path@ == "/api/v1/meals/diary/schools/"@ + school_id@ + "/students/"@ + profile_id@
            + "/payments/billing?start_ts="@ + decimal(start_ts as nat) + "&end_ts="@ + decimal(
            end_ts as nat,
        ),
{
    let mut s = owned("/api/v1/meals/diary/schools/");
    s.append(school_id);
    s.append("/students/");
    s.append(profile_id);
    s.append("/payments/billing?start_ts=");
    push_decimal(&mut s, start_ts);
    s.append("&end_ts=");
    push_decimal(&mut s, end_ts);
    s
}

/// One page of the supplementary sections of a school, optionally filtered
/// by a percent-encoded query.
pub fn supplementary_sections_path(school_id: &str, filter: Option<&str>, page: u32, size: u32) -> (path: String)
    ensures
        path@ == "/api/v1/section/diary-supplementary/schools/"@ + school_id@ + match filter {
            Some(f) => "/sections/page?q="@ + url_encoded(f@) + "&page="@,
            None => "/sections/page?page="@,
        } + decimal(page as nat) + "&size="@ + decimal(size as nat),
{
    let mut s = owned("/api/v1/section/diary-supplementary/schools/");
    s.append(school_id);
    match filter {
        Some(f) => {
            s.append("/sections/page?q=");
            let q = url_encode(f);
            s.append(q.as_str());
            s.append("&page=");
        },
        None => {
            s.append("/sections/page?page=");
        },
    }
    push_decimal(&mut s, page as u64);
    s.append("&size=");
    push_decimal(&mut s, size as u64);
    s
}

/// The supplementary-lesson diary of a student between two timestamps.
pub fn supplementary_diary_path(profile_id: &str, start_ts: u64, end_ts: u64) -> (path: String)
    ensures
        path@ == "/api/v1/section/diary-supplementary/students/"@ + profile_id@
            + "/lessons/diary?start_ts="@ + decimal(start_ts as nat) + "&end_ts="@ + decimal(
            end_ts as nat,
        ),
{
    let mut s = owned("/api/v1/section/diary-supplementary/students/");
    s.append(profile_id);
    s.append("/lessons/diary?start_ts=");
    push_decimal(&mut s, start_ts);
    s.append("&end_ts=");
    push_decimal(&mut s, end_ts);
    s
}

} // verus!
