//! API endpoint paths of diary.e-schools.by.
use vstd::prelude::*;
use crate::text::{decimal, push_decimal};

verus! {

// ── Auth ──────────────────────────────────────────────────────────────
pub const AUTH_ME: &'static str = "/api/v1/admin/auth/me";
pub const LOGIN_STUDENT: &'static str = "/api/v1/admin/auth/login/student";
pub const AUTH_LOGIN: &'static str = "/api/v1/auth/login";
pub const AUTH_REFRESH: &'static str = "/api/v1/auth/refresh";
pub const IC_LOGIN: &'static str = "/api/ic/login";

// ── School year & periods ─────────────────────────────────────────────
pub const SCHOOL_YEAR: &'static str = "/api/v1/education/diary/school_year";
pub const TIME_ACTIVITIES: &'static str = "/api/v1/education/diary/time_activities";
pub const WEEK_ACTIVITIES: &'static str = "/api/v1/education/diary/time_activities/week_activities";

// ── OAuth config ──────────────────────────────────────────────────────
pub const OAUTH_URL: &'static str = "https://oauth.rios.unibel.by";
pub const CLIENT_ID: &'static str = "oauth_diary_echools";
pub const REDIRECT_URI: &'static str = "https://diary.e-schools.by/api/v1/admin/auth/callback";
pub const SCOPE: &'static str = "openid profile offline_access organization.write person.write person.write.all person.read persons.read dictionaries.read organization.read";

/// The path that exchanges a pre-authorisation UUID for the login profile.
pub fn data_for_login(uuid: &str) -> (path: String)
    ensures
        path@ == "/api/v1/admin/auth/data_for_login/"@ + uuid@,
{
    let mut s = String::new();
    s.append("/api/v1/admin/auth/data_for_login/");
    s.append(uuid);
    s
}

/// The diary's OAuth callback path for an authorisation code.
pub fn auth_callback(code: &str) -> (path: String)
    ensures
        path@ == "/api/v1/admin/auth/callback?code="@ + code@,
{
    let mut s = String::new();
    s.append("/api/v1/admin/auth/callback?code=");
    s.append(code);
    s
}

/// The path of the classes of a student.
pub open spec fn classes_path(school_id: Seq<char>, profile_id: Seq<char>) -> Seq<char> {
    "/api/v1/education/diary/schools/"@ + school_id + "/students/"@ + profile_id + "/classes"@
}

/// The classes of a student.
pub fn classes(school_id: &str, profile_id: &str) -> (path: String)
    ensures
        path@ == classes_path(school_id@, profile_id@),
{
    let mut s = String::new();
    s.append("/api/v1/education/diary/schools/");
    s.append(school_id);
    s.append("/students/");
    s.append(profile_id);
    s.append("/classes");
    s
}

/// The path of the lessons of one school week.
pub open spec fn lessons_path(school_id: Seq<char>, class_id: Seq<char>, profile_id: Seq<char>, week_uuid: Seq<char>) -> Seq<char> {
    "/api/v1/education/diary/schools/"@ + school_id + "/classes/"@ + class_id + "/students/"@
        + profile_id + "/lessons?week_activity_uuid="@ + week_uuid
}

/// The lessons of one school week.
pub fn lessons(school_id: &str, class_id: &str, profile_id: &str, week_uuid: &str) -> (path: String)
    ensures
        path@ == lessons_path(school_id@, class_id@, profile_id@, week_uuid@),
{
    let mut s = String::new();
    s.append("/api/v1/education/diary/schools/");
    s.append(school_id);
    s.append("/classes/");
    s.append(class_id);
    s.append("/students/");
    s.append(profile_id);
    s.append("/lessons?week_activity_uuid=");
    s.append(week_uuid);
    s
}

/// The attachments and links of one lesson.
pub fn attachments(school_id: &str, class_id: &str, profile_id: &str, lesson_uuid: &str) -> (path: String)
    ensures
        path@ == "/api/v1/education/diary/schools/"@ + school_id@ + "/classes/"@ + class_id@ + "/students/"@ + profile_id@ + "/lessons/"@ + lesson_uuid@ + "/attachments_and_links"@,
{
    let mut s = String::new();
    s.append("/api/v1/education/diary/schools/");
    s.append(school_id);
    s.append("/classes/");
    s.append(class_id);
    s.append("/students/");
    s.append(profile_id);
    s.append("/lessons/");
    s.append(lesson_uuid);
    s.append("/attachments_and_links");
    s
}

/// The final marks of a student.
pub fn final_marks(school_id: &str, class_id: &str, profile_id: &str) -> (path: String)
    ensures
        path@ == "/api/v1/education/diary/schools/"@ + school_id@ + "/classes/"@ + class_id@ + "/students/"@ + profile_id@ + "/final/whole"@,
{
    let mut s = String::new();
    s.append("/api/v1/education/diary/schools/");
    s.append(school_id);
    s.append("/classes/");
    s.append(class_id);
    s.append("/students/");
    s.append(profile_id);
    s.append("/final/whole");
    s
}

/// The weekly diary signatures of a student.
pub fn diary_signatures_weekly(school_id: &str, class_id: &str, profile_id: &str) -> (path: String)
    ensures
        path@ == "/api/v1/education/diary/schools/"@ + school_id@ + "/classes/"@ + class_id@ + "/students/"@ + profile_id@ + "/diary_signatures/weekly"@,
{
    let mut s = String::new();
    s.append("/api/v1/education/diary/schools/");
    s.append(school_id);
    s.append("/classes/");
    s.append(class_id);
    s.append("/students/");
    s.append(profile_id);
    s.append("/diary_signatures/weekly");
    s
}

/// The diary signature of one week activity.
pub fn diary_signatures_weekly_activity(school_id: &str, class_id: &str, profile_id: &str, activity_id: &str) -> (path: String)
    ensures
        path@ == "/api/v1/education/diary/schools/"@ + school_id@ + "/classes/"@ + class_id@ + "/students/"@ + profile_id@ + "/diary_signatures/weekly/activities/"@ + activity_id@,
{
    let mut s = String::new();
    s.append("/api/v1/education/diary/schools/");
    s.append(school_id);
    s.append("/classes/");
    s.append(class_id);
    s.append("/students/");
    s.append(profile_id);
    s.append("/diary_signatures/weekly/activities/");
    s.append(activity_id);
    s
}

/// The final diary signature of one period.
pub fn diary_signatures_final(school_id: &str, class_id: &str, profile_id: &str, period_uuid: &str) -> (path: String)
    ensures
        path@ == "/api/v1/education/diary/schools/"@ + school_id@ + "/classes/"@ + class_id@ + "/students/"@ + profile_id@ + "/diary_signatures/final/activities/"@ + period_uuid@,
{
    let mut s = String::new();
    s.append("/api/v1/education/diary/schools/");
    s.append(school_id);
    s.append("/classes/");
    s.append(class_id);
    s.append("/students/");
    s.append(profile_id);
    s.append("/diary_signatures/final/activities/");
    s.append(period_uuid);
    s
}

/// The educational subjects of a student.
pub fn educational_subjects(school_id: &str, class_id: &str, profile_id: &str) -> (path: String)
    ensures
        path@ == "/api/v1/education/diary/schools/"@ + school_id@ + "/classes/"@ + class_id@ + "/students/"@ + profile_id@ + "/educational_subjects"@,
{
    let mut s = String::new();
    s.append("/api/v1/education/diary/schools/");
    s.append(school_id);
    s.append("/classes/");
    s.append(class_id);
    s.append("/students/");
    s.append(profile_id);
    s.append("/educational_subjects");
    s
}

/// The path of the subjects of a class with their teachers.
pub open spec fn subjects_path(school_id: Seq<char>, profile_id: Seq<char>, class_id: Seq<char>) -> Seq<char> {
    "/api/v1/education/diary/schools/"@ + school_id + "/students/"@ + profile_id + "/classes/"@
        + class_id + "/subjects"@
}

/// The subjects of a class with their teachers.
pub fn subjects(school_id: &str, profile_id: &str, class_id: &str) -> (path: String)
    ensures
        path@ == subjects_path(school_id@, profile_id@, class_id@),
{
    let mut s = String::new();
    s.append("/api/v1/education/diary/schools/");
    s.append(school_id);
    s.append("/students/");
    s.append(profile_id);
    s.append("/classes/");
    s.append(class_id);
    s.append("/subjects");
    s
}

/// The full name of a school employee.
pub fn employee_fio(school_id: &str, employee_uuid: &str) -> (path: String)
    ensures
        path@ == "/api/v1/education/diary/schools/"@ + school_id@ + "/employees/"@ + employee_uuid@ + "/fio"@,
{
    let mut s = String::new();
    s.append("/api/v1/education/diary/schools/");
    s.append(school_id);
    s.append("/employees/");
    s.append(employee_uuid);
    s.append("/fio");
    s
}

/// The path of the bell schedules of a school.
pub open spec fn bells_path(school_id: Seq<char>) -> Seq<char> {
    "/api/v1/education/diary/schools/"@ + school_id + "/bells/whole"@
}

/// The bell schedules of a school.
pub fn bells(school_id: &str) -> (path: String)
    ensures
        path@ == bells_path(school_id@),
{
    let mut s = String::new();
    s.append("/api/v1/education/diary/schools/");
    s.append(school_id);
    s.append("/bells/whole");
    s
}

/// The path of the timetables of a class.
pub open spec fn timetable_path(school_id: Seq<char>, class_id: Seq<char>) -> Seq<char> {
    "/api/v1/education/diary/schools/"@ + school_id + "/classes/"@ + class_id + "/timetables/whole"@
}

/// The timetables of a class.
pub fn timetable(school_id: &str, class_id: &str) -> (path: String)
    ensures
        path@ == timetable_path(school_id@, class_id@),
{
    let mut s = String::new();
    s.append("/api/v1/education/diary/schools/");
    s.append(school_id);
    s.append("/classes/");
    s.append(class_id);
    s.append("/timetables/whole");
    s
}

/// The class teacher's messages to a student.
pub fn master_messages(school_id: &str, class_id: &str, profile_id: &str) -> (path: String)
    ensures
        path@ == "/api/v1/education/diary/schools/"@ + school_id@ + "/classes/"@ + class_id@ + "/students/"@ + profile_id@ + "/master_messages"@,
{
    let mut s = String::new();
    s.append("/api/v1/education/diary/schools/");
    s.append(school_id);
    s.append("/classes/");
    s.append(class_id);
    s.append("/students/");
    s.append(profile_id);
    s.append("/master_messages");
    s
}

/// The timetables of all classes of one level of study.
pub fn timetable_by_level(school_id: &str, level: u32) -> (path: String)
    ensures
        path@ == "/api/v1/education/diary/schools/"@ + school_id@ + "/levels/"@ + decimal(level as nat)
            + "/timetables/whole"@,
{
    let mut s = String::new();
    s.append("/api/v1/education/diary/schools/");
    s.append(school_id);
    s.append("/levels/");
    push_decimal(&mut s, level as u64);
    s.append("/timetables/whole");
    s
}

} // verus!
