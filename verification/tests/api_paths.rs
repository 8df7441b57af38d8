use eschool::api::blocking::{finish_json, finish_text, is_success, request_url, Fetched, BASE_URL};
use eschool::api::endpoints::{
    attachments, auth_callback, bells, classes, data_for_login, diary_signatures_final,
    diary_signatures_weekly, diary_signatures_weekly_activity, educational_subjects, employee_fio,
    final_marks, lessons, master_messages, subjects, timetable, timetable_by_level, AUTH_ME,
    SCHOOL_YEAR, WEEK_ACTIVITIES,
};
use eschool::network::api::{
    diary_signatures_path, master_messages_path, menu_page_path, payments_path,
    planning_subjects_path, premises_path, supplementary_diary_path, supplementary_sections_path,
};

#[test]
fn endpoint_constants() {
    assert_eq!(AUTH_ME, "/api/v1/admin/auth/me");
    assert_eq!(SCHOOL_YEAR, "/api/v1/education/diary/school_year");
    assert_eq!(WEEK_ACTIVITIES, "/api/v1/education/diary/time_activities/week_activities");
    assert_eq!(BASE_URL, "https://diary.e-schools.by");
}

#[test]
fn login_paths() {
    assert_eq!(data_for_login("u-1"), "/api/v1/admin/auth/data_for_login/u-1");
    assert_eq!(auth_callback("c0de"), "/api/v1/admin/auth/callback?code=c0de");
}

#[test]
fn student_paths() {
    assert_eq!(classes("S", "P"), "/api/v1/education/diary/schools/S/students/P/classes");
    assert_eq!(
        lessons("S", "C", "P", "W"),
        "/api/v1/education/diary/schools/S/classes/C/students/P/lessons?week_activity_uuid=W"
    );
    assert_eq!(
        attachments("S", "C", "P", "L"),
        "/api/v1/education/diary/schools/S/classes/C/students/P/lessons/L/attachments_and_links"
    );
    assert_eq!(
        final_marks("S", "C", "P"),
        "/api/v1/education/diary/schools/S/classes/C/students/P/final/whole"
    );
    assert_eq!(
        educational_subjects("S", "C", "P"),
        "/api/v1/education/diary/schools/S/classes/C/students/P/educational_subjects"
    );
    assert_eq!(
        subjects("S", "P", "C"),
        "/api/v1/education/diary/schools/S/students/P/classes/C/subjects"
    );
    assert_eq!(
        master_messages("S", "C", "P"),
        "/api/v1/education/diary/schools/S/classes/C/students/P/master_messages"
    );
}

#[test]
fn signature_paths() {
    assert_eq!(
        diary_signatures_weekly("S", "C", "P"),
        "/api/v1/education/diary/schools/S/classes/C/students/P/diary_signatures/weekly"
    );
    assert_eq!(
        diary_signatures_weekly_activity("S", "C", "P", "A"),
        "/api/v1/education/diary/schools/S/classes/C/students/P/diary_signatures/weekly/activities/A"
    );
    assert_eq!(
        diary_signatures_final("S", "C", "P", "Q"),
        "/api/v1/education/diary/schools/S/classes/C/students/P/diary_signatures/final/activities/Q"
    );
}

#[test]
fn school_paths() {
    assert_eq!(employee_fio("S", "E"), "/api/v1/education/diary/schools/S/employees/E/fio");
    assert_eq!(bells("S"), "/api/v1/education/diary/schools/S/bells/whole");
    assert_eq!(timetable("S", "C"), "/api/v1/education/diary/schools/S/classes/C/timetables/whole");
    assert_eq!(
        timetable_by_level("S", 11),
        "/api/v1/education/diary/schools/S/levels/11/timetables/whole"
    );
    assert_eq!(
        timetable_by_level("S", 0),
        "/api/v1/education/diary/schools/S/levels/0/timetables/whole"
    );
}

#[test]
fn application_paths() {
    assert_eq!(
        master_messages_path("S", "C", "P", "W"),
        "/api/v1/education/diary/schools/S/classes/C/students/P/master_messages?week_activity_id=W"
    );
    assert_eq!(
        diary_signatures_path("S", "C", "P", "W"),
        "/api/v1/education/diary/schools/S/classes/C/students/P/diary_signatures/weekly?week_activity_id=W"
    );
    assert_eq!(planning_subjects_path("C"), "/api/v1/education/planning/classes/C/educational_subjects");
    assert_eq!(premises_path("S", None), "/api/v1/institution/schools/S/premises");
    assert_eq!(premises_path("S", Some("спорт зал")), "/api/v1/institution/schools/S/premises?q=%D1%81%D0%BF%D0%BE%D1%80%D1%82%20%D0%B7%D0%B0%D0%BB");
    assert_eq!(menu_page_path("a b", 2, 20), "/api/v1/meals/menus/page?q=a%20b&page=2&size=20");
    assert_eq!(
        payments_path("S", "P", 100, 200),
        "/api/v1/meals/diary/schools/S/students/P/payments/billing?start_ts=100&end_ts=200"
    );
    assert_eq!(
        supplementary_diary_path("P", 5, 6),
        "/api/v1/section/diary-supplementary/students/P/lessons/diary?start_ts=5&end_ts=6"
    );
    let with_filter = supplementary_sections_path("S", Some("x&y"), 0, 10);
    assert_eq!(
        with_filter,
        "/api/v1/section/diary-supplementary/schools/S/sections/page?q=x%26y&page=0&size=10"
    );
}

#[test]
fn sections_without_filter() {
    assert_eq!(
        supplementary_sections_path("S", None, 1, 10),
        "/api/v1/section/diary-supplementary/schools/S/sections/page?page=1&size=10"
    );
}

#[test]
fn request_urls_are_absolute() {
    assert_eq!(request_url("/api/v1/admin/auth/me"), "https://diary.e-schools.by/api/v1/admin/auth/me");
}

#[test]
fn success_statuses() {
    assert!(is_success(200));
    assert!(is_success(204));
    assert!(is_success(299));
    assert!(!is_success(199));
    assert!(!is_success(300));
    assert!(!is_success(401));
}

#[test]
fn call_results() {
    let sent: Result<u32, String> = finish_json(Fetched::SendFailed("timeout".to_string()));
    assert_eq!(sent, Err("request failed: timeout".to_string()));
    let rejected: Result<u32, String> = finish_json(Fetched::Rejected {
        status: "401 Unauthorized".to_string(),
        body: "no".to_string(),
    });
    assert_eq!(rejected, Err("HTTP 401 Unauthorized: no".to_string()));
    let unparsed: Result<u32, String> = finish_json(Fetched::Read(Err("eof".to_string())));
    assert_eq!(unparsed, Err("parse failed: eof".to_string()));
    let ok: Result<u32, String> = finish_json(Fetched::Read(Ok(7)));
    assert_eq!(ok, Ok(7));
    let text = finish_text(Fetched::Read(Err("bad utf-8".to_string())));
    assert_eq!(text, Err("read failed: bad utf-8".to_string()));
    let body = finish_text(Fetched::Read(Ok("hello".to_string())));
    assert_eq!(body, Ok("hello".to_string()));
}
