use eschool::api::entities::{Class, UserInfo, WeekActivity};
use eschool::features::sync::{DataLoad, LoadAction, LoadReply, LoadStep};

fn user() -> UserInfo {
    UserInfo {
        user_id: "u".to_string(),
        school_id: "S".to_string(),
        school_name: "Школа".to_string(),
        our_school_id: "o".to_string(),
        profile_id: "P".to_string(),
        person_kind: "student".to_string(),
        full_name: "Иван".to_string(),
        roles: vec![],
        position: None,
        students_for_parent: None,
        parent_code: None,
    }
}

fn class(uuid: &str) -> Class {
    Class {
        uuid: uuid.to_string(),
        summary: None,
        label: "А".to_string(),
        level: 7,
        school: None,
        dt_disbanded: None,
        graduating_year: None,
        class_number: None,
        graduating: Some(false),
    }
}

fn week(uuid: &str, start: u64, end: u64) -> WeekActivity {
    WeekActivity {
        uuid: uuid.to_string(),
        summary: uuid.to_string(),
        time_activity_id: "t".to_string(),
        start_ts: start,
        end_ts: end,
    }
}

fn get(a: LoadAction) -> String {
    match a {
        LoadAction::Get(p) => p,
        other => panic!("expected a GET, got {:?}", other),
    }
}

fn fail(a: LoadAction) -> (String, bool) {
    match a {
        LoadAction::Fail { message, log_out } => (message, log_out),
        other => panic!("expected a failure, got {:?}", other),
    }
}

/// A load that has settled on class `C` and waits for the weeks.
fn at_weeks() -> DataLoad {
    let (l, _) = DataLoad::start(String::new(), 2024, true);
    let (l, _) = l.advance(LoadReply::Profile(Ok(user())));
    let (l, _) = l.advance(LoadReply::SchoolYear(None));
    let (l, _) = l.advance(LoadReply::Classes(Some(vec![class("C")])));
    l
}

#[test]
fn full_data_load() {
    let (l, a) = DataLoad::start(String::new(), 2024, true);
    assert_eq!(l.step, LoadStep::Profile);
    assert_eq!(get(a), "/api/v1/admin/auth/me");

    let (l, a) = l.advance(LoadReply::Profile(Ok(user())));
    assert_eq!(l.step, LoadStep::SchoolYear);
    assert_eq!(get(a), "/api/v1/education/diary/school_year");

    let (l, a) = l.advance(LoadReply::SchoolYear(Some("Y".to_string())));
    assert_eq!(l.step, LoadStep::ClassesByDate);
    match a {
        LoadAction::PostClasses { path, school_period, from, to } => {
            assert_eq!(path, "/api/v1/education/diary/schools/S/students/P/classes");
            assert_eq!(school_period, Some("Y".to_string()));
            assert_eq!(from, "01.09.2024");
            assert_eq!(to, "31.05.2025");
        }
        other => panic!("unexpected {:?}", other),
    }

    let (l, a) = l.advance(LoadReply::Classes(Some(vec![class("C"), class("D")])));
    assert_eq!(l.step, LoadStep::Weeks);
    assert_eq!(l.class_id, "C");
    assert_eq!(get(a), "/api/v1/education/diary/time_activities/week_activities");

    let ws = vec![week("w0", 0, 99), week("w1", 100, 199), week("w2", 200, 299)];
    let (l, a) = l.advance(LoadReply::Weeks(Some(ws), 150));
    assert_eq!(l.step, LoadStep::Lessons);
    assert_eq!(l.week, 1);
    assert_eq!(l.week_uuids, vec!["w0", "w1", "w2"]);
    match a {
        LoadAction::FetchWeek { index, path } => {
            assert_eq!(index, 1);
            assert_eq!(path, "/api/v1/education/diary/schools/S/classes/C/students/P/lessons?week_activity_uuid=w1");
        }
        other => panic!("unexpected {:?}", other),
    }

    let (l, a) = l.advance(LoadReply::Lessons(true));
    assert_eq!(l.step, LoadStep::Neighbours);
    match a {
        LoadAction::Prefetch(v) => assert_eq!(
            v,
            vec![
                (0, "/api/v1/education/diary/schools/S/classes/C/students/P/lessons?week_activity_uuid=w0".to_string()),
                (2, "/api/v1/education/diary/schools/S/classes/C/students/P/lessons?week_activity_uuid=w2".to_string()),
            ]
        ),
        other => panic!("unexpected {:?}", other),
    }

    let (l, a) = l.advance(LoadReply::Answered);
    assert_eq!(l.step, LoadStep::Bells);
    assert_eq!(get(a), "/api/v1/education/diary/schools/S/bells/whole");
    let (l, a) = l.advance(LoadReply::Answered);
    assert_eq!(l.step, LoadStep::Timetable);
    assert_eq!(get(a), "/api/v1/education/diary/schools/S/classes/C/timetables/whole");
    let (l, a) = l.advance(LoadReply::Answered);
    assert_eq!(l.step, LoadStep::Subjects);
    assert_eq!(get(a), "/api/v1/education/diary/schools/S/students/P/classes/C/subjects");
    let (l, a) = l.advance(LoadReply::Answered);
    assert_eq!(l.step, LoadStep::Done);
    assert!(matches!(a, LoadAction::Finish));
}

#[test]
fn expired_token_is_renewed_once() {
    let (l, _) = DataLoad::start(String::new(), 2024, true);
    let (l, a) = l.advance(LoadReply::Profile(Err("HTTP 401 Unauthorized: expired".to_string())));
    assert_eq!(l.step, LoadStep::Renewal);
    assert!(matches!(a, LoadAction::Renew));
    let (l, a) = l.advance(LoadReply::Renewed(true));
    assert_eq!(l.step, LoadStep::ProfileRetry);
    assert_eq!(get(a), "/api/v1/admin/auth/me");
    let (l, a) = l.advance(LoadReply::Profile(Err("HTTP 401 Unauthorized: again".to_string())));
    assert_eq!(l.step, LoadStep::Failed);
    assert_eq!(fail(a), ("Auth error: HTTP 401 Unauthorized: again".to_string(), false));
}

#[test]
fn refused_renewal_ends_the_session() {
    let (l, _) = DataLoad::start(String::new(), 2024, true);
    let (l, _) = l.advance(LoadReply::Profile(Err("HTTP 401 Unauthorized: x".to_string())));
    let (l, a) = l.advance(LoadReply::Renewed(false));
    assert_eq!(l.step, LoadStep::Failed);
    assert_eq!(fail(a), ("Сессия истекла. Войдите снова.".to_string(), true));
}

#[test]
fn other_profile_errors_stop_the_load() {
    let (l, _) = DataLoad::start(String::new(), 2024, true);
    let (l, a) = l.advance(LoadReply::Profile(Err("request failed: dns".to_string())));
    assert_eq!(l.step, LoadStep::Failed);
    assert_eq!(fail(a), ("Auth error: request failed: dns".to_string(), false));
}

#[test]
fn class_search_falls_back() {
    let (l, _) = DataLoad::start("OLD".to_string(), 2024, true);
    let (l, _) = l.advance(LoadReply::Profile(Ok(user())));
    let (l, _) = l.advance(LoadReply::SchoolYear(None));
    let (l, a) = l.advance(LoadReply::Classes(None));
    assert_eq!(l.step, LoadStep::ClassList);
    assert_eq!(get(a), "/api/v1/education/diary/schools/S/students/P/classes");
    let (l, a) = l.advance(LoadReply::Classes(Some(vec![])));
    assert_eq!(l.step, LoadStep::Weeks);
    assert_eq!(l.class_id, "OLD");
    assert_eq!(get(a), "/api/v1/education/diary/time_activities/week_activities");
}

#[test]
fn no_class_at_all() {
    let (l, _) = DataLoad::start(String::new(), 2024, true);
    let (l, _) = l.advance(LoadReply::Profile(Ok(user())));
    let (l, _) = l.advance(LoadReply::SchoolYear(None));
    let (l, _) = l.advance(LoadReply::Classes(Some(vec![])));
    let (l, a) = l.advance(LoadReply::Classes(None));
    assert_eq!(l.step, LoadStep::Failed);
    assert_eq!(fail(a), ("Class not found — try opening diary.e-schools.by to sync".to_string(), false));
}

#[test]
fn no_current_week_goes_to_the_bells() {
    let l = at_weeks();
    let (l, a) = l.advance(LoadReply::Weeks(Some(vec![week("w0", 0, 9)]), 50));
    assert_eq!(l.step, LoadStep::Bells);
    assert_eq!(get(a), "/api/v1/education/diary/schools/S/bells/whole");
    let l = at_weeks();
    let (l, _) = l.advance(LoadReply::Weeks(None, 50));
    assert_eq!(l.step, LoadStep::Bells);
}

#[test]
fn unreadable_lessons_skip_the_neighbours() {
    let l = at_weeks();
    let (l, _) = l.advance(LoadReply::Weeks(Some(vec![week("w0", 0, 9)]), 5));
    let (l, a) = l.advance(LoadReply::Lessons(false));
    assert_eq!(l.step, LoadStep::Bells);
    assert_eq!(get(a), "/api/v1/education/diary/schools/S/bells/whole");
}

#[test]
fn single_week_has_no_neighbours() {
    let l = at_weeks();
    let (l, _) = l.advance(LoadReply::Weeks(Some(vec![week("w0", 0, 9)]), 5));
    let (_, a) = l.advance(LoadReply::Lessons(true));
    assert!(matches!(a, LoadAction::Prefetch(ref v) if v.is_empty()));
}

#[test]
fn synchronous_load_neither_renews_nor_prefetches() {
    let (l, _) = DataLoad::start(String::new(), 2024, false);
    assert!(!l.background);
    let (l, a) = l.advance(LoadReply::Profile(Err("HTTP 401 Unauthorized: x".to_string())));
    assert_eq!(l.step, LoadStep::Failed);
    assert_eq!(fail(a), ("Auth error: HTTP 401 Unauthorized: x".to_string(), false));

    let (l, _) = DataLoad::start(String::new(), 2024, false);
    let (l, _) = l.advance(LoadReply::Profile(Ok(user())));
    let (l, _) = l.advance(LoadReply::SchoolYear(None));
    let (l, _) = l.advance(LoadReply::Classes(Some(vec![class("C")])));
    let (l, _) = l.advance(LoadReply::Weeks(Some(vec![week("w0", 0, 9), week("w1", 10, 19)]), 5));
    let (l, a) = l.advance(LoadReply::Lessons(true));
    assert_eq!(l.step, LoadStep::Bells);
    assert_eq!(get(a), "/api/v1/education/diary/schools/S/bells/whole");
}
