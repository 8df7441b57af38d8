use std::collections::HashMap;

use eschool::api::entities::{DaySchedule, LessonSlot, SubjectWithTeacher};
use eschool::features::diary::MarkEntry;
use eschool::network::models::{
    BellTime, TimetableDay, TimetableSlot, TimetableTimeSlot,
};
use eschool::pages::diary::{
    all_subject_names, day_subjects, format_date_header, format_date_short, grade_band, lessons_at, sorted_subjects,
    strip_week_summary, summary_quarter, GradeBand,
};
use eschool::pages::login::{class_line, credentials_problem, error_to_show, login_button_text, session_note};
use eschool::pages::pin_lock::{PinEntry, PinSetup, PIN_LENGTH};
use eschool::pages::schedule::{day_lesson_rows, day_title, empty_day_text, paged_day, weekday_name};
use eschool::pages::teachers::{teacher_key, unique_teacher_indices};

fn bell(n: u32, start: &str, end: &str) -> BellTime {
    BellTime { uuid: None, summary: None, number: n, start_time: start.to_string(), end_time: end.to_string() }
}

fn tslot(summary: Option<&str>) -> TimetableSlot {
    TimetableSlot {
        uuid: "u".to_string(),
        summary: summary.map(|s| s.to_string()),
        number: 1,
        room_id: None,
        lesson_template_id: "t".to_string(),
    }
}

fn timetable_day(dow: u32, bells: Vec<(u32, Vec<Option<&str>>)>) -> TimetableDay {
    TimetableDay {
        day_of_week: dow,
        timetable_slots: bells
            .into_iter()
            .map(|(n, subjects)| TimetableTimeSlot {
                time_of_bells: bell(n, "08:00", "08:45"),
                slots: subjects.into_iter().map(tslot).collect(),
            })
            .collect(),
    }
}

fn teacher(id: &str, subject: &str, teacher_id: &str, name: &str) -> SubjectWithTeacher {
    SubjectWithTeacher {
        id: id.to_string(),
        partition_type: String::new(),
        subject_type: String::new(),
        subject_title: subject.to_string(),
        level_of_study: String::new(),
        teacher_id: teacher_id.to_string(),
        teacher: name.to_string(),
        group_id: String::new(),
        group_name: None,
    }
}

fn lesson(subject: &str) -> LessonSlot {
    LessonSlot {
        lesson_uuid: "l".to_string(),
        lesson_template_id: "t".to_string(),
        subject_id: "s".to_string(),
        subject_title: subject.to_string(),
        teacher_id: "tc".to_string(),
        lesson_type: None,
        number: 1,
        topic: None,
        homework: None,
        message: None,
        start_time: "08:00".to_string(),
        has_attachments_or_links: false,
        homework_source_id: None,
        lesson_mark: None,
        substitution: None,
    }
}

#[test]
fn weekday_names() {
    assert_eq!(weekday_name(1), "Понедельник");
    assert_eq!(weekday_name(6), "Суббота");
    assert_eq!(weekday_name(7), "Воскресенье");
    assert_eq!(weekday_name(0), "Воскресенье");
}

#[test]
fn schedule_titles() {
    let days = vec![
        timetable_day(3, vec![(1, vec![Some("Алгебра")]), (2, vec![]), (3, vec![Some("Физика")])]),
        timetable_day(3, vec![(1, vec![Some("x")])]),
    ];
    assert_eq!(day_title(&days, 3), "Среда  ·  2 ур.");
    assert_eq!(day_title(&days, 4), "Четверг");
    assert_eq!(empty_day_text(5), "Нет уроков");
    assert_eq!(empty_day_text(6), "Выходной день");
    assert_eq!(empty_day_text(7), "Выходной день");
}

#[test]
fn schedule_paging_stays_in_the_week() {
    assert_eq!(paged_day(3, 1), 4);
    assert_eq!(paged_day(1, -1), 1);
    assert_eq!(paged_day(7, 1), 7);
    assert_eq!(paged_day(4, -10), 1);
}

#[test]
fn schedule_rows() {
    let days = vec![timetable_day(
        2,
        vec![(1, vec![Some("Алгебра"), Some("Геометрия")]), (2, vec![]), (3, vec![None]), (4, vec![Some("Физика")])],
    )];
    let rows = day_lesson_rows(&days, 2);
    let view: Vec<(&str, u32, &str, &str)> =
        rows.iter().map(|r| (r.key.as_str(), r.num, r.time.as_str(), r.subject.as_str())).collect();
    assert_eq!(
        view,
        vec![
            ("2:0:1", 1, "08:00–08:45", "Алгебра / Геометрия"),
            ("2:2:3", 3, "08:00–08:45", "—"),
            ("2:3:4", 4, "08:00–08:45", "Физика"),
        ]
    );
    assert!(day_lesson_rows(&days, 5).is_empty());
}

#[test]
fn teachers_listed_once() {
    let list = vec![
        teacher("1", "Математика", "t1", "Иванова"),
        teacher("2", "Физика", "t2", "Петров"),
        teacher("3", "Математика", "t1", "Иванова"),
        teacher("4", "Математика", "t3", "Сидоров"),
    ];
    assert_eq!(unique_teacher_indices(&list), vec![0, 1, 3]);
    assert_eq!(teacher_key(&list[1]), "t2:2");
}

#[test]
fn pin_entry_checks_four_digits() {
    assert_eq!(PIN_LENGTH, 4);
    let e = PinEntry::new();
    let (e, c) = e.press("1");
    assert!(c.is_none());
    let (e, _) = e.press("2");
    let (e, _) = e.press("⌫");
    assert_eq!(e.input, "1");
    let (e, _) = e.press("3");
    let (e, _) = e.press("4");
    let (e, c) = e.press("5");
    assert_eq!(c, Some("1345".to_string()));
    let (e, c) = e.press("6");
    assert!(c.is_none());
    assert_eq!(e.input, "1345");
    let (e, ok) = e.verdict(false);
    assert!(!ok && e.error && e.input.is_empty());
    let (e, _) = e.press("9");
    assert!(!e.error);
    let (e, ok) = e.verdict(true);
    assert!(ok && !e.error);
}

#[test]
fn pin_backspace_on_empty_input() {
    let (e, ok) = PinEntry::new().verdict(false);
    assert!(!ok);
    let (e, c) = e.press("⌫");
    assert!(c.is_none() && e.error && e.input.is_empty());
}

#[test]
fn pin_setup_saves_a_confirmed_pin() {
    let mut s = PinSetup::new();
    for k in ["1", "2", "3", "4"] {
        let (n, saved) = s.press(k);
        assert!(saved.is_none());
        s = n;
    }
    assert_eq!(s.step, 1);
    assert_eq!(s.confirm, "1234");
    assert!(s.input.is_empty());
    for k in ["1", "2", "3"] {
        s = s.press(k).0;
    }
    let (s, saved) = s.press("4");
    assert_eq!(saved, Some("1234".to_string()));
    assert!(!s.setup_mode);
}

#[test]
fn pin_setup_reports_a_mismatch() {
    let mut s = PinSetup::new();
    for k in ["1", "2", "3", "4", "4", "3", "2"] {
        s = s.press(k).0;
    }
    let (s, saved) = s.press("1");
    assert!(saved.is_none());
    assert_eq!(s.error, "PIN-коды не совпадают");
    assert!(s.setup_mode);
    assert_eq!(s.step, 1);
    assert!(s.input.is_empty());
    let (s, _) = s.press("1");
    assert!(s.error.is_empty());
}

#[test]
fn week_heading_drops_leading_zeros() {
    assert_eq!(strip_week_summary("01 сентября - 07 сентября"), "1 сентября - 7 сентября");
    assert_eq!(strip_week_summary("  00 и 000 "), "0 и 0");
    assert_eq!(strip_week_summary("10.09 - 2024"), "10.9 - 2024");
    assert_eq!(strip_week_summary(" без чисел "), "без чисел");
    assert_eq!(strip_week_summary(""), "");
}

#[test]
fn mark_bands() {
    assert_eq!(grade_band("10"), GradeBand::Excellent);
    assert_eq!(grade_band(" 9 "), GradeBand::Excellent);
    assert_eq!(grade_band("8"), GradeBand::Good);
    assert_eq!(grade_band("6"), GradeBand::Satisfactory);
    assert_eq!(grade_band("3"), GradeBand::Poor);
    assert_eq!(grade_band("1"), GradeBand::Failing);
    assert_eq!(grade_band("0"), GradeBand::Unmarked);
    assert_eq!(grade_band("11"), GradeBand::Unmarked);
    assert_eq!(grade_band("н"), GradeBand::Unmarked);
    assert_eq!(grade_band("8/9"), GradeBand::Unmarked);
    assert_eq!(grade_band("+7"), GradeBand::Good);
}

#[test]
fn dates() {
    assert_eq!(format_date_short(7, 9), "07.09");
    assert_eq!(format_date_short(31, 12), "31.12");
    assert_eq!(format_date_header(1, 7, 9), "Понедельник, 07.09");
}

#[test]
fn subject_list_is_sorted_and_unique() {
    let names: Vec<String> = ["Физика", "", "Алгебра", "Физика", "Биология", "Алгебра"]
        .iter()
        .map(|s| s.to_string())
        .collect();
    assert_eq!(sorted_subjects(&names), vec!["Алгебра", "Биология", "Физика"]);
    let mixed: Vec<String> = ["b", "a", "ab", "B", "a"].iter().map(|s| s.to_string()).collect();
    assert_eq!(sorted_subjects(&mixed), vec!["B", "a", "ab", "b"]);
    assert!(sorted_subjects(&vec![String::new()]).is_empty());
}

#[test]
fn lesson_subjects_in_order() {
    let days = vec![
        DaySchedule { day_of_week: 1, date: 0, slots: vec![lesson("A"), lesson("")] },
        DaySchedule { day_of_week: 2, date: 0, slots: vec![lesson("B")] },
    ];
    assert_eq!(day_subjects(&days), vec!["A", "", "B"]);
}

#[test]
fn pages_of_the_week_pager() {
    let current = vec![DaySchedule { day_of_week: 1, date: 1, slots: vec![] }];
    let mut cache: HashMap<i32, Vec<DaySchedule>> = HashMap::new();
    cache.insert(5, vec![DaySchedule { day_of_week: 2, date: 2, slots: vec![] }]);
    assert_eq!(lessons_at(&current, &cache, 4, 0).unwrap()[0].date, 1);
    assert_eq!(lessons_at(&current, &cache, 4, 1).unwrap()[0].date, 2);
    assert!(lessons_at(&current, &cache, 4, -1).is_none());
}

#[test]
fn summary_pages_stay_within_the_year() {
    assert_eq!(summary_quarter(1, 1), 2);
    assert_eq!(summary_quarter(0, -1), 0);
    assert_eq!(summary_quarter(4, 1), 4);
    assert_eq!(summary_quarter(3, 1), 4);
}

#[test]
fn login_form_checks() {
    assert_eq!(credentials_problem("  ", "pw"), Some("Введите имя пользователя"));
    assert_eq!(credentials_problem("", ""), Some("Введите имя пользователя"));
    assert_eq!(credentials_problem("ivan", ""), Some("Введите пароль"));
    assert_eq!(credentials_problem("ivan", " "), None);
}

#[test]
fn login_page_texts() {
    assert_eq!(error_to_show("local", "remote", false), Some("local".to_string()));
    assert_eq!(error_to_show("", "remote", false), Some("remote".to_string()));
    assert_eq!(error_to_show("local", "remote", true), None);
    assert_eq!(error_to_show("", "", false), None);
    assert_eq!(login_button_text(true), "Вход…");
    assert_eq!(login_button_text(false), "Войти");
    assert_eq!(session_note(Some("true")), "Сессия сохранена");
    assert_eq!(session_note(Some("false")), "Сессия не сохранена");
    assert_eq!(session_note(None), "Сессия не сохранена");
    assert_eq!(class_line("7А"), Some("Класс: 7А".to_string()));
    assert_eq!(class_line(""), None);
}

#[test]
fn subject_list_gathers_every_source() {
    let teachers = vec![teacher("1", "Физика", "t1", "Петров"), teacher("2", "", "t2", "X")];
    let lessons = vec![DaySchedule { day_of_week: 1, date: 0, slots: vec![lesson("Алгебра")] }];
    let cached = vec![vec![DaySchedule { day_of_week: 2, date: 0, slots: vec![lesson("Химия"), lesson("Физика")] }]];
    let mark = |s: &str| MarkEntry { subject: s.to_string(), mark: "8".to_string(), kind: None, author: None, uuid: None };
    let stored = vec![vec![mark("Биология")], vec![]];
    let shown = vec![mark("Астрономия")];
    assert_eq!(
        all_subject_names(&teachers, &lessons, &cached, &stored, &shown),
        vec!["Алгебра", "Астрономия", "Биология", "Физика", "Химия"]
    );
}
