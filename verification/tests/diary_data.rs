use std::collections::HashMap;

use eschool::api::entities::{Class, DaySchedule, LessonMark, LessonSlot, WeekActivity};
use eschool::features::diary::{
    class_label, current_week_index, first_class_id, is_official, neighbour_weeks, plan_quarter,
    plan_week, plan_year, prefetch_targets, quarter_bounds, quarter_for_index, quarter_label,
    quarter_entries, quarter_marks, quarter_span, quarter_week_indices, school_year_range,
    settle_class_id, plan_startup, store_quarter, stored_quarter, week_fetches, year_spans,
    year_table, MarkEntry, StartLessons,
};

fn week(uuid: &str, start: u64, end: u64) -> WeekActivity {
    WeekActivity {
        uuid: uuid.to_string(),
        summary: format!("week {uuid}"),
        time_activity_id: "t".to_string(),
        start_ts: start,
        end_ts: end,
    }
}

fn weeks(n: usize) -> Vec<WeekActivity> {
    (0..n).map(|i| week(&format!("w{i}"), i as u64 * 100, i as u64 * 100 + 99)).collect()
}

fn class(uuid: &str, level: u32, label: &str) -> Class {
    Class {
        uuid: uuid.to_string(),
        summary: None,
        label: label.to_string(),
        level,
        school: None,
        dt_disbanded: None,
        graduating_year: None,
        class_number: None,
        graduating: None,
    }
}

fn slot(subject: &str, mark: Option<(&str, Option<&str>, Option<&str>)>) -> LessonSlot {
    LessonSlot {
        lesson_uuid: "l".to_string(),
        lesson_template_id: "t".to_string(),
        subject_id: "s".to_string(),
        subject_title: subject.to_string(),
        teacher_id: "tc".to_string(),
        lesson_type: None,
        number: 1,
        topic: None,
        homework: None,
        message: None,
        start_time: "08:00".to_string(),
        has_attachments_or_links: false,
        homework_source_id: None,
        lesson_mark: mark.map(|(m, kind, author)| LessonMark {
            mark: Some(m.to_string()),
            kind: kind.map(|k| k.to_string()),
            comment: None,
            author: author.map(|a| a.to_string()),
            uuid: Some(format!("{subject}-{m}")),
        }),
        substitution: None,
    }
}

fn day(slots: Vec<LessonSlot>) -> DaySchedule {
    DaySchedule { day_of_week: 1, date: 0, slots }
}

#[test]
fn quarter_ranges() {
    assert_eq!(quarter_bounds(0), (0, 9));
    assert_eq!(quarter_bounds(1), (9, 18));
    assert_eq!(quarter_bounds(2), (18, 27));
    assert_eq!(quarter_bounds(3), (27, 36));
    assert_eq!(quarter_week_indices(2), 18..27);
}

#[test]
fn quarter_of_a_week() {
    assert_eq!(quarter_for_index(0), 0);
    assert_eq!(quarter_for_index(8), 0);
    assert_eq!(quarter_for_index(9), 1);
    assert_eq!(quarter_for_index(26), 2);
    assert_eq!(quarter_for_index(27), 3);
    assert_eq!(quarter_for_index(100), 3);
}

#[test]
fn quarter_spans_are_clipped() {
    assert_eq!(quarter_span(0, 36), Some((0, 9)));
    assert_eq!(quarter_span(1, 12), Some((9, 12)));
    assert_eq!(quarter_span(2, 12), None);
    assert_eq!(quarter_span(4, 36), None);
    assert_eq!(year_spans(12), vec![(0, 9), (9, 12), (18, 18), (27, 27)]);
    assert_eq!(year_spans(40), vec![(0, 9), (9, 18), (18, 27), (27, 36)]);
}

#[test]
fn current_week_is_the_first_under_way() {
    let mut ws = weeks(3);
    assert_eq!(current_week_index(&ws, 150), Some(1));
    assert_eq!(current_week_index(&ws, 99), Some(0));
    assert_eq!(current_week_index(&ws, 1000), None);
    ws.push(week("overlap", 140, 160));
    assert_eq!(current_week_index(&ws, 150), Some(1));
}

#[test]
fn neighbours_inside_the_year() {
    assert_eq!(neighbour_weeks(0, 3), vec![1]);
    assert_eq!(neighbour_weeks(1, 3), vec![0, 2]);
    assert_eq!(neighbour_weeks(2, 3), vec![1]);
    assert_eq!(neighbour_weeks(0, 1), Vec::<i32>::new());
    let mut cache: HashMap<i32, Vec<DaySchedule>> = HashMap::new();
    cache.insert(0, vec![]);
    assert_eq!(prefetch_targets(1, 3, &cache), vec![2]);
}

#[test]
fn classes_and_years() {
    assert_eq!(class_label(&class("c", 7, "А")), "7А");
    assert_eq!(first_class_id(&vec![class("c1", 5, "Б"), class("c2", 6, "В")]), Some("c1".to_string()));
    assert_eq!(first_class_id(&vec![]), None);
    assert_eq!(settle_class_id(Some("c1".to_string()), "old".to_string()), Ok("c1".to_string()));
    assert_eq!(settle_class_id(None, "old".to_string()), Ok("old".to_string()));
    assert_eq!(
        settle_class_id(None, String::new()),
        Err("Class not found — try opening diary.e-schools.by to sync".to_string())
    );
    assert_eq!(settle_class_id(Some(String::new()), "old".to_string()).is_err(), true);
    assert_eq!(school_year_range(2024), ("01.09.2024".to_string(), "31.05.2025".to_string()));
    assert_eq!(school_year_range(999), ("01.09.0999".to_string(), "31.05.1000".to_string()));
}

#[test]
fn marks_of_a_quarter() {
    let mut cache: HashMap<i32, Vec<DaySchedule>> = HashMap::new();
    cache.insert(1, vec![day(vec![slot("Математика", Some(("9", Some("control"), None))), slot("Физика", None)])]);
    cache.insert(0, vec![day(vec![slot("История", Some(("7", None, Some("Петров"))))])]);
    cache.insert(10, vec![day(vec![slot("Химия", Some(("5", None, None)))])]);
    let q0 = quarter_marks(&cache, 0);
    let seen: Vec<(&str, &str)> = q0.iter().map(|e| (e.subject.as_str(), e.mark.as_str())).collect();
    assert_eq!(seen, vec![("История", "7"), ("Математика", "9")]);
    let q1 = quarter_marks(&cache, 1);
    assert_eq!(q1.len(), 1);
    assert_eq!(q1[0].subject, "Химия");
    assert_eq!(quarter_marks(&cache, 4).len(), 3);
    assert!(is_official(&q0[0]));
    assert!(is_official(&q0[1]));
    assert!(!is_official(&q1[0]));
}

#[test]
fn official_marks_need_a_named_teacher_or_a_kind() {
    let e = |kind: Option<&str>, author: Option<&str>| MarkEntry {
        subject: "s".to_string(),
        mark: "8".to_string(),
        kind: kind.map(|k| k.to_string()),
        author: author.map(|a| a.to_string()),
        uuid: None,
    };
    assert!(!is_official(&e(None, Some(""))));
    assert!(is_official(&e(Some(""), None)));
    assert!(is_official(&e(None, Some("И. И."))));
    assert!(!is_official(&e(None, None)));
}

#[test]
fn week_plans() {
    let ws = weeks(3);
    let mut cache: HashMap<i32, Vec<DaySchedule>> = HashMap::new();
    cache.insert(2, vec![]);
    let p = plan_week(&ws, 1, "S", "C", "P", true, &cache).unwrap();
    assert_eq!(p.index, 1);
    assert_eq!(p.summary, "week w1");
    assert_eq!(p.quarter, 0);
    assert!(!p.cached);
    assert_eq!(
        p.fetch,
        Some("/api/v1/education/diary/schools/S/classes/C/students/P/lessons?week_activity_uuid=w1".to_string())
    );
    assert_eq!(
        p.prefetch,
        vec![(0, "/api/v1/education/diary/schools/S/classes/C/students/P/lessons?week_activity_uuid=w0".to_string())]
    );
    let q = plan_week(&ws, 2, "S", "C", "P", true, &cache).unwrap();
    assert!(q.cached);
    assert_eq!(q.fetch, None);
    assert_eq!(q.prefetch.len(), 1);
    assert!(plan_week(&ws, 3, "S", "C", "P", true, &cache).is_none());
    assert!(plan_week(&ws, -1, "S", "C", "P", true, &cache).is_none());
    assert!(plan_week(&ws, 0, "", "C", "P", true, &cache).is_none());
    assert!(plan_week(&ws, 0, "S", "C", "P", false, &cache).is_none());
}

#[test]
fn quarter_and_year_plans() {
    let ws = weeks(12);
    let q1 = plan_quarter(1, &ws, "S", "C", "P", true).unwrap();
    let idx: Vec<usize> = q1.iter().map(|(i, _)| *i).collect();
    assert_eq!(idx, vec![9, 10, 11]);
    assert!(q1[0].1.ends_with("week_activity_uuid=w9"));
    assert!(plan_quarter(2, &ws, "S", "C", "P", true).is_none());
    assert!(plan_quarter(4, &ws, "S", "C", "P", true).is_none());
    assert!(plan_quarter(0, &ws, "S", "", "P", true).is_none());
    let y = plan_year(&ws, "S", "C", "P", true).unwrap();
    let sizes: Vec<usize> = y.iter().map(|q| q.len()).collect();
    assert_eq!(sizes, vec![9, 3, 0, 0]);
    assert!(plan_year(&vec![], "S", "C", "P", true).is_none());
    assert_eq!(week_fetches(&ws, 10, 20, "S", "C", "P").len(), 2);
    assert_eq!(week_fetches(&ws, 20, 30, "S", "C", "P").len(), 0);
}

#[test]
fn quarter_headings() {
    assert_eq!(quarter_label(0), "I четверть");
    assert_eq!(quarter_label(3), "IV четверть");
}

fn entry(subject: &str, mark: &str) -> MarkEntry {
    MarkEntry { subject: subject.to_string(), mark: mark.to_string(), kind: None, author: None, uuid: None }
}

fn sample_cache() -> HashMap<i32, Vec<DaySchedule>> {
    let mut cache: HashMap<i32, Vec<DaySchedule>> = HashMap::new();
    cache.insert(2, vec![day(vec![slot("История", Some(("7", None, None)))])]);
    cache.insert(12, vec![day(vec![slot("Химия", Some(("5", None, None)))])]);
    cache.insert(30, vec![day(vec![slot("Физика", Some(("9", None, None)))])]);
    cache
}

#[test]
fn year_marks_are_the_quarters_joined() {
    let cache = sample_cache();
    let year: Vec<String> = quarter_marks(&cache, 4).iter().map(|e| e.subject.clone()).collect();
    let mut joined = Vec::new();
    for q in 0..4 {
        joined.extend(quarter_marks(&cache, q).iter().map(|e| e.subject.clone()));
    }
    assert_eq!(year, joined);
    assert_eq!(year, vec!["История", "Химия", "Физика"]);
    assert_eq!(quarter_marks(&cache, 0)[0].uuid, Some("История-7".to_string()));
}

#[test]
fn quarter_marks_ignore_other_weeks() {
    let mut other = sample_cache();
    other.insert(20, vec![day(vec![slot("Биология", Some(("4", None, None)))])]);
    other.insert(-3, vec![]);
    assert_eq!(quarter_marks(&other, 0).len(), quarter_marks(&sample_cache(), 0).len());
    assert_eq!(quarter_marks(&other, 2).len(), 1);
}

#[test]
fn stored_marks_are_shown_first() {
    let cache = sample_cache();
    let stored = vec![vec![], vec![entry("Алгебра", "8")]];
    assert_eq!(quarter_entries(&stored, &cache, 0)[0].subject, "История");
    assert_eq!(quarter_entries(&stored, &cache, 1)[0].subject, "Алгебра");
    assert_eq!(quarter_entries(&stored, &cache, 3)[0].subject, "Физика");
    let table = year_table(&stored, &cache);
    let firsts: Vec<Option<String>> = table.iter().map(|q| q.first().map(|e| e.subject.clone())).collect();
    assert_eq!(
        firsts,
        vec![Some("История".to_string()), Some("Алгебра".to_string()), None, Some("Физика".to_string())]
    );
    assert!(stored_quarter(&stored, 1).is_some());
    assert!(stored_quarter(&stored, 2).is_none());
}

#[test]
fn quarter_store_grows_with_empty_quarters() {
    let mut stored: Vec<Vec<MarkEntry>> = vec![vec![entry("A", "1")]];
    store_quarter(&mut stored, 2, vec![entry("B", "2")]);
    assert_eq!(stored.len(), 3);
    assert_eq!(stored[0][0].subject, "A");
    assert!(stored[1].is_empty());
    assert_eq!(stored[2][0].subject, "B");
    store_quarter(&mut stored, 0, vec![]);
    assert_eq!(stored.len(), 3);
    assert!(stored[0].is_empty());
}

#[test]
fn start_up_from_the_cache() {
    let ws = weeks(3);
    let mut cache: HashMap<i32, Vec<DaySchedule>> = HashMap::new();
    cache.insert(1, vec![day(vec![])]);
    let s = plan_startup(Some(&ws), 150, 3, Some(&cache), true);
    assert_eq!(s.week, Some(1));
    assert_eq!(s.quarter, 0);
    assert_eq!(s.lessons, StartLessons::Cached(1));
    let s = plan_startup(Some(&ws), 250, 3, Some(&cache), true);
    assert_eq!(s.lessons, StartLessons::Saved { store_under: Some(2) });
    let s = plan_startup(Some(&ws), 9999, 3, Some(&cache), false);
    assert_eq!((s.week, s.quarter, s.lessons), (None, 3, StartLessons::Nothing));
    let s = plan_startup(None, 150, 2, None, true);
    assert_eq!(s.lessons, StartLessons::Saved { store_under: None });
    cache.insert(0, vec![]);
    let s = plan_startup(Some(&ws), 50, 3, Some(&cache), true);
    assert_eq!(s.lessons, StartLessons::Saved { store_under: Some(0) });
}
