use eschool::features::grade_checker::{check_new_grades, count_new_marks};
use eschool::i18n::{I18n, Translations};
use eschool::locale::{language_for_tag, system_locale};
use eschool::model::{
    add_item, detail_title, move_row, iso_date, item_summary, kind_name, move_positions, new_item, next_item_id,
    ordered_keys, position_of, remove_item, seed_item, show_done_pref, toggle_done, Item,
};
use eschool::text::{decimal_string, parse_u32, replace, same_text, text_order, trim};

fn item(id: u32, name: &str, done: bool) -> Item {
    Item {
        id,
        name: name.to_string(),
        count: 0,
        date: "2024-09-01".to_string(),
        kind: 0,
        done,
        notes: String::new(),
        rating: 3,
        color: "#FF0000".to_string(),
    }
}

fn strings(v: &[&str]) -> Vec<String> {
    v.iter().map(|s| s.to_string()).collect()
}

#[test]
fn list_order_and_ids() {
    let items = vec![item(1, "a", false), item(5, "b", true), item(3, "c", false)];
    assert_eq!(ordered_keys(&items, true), vec![5, 1, 3]);
    assert_eq!(ordered_keys(&items, false), vec![1, 3]);
    assert_eq!(next_item_id(&items), 6);
    assert_eq!(next_item_id(&vec![]), 1);
    assert_eq!(position_of(&items, 3), Some(2));
    assert_eq!(position_of(&items, 4), None);
    assert_eq!(move_positions(&items, true, 0, 2), Some((1, 2)));
    assert_eq!(move_positions(&items, false, 0, 2), None);
}

#[test]
fn kinds_and_totals() {
    assert_eq!(kind_name(0), "item_kind_note");
    assert_eq!(kind_name(2), "item_kind_idea");
    assert_eq!(kind_name(3), "Unknown");
    let items = vec![item(1, "a", true), item(2, "b", false), item(3, "c", true)];
    assert_eq!(item_summary(&items), (3, 2, 1));
    assert_eq!(item_summary(&[]), (0, 0, 0));
}

#[test]
fn editor_titles() {
    let items = vec![item(1, "Заметка", false), item(2, "", false)];
    assert_eq!(detail_title(&items, Some(1), "Навигация"), "Заметка");
    assert_eq!(detail_title(&items, Some(2), "Навигация"), "Навигация");
    assert_eq!(detail_title(&items, Some(9), "Навигация"), "Навигация");
    assert_eq!(detail_title(&items, None, "Навигация"), "Навигация");
}

#[test]
fn languages() {
    assert_eq!(language_for_tag("ru-RU"), "ru");
    assert_eq!(language_for_tag("be"), "be");
    assert_eq!(language_for_tag("be-BY"), "be");
    assert_eq!(language_for_tag("en-US"), "en");
    assert_eq!(language_for_tag("ruby"), "en");
    assert_eq!(language_for_tag(""), "en");
    assert_eq!(system_locale(), "en");
}

#[test]
fn translations_switch_only_to_loaded_languages() {
    let tr = |k: &str, v: &str| Translations { entries: vec![(k.to_string(), v.to_string())] };
    let mut i = I18n::with_languages(vec![
        ("en".to_string(), tr("hello", "Hello")),
        ("ru".to_string(), tr("hello", "Привет")),
    ]);
    assert_eq!(i.current_lang, "en");
    assert_eq!(i.t().entries[0].1, "Hello");
    i.set_language("ru");
    assert_eq!(i.current_lang, "ru");
    assert_eq!(i.t().entries[0].1, "Привет");
    i.set_language("de");
    assert_eq!(i.current_lang, "ru");
    assert_eq!(i.available_languages(), vec!["en", "ru"]);
}

#[test]
fn new_marks_are_counted_and_announced() {
    let stored = strings(&["m1", "m2"]);
    let current = strings(&["m1", "m3", "m2", "m4"]);
    assert_eq!(count_new_marks(&current, &stored), 2);
    assert_eq!(check_new_grades(&current, &stored), Some("Новых оценок: 2".to_string()));
    assert_eq!(check_new_grades(&current, &current), None);
    assert_eq!(check_new_grades(&vec![], &stored), None);
    assert_eq!(count_new_marks(&strings(&["x", "x"]), &vec![]), 2);
}

#[test]
fn text_helpers() {
    assert_eq!(trim("\t a b \n"), "a b");
    assert_eq!(trim("\u{3000}x\u{a0}"), "x");
    assert_eq!(parse_u32("42"), Some(42));
    assert_eq!(parse_u32("+7"), Some(7));
    assert_eq!(parse_u32("4294967295"), Some(4294967295));
    assert_eq!(parse_u32("4294967296"), None);
    assert_eq!(parse_u32("-1"), None);
    assert_eq!(parse_u32(""), None);
    assert_eq!(parse_u32("+"), None);
    assert_eq!(replace("aaa", "aa", "b"), "ba");
    assert_eq!(decimal_string(0), "0");
    assert_eq!(decimal_string(1234567890123), "1234567890123");
    assert!(same_text("абв", "абв"));
    assert!(!same_text("абв", "аб"));
}

#[test]
fn text_order_is_that_of_str() {
    let c = |s: &str| s.chars().collect::<Vec<char>>();
    let pairs = [("a", "b"), ("ab", "a"), ("", "x"), ("Я", "а"), ("z", "ж"), ("same", "same")];
    for (a, b) in pairs {
        let want: i8 = if a < b { -1 } else if a == b { 0 } else { 1 };
        assert_eq!(text_order(&c(a), &c(b)).signum(), want, "{a} vs {b}");
    }
}

#[test]
fn new_and_sample_items() {
    assert_eq!(iso_date(2024, 9, 1), "2024-09-01");
    assert_eq!(iso_date(7, 12, 31), "0007-12-31");
    let items = vec![item(4, "a", false), item(9, "b", true)];
    let n = new_item(&items, "2024-09-01".to_string());
    assert_eq!(n.id, 10);
    assert_eq!((n.count, n.kind, n.done, n.rating), (1, 0, false, 0));
    assert_eq!(n.color, "#3B82F6");
    assert!(n.name.is_empty() && n.notes.is_empty());
    assert_eq!(new_item(&vec![], "d".to_string()).id, 1);
    let s = seed_item(12, "2024-01-01".to_string());
    assert_eq!(s.name, "Item 12");
    assert_eq!((s.count, s.kind, s.done, s.rating), (4, 0, true, 0));
    assert_eq!(s.color, "#F59E0B");
    let s = seed_item(7, "d".to_string());
    assert_eq!((s.count, s.kind, s.done, s.rating), (8, 1, false, 1));
    assert_eq!(s.color, "#F59E0B");
}

#[test]
fn saved_filter_preference() {
    assert!(show_done_pref(None));
    assert!(show_done_pref(Some("1")));
    assert!(!show_done_pref(Some("0")));
    assert!(show_done_pref(Some("")));
}

#[test]
fn removing_and_finishing_items() {
    let mut items = vec![item(1, "a", false), item(2, "b", false), item(3, "c", true)];
    toggle_done(&mut items, 2);
    assert!(items[1].done);
    toggle_done(&mut items, 2);
    assert!(!items[1].done);
    toggle_done(&mut items, 42);
    assert_eq!(items.len(), 3);
    remove_item(&mut items, 1);
    let ids: Vec<u32> = items.iter().map(|i| i.id).collect();
    assert_eq!(ids, vec![2, 3]);
    remove_item(&mut items, 1);
    assert_eq!(items.len(), 2);
}

#[test]
fn a_new_item_opens_in_the_editor() {
    let mut items = vec![item(4, "a", true), item(9, "b", false)];
    let e = add_item(&mut items, true, "2024-09-01".to_string());
    assert_eq!(items.len(), 3);
    assert_eq!(items[2].id, 10);
    assert_eq!(e.selected, Some(10));
    assert!(e.detail_open);
    assert_eq!(e.scroll_to, Some(2));
    assert_eq!(ordered_keys(&items, true)[2], 10);
    let e = add_item(&mut items, false, "d".to_string());
    assert_eq!(e.scroll_to, Some(2));
    assert_eq!(ordered_keys(&items, false), vec![9, 10, 11]);
}

#[test]
fn bundled_languages() {
    let tr = |v: &str| Translations { entries: vec![("hello".to_string(), v.to_string())] };
    let mut i = I18n::new(tr("Hello"), tr("Привет"), tr("Прывітанне"));
    assert_eq!(i.available_languages(), vec!["en", "ru", "be"]);
    assert_eq!(i.t().entries[0].1, "Hello");
    i.set_language("be");
    assert_eq!(i.t().entries[0].1, "Прывітанне");
    assert_eq!(i.available_languages(), vec!["en", "ru", "be"]);
}

#[test]
fn dragging_a_row_moves_its_item() {
    let mut items = vec![item(1, "a", false), item(2, "b", true), item(3, "c", false), item(4, "d", false)];
    // shown with finished items first: 2, 1, 3, 4
    move_row(&mut items, true, 1, 3);
    let ids: Vec<u32> = items.iter().map(|i| i.id).collect();
    assert_eq!(ids, vec![2, 3, 4, 1]);
    move_row(&mut items, true, 0, 7);
    let ids: Vec<u32> = items.iter().map(|i| i.id).collect();
    assert_eq!(ids, vec![2, 3, 4, 1]);
    // shown without finished items: 3, 4, 1
    move_row(&mut items, false, 2, 0);
    let ids: Vec<u32> = items.iter().map(|i| i.id).collect();
    assert_eq!(ids, vec![2, 1, 3, 4]);
}
