//! The schedule page: week-day names, the lessons of a day and its title.
use vstd::prelude::*;
use crate::network::models::{TimetableDay, TimetableSlot, TimetableTimeSlot};
use crate::text::{decimal, owned, push_decimal};

verus! {

/// The Russian name of a week day, 1 = Monday; anything else but 1–6 is
/// Sunday.
pub open spec fn weekday(dow: u32) -> Seq<char> {
    if dow == 1 {
        "Понедельник"@
    } else if dow == 2 {
        "Вторник"@
    } else if dow == 3 {
        "Среда"@
    } else if dow == 4 {
        "Четверг"@
    } else if dow == 5 {
        "Пятница"@
    } else if dow == 6 {
        "Суббота"@
    } else {
        "Воскресенье"@
    }
}

/// The name of a week day (1 = Monday).
pub fn weekday_name(dow: u32) -> (name: &'static str)
    ensures
        name@ == weekday(dow),
{
    if dow == 1 {
        "Понедельник"
    } else if dow == 2 {
        "Вторник"
    } else if dow == 3 {
        "Среда"
    } else if dow == 4 {
        "Четверг"
    } else if dow == 5 {
        "Пятница"
    } else if dow == 6 {
        "Суббота"
    } else {
        "Воскресенье"
    }
}

/// The first timetable day for week day `dow`.
pub open spec fn first_day_index(days: Seq<TimetableDay>, dow: u32, from: int) -> Option<int>
    decreases days.len() - from,
{
    if from < 0 || from >= days.len() {
        None
    } else if days[from].day_of_week == dow {
        Some(from)
    } else {
        first_day_index(days, dow, from + 1)
    }
}

fn find_day(days: &Vec<TimetableDay>, dow: u32) -> (r: Option<usize>)
    ensures
        match r {
            Some(i) => first_day_index(days@, dow, 0) == Some(i as int) && i < days@.len(),
            None => first_day_index(days@, dow, 0) is None,
        },
{
    let mut i: usize = 0;
    while i < days.len()
        invariant
            i <= days@.len(),
            first_day_index(days@, dow, 0) == first_day_index(days@, dow, i as int),
        decreases days@.len() - i,
    {
        if days[i].day_of_week == dow {
            return Some(i);
        }
        i = i + 1;
    }
    None
}

/// The number of bells of a day that have lessons.
pub open spec fn lesson_count(slots: Seq<TimetableTimeSlot>) -> nat
    decreases slots.len(),
{
    if slots.len() == 0 {
        0
    } else {
        lesson_count(slots.drop_last()) + if slots.last().slots@.len() > 0 {
            1nat
        } else {
            0nat
        }
    }
}

/// The lessons on week day `dow`: those of its first timetable day.
pub open spec fn lessons_on(days: Seq<TimetableDay>, dow: u32) -> nat {
    match first_day_index(days, dow, 0) {
        Some(i) => lesson_count(days[i].timetable_slots@),
        None => 0,
    }
}

fn count_lessons(slots: &Vec<TimetableTimeSlot>) -> (n: usize)
    ensures
        n == lesson_count(slots@),
{
    let mut n: usize = 0;
    let mut k: usize = 0;
    assert(slots@.take(0) =~= Seq::<TimetableTimeSlot>::empty());
    while k < slots.len()
        invariant
            k <= slots@.len(),
            n == lesson_count(slots@.take(k as int)),
            n <= k,
        decreases slots@.len() - k,
    {
        assert(slots@.take(k + 1).drop_last() =~= slots@.take(k as int));
        if slots[k].slots.len() > 0 {
            n = n + 1;
        }
        k = k + 1;
    }
    assert(slots@.take(slots@.len() as int) =~= slots@);
    n
}

/// The title of the schedule page: the week-day name, and the number of
/// lessons when there are any (`Среда  ·  5 ур.`).
pub fn day_title(days: &Vec<TimetableDay>, dow: u32) -> (title: String)
    ensures
        title@ == if lessons_on(days@, dow) == 0 {
            weekday(dow)
        } else {
            weekday(dow) + "  ·  "@ + decimal(lessons_on(days@, dow)) + " ур."@
        },
{
    let count = match find_day(days, dow) {
        Some(i) => count_lessons(&days[i].timetable_slots),
        None => 0,
    };
    let mut title = owned(weekday_name(dow));
    if count != 0 {
        title.append("  ·  ");
        push_decimal(&mut title, count as u64);
        title.append(" ур.");
    }
    title
}

/// The text of a day without lessons: a weekend day (6, 7) is a day off.
pub fn empty_day_text(dow: u32) -> (text: &'static str)
    ensures
        text@ == if dow >= 6 {
            "Выходной день"@
        } else {
            "Нет уроков"@
        },
{
    if dow >= 6 {
        "Выходной день"
    } else {
        "Нет уроков"
    }
}

/// The week day `offset` pages away from `day`, kept within Monday..Sunday.
pub fn paged_day(day: u32, offset: i32) -> (d: u32)
    requires
        day <= i32::MAX,
        i32::MIN <= day + offset <= i32::MAX,
    ensures
        d == if day + offset < 1 {
            1
        } else if day + offset > 7 {
            7
        } else {
            day + offset
        },
{
    let v = day as i32 + offset;
    if v < 1 {
        1
    } else if v > 7 {
        7
    } else {
        v as u32
    }
}

// ── lesson rows ──────────────────────────────────────────────────────────

/// One row of the schedule: a key unique on the page, the lesson number,
/// its time and its subjects.
#[derive(Debug, Clone)]
pub struct LessonRow {
    pub key: String,
    pub num: u32,
    pub time: String,
    pub subject: String,
}

/// The summaries of the lessons at one bell that have one.
pub open spec fn summaries(slots: Seq<TimetableSlot>) -> Seq<Seq<char>>
    decreases slots.len(),
{
    if slots.len() == 0 {
        Seq::empty()
    } else {
        summaries(slots.drop_last()) + match slots.last().summary {
            Some(s) => seq![s@],
            None => Seq::empty(),
        }
    }
}

/// `parts` joined by `sep`.
pub open spec fn joined(parts: Seq<Seq<char>>, sep: Seq<char>) -> Seq<char>
    decreases parts.len(),
{
    if parts.len() == 0 {
        Seq::empty()
    } else if parts.len() == 1 {
        parts[0]
    } else {
        joined(parts.drop_last(), sep) + sep + parts.last()
    }
}

/// The subject text of a bell: its summaries joined by ` / `, or `—`.
pub open spec fn subject_text(slots: Seq<TimetableSlot>) -> Seq<char> {
    if summaries(slots).len() == 0 {
        "—"@
    } else {
        joined(summaries(slots), " / "@)
    }
}

/// The view of a row: key, number, time, subject.
pub open spec fn row_view(r: LessonRow) -> (Seq<char>, u32, Seq<char>, Seq<char>) {
    (r.key@, r.num, r.time@, r.subject@)
}

/// The row of bell `i` of week day `dow`.
pub open spec fn row_of(dow: u32, i: int, ts: TimetableTimeSlot) -> (Seq<char>, u32, Seq<char>, Seq<char>) {
    (
        decimal(dow as nat) + ":"@ + decimal(i as nat) + ":"@ + decimal(ts.time_of_bells.number as nat),
        ts.time_of_bells.number,
        ts.time_of_bells.start_time@ + "–"@ + ts.time_of_bells.end_time@,
        subject_text(ts.slots@),
    )
}

/// The rows of the first `n` bells of a day, skipping bells without lessons.
pub open spec fn rows_upto(dow: u32, tss: Seq<TimetableTimeSlot>, n: int) -> Seq<(Seq<char>, u32, Seq<char>, Seq<char>)>
    decreases n,
{
    if n <= 0 {
        Seq::empty()
    } else {
        rows_upto(dow, tss, n - 1) + if tss[n - 1].slots@.len() > 0 {
            seq![row_of(dow, n - 1, tss[n - 1])]
        } else {
            Seq::empty()
        }
    }
}

/// The rows of week day `dow`: those of its first timetable day.
pub open spec fn day_rows(days: Seq<TimetableDay>, dow: u32) -> Seq<(Seq<char>, u32, Seq<char>, Seq<char>)> {
    match first_day_index(days, dow, 0) {
        Some(i) => rows_upto(dow, days[i].timetable_slots@, days[i].timetable_slots@.len() as int),
        None => Seq::empty(),
    }
}

fn subject_of(slots: &Vec<TimetableSlot>) -> (s: String)
    ensures
        s@ == subject_text(slots@),
{
    let mut s = String::new();
    let mut count: usize = 0;
    let mut k: usize = 0;
    assert(slots@.take(0) =~= Seq::<TimetableSlot>::empty());
    while k < slots.len()
        invariant
            k <= slots@.len(),
            count == summaries(slots@.take(k as int)).len(),
            count <= k,
            s@ == joined(summaries(slots@.take(k as int)), " / "@),
        decreases slots@.len() - k,
    {
        assert(slots@.take(k + 1).drop_last() =~= slots@.take(k as int));
        match &slots[k].summary {
            Some(sum) => {
                if count > 0 {
                    s.append(" / ");
                }
                s.append(sum.as_str());
                proof {
                    let prev = summaries(slots@.take(k as int));
                    let next = summaries(slots@.take(k + 1));
                    assert(next == prev.push(sum@));
                    assert(next.drop_last() =~= prev);
                    if count == 0 {
                        assert(prev.len() == 0);
                        assert(s@ =~= joined(next, " / "@));
                    }
                }
                count = count + 1;
            },
            None => {},
        }
        k = k + 1;
    }
    assert(slots@.take(slots@.len() as int) =~= slots@);
    if count == 0 {
        owned("—")
    } else {
        s
    }
}

/// The lesson rows of week day `dow`, in bell order.
pub fn day_lesson_rows(days: &Vec<TimetableDay>, dow: u32) -> (rows: Vec<LessonRow>)
    ensures
        rows@.map_values(|r: LessonRow| row_view(r)) == day_rows(days@, dow),
{
    let mut rows: Vec<LessonRow> = Vec::new();
    match find_day(days, dow) {
        None => {
            assert(rows@.map_values(|r: LessonRow| row_view(r)) =~= day_rows(days@, dow));
            rows
        },
        Some(d) => {
            let tss = &days[d].timetable_slots;
            let mut i: usize = 0;
            assert(rows@.map_values(|r: LessonRow| row_view(r)) =~= rows_upto(dow, tss@, 0));
            while i < tss.len()
                invariant
                    i <= tss@.len(),
                    rows@.map_values(|r: LessonRow| row_view(r)) == rows_upto(dow, tss@, i as int),
                decreases tss@.len() - i,
            {
                let ts = &tss[i];
                let ghost before = rows@;
                if ts.slots.len() > 0 {
                    let mut key = String::new();
                    push_decimal(&mut key, dow as u64);
                    key.append(":");
                    push_decimal(&mut key, i as u64);
                    key.append(":");
                    push_decimal(&mut key, ts.time_of_bells.number as u64);
                    let mut time = owned(ts.time_of_bells.start_time.as_str());
                    time.append("–");
                    time.append(ts.time_of_bells.end_time.as_str());
                    let subject = subject_of(&ts.slots);
                    rows.push(LessonRow { key, num: ts.time_of_bells.number, time, subject });
                    assert(rows@.map_values(|r: LessonRow| row_view(r)) =~= before.map_values(
                        |r: LessonRow| row_view(r),
                    ).push(row_of(dow, i as int, *ts)));
                } else {
                    assert(rows@ == before);
                }
                i = i + 1;
            }
            rows
        },
    }
}

/// The lesson count of a day is the number of its bells that have at least
/// one lesson, however many group lessons a bell holds.
pub proof fn law_lessons_are_bells_with_lessons(slots: Seq<TimetableTimeSlot>)
    ensures
        lesson_count(slots) == slots.filter(|ts: TimetableTimeSlot| ts.slots@.len() > 0).len(),
    decreases slots.len(),
{
    reveal(Seq::filter);
    if slots.len() > 0 {
        law_lessons_are_bells_with_lessons(slots.drop_last());
    } else {
        assert(slots.filter(|ts: TimetableTimeSlot| ts.slots@.len() > 0) =~= Seq::<TimetableTimeSlot>::empty());
    }
}

proof fn lemma_rows_count(dow: u32, tss: Seq<TimetableTimeSlot>, n: int)
    requires
        0 <= n <= tss.len(),
    ensures
        rows_upto(dow, tss, n).len() == lesson_count(tss.take(n)),
    decreases n,
{
    if n > 0 {
        lemma_rows_count(dow, tss, n - 1);
        assert(tss.take(n).drop_last() =~= tss.take(n - 1));
        assert(tss.take(n).last() == tss[n - 1]);
    } else {
        assert(tss.take(0) =~= Seq::<TimetableTimeSlot>::empty());
    }
}

/// The title's lesson count is the number of rows the schedule shows for
/// the day: one row per bell with a lesson.
pub proof fn law_title_counts_the_rows(days: Seq<TimetableDay>, dow: u32)
    ensures
        day_rows(days, dow).len() == lessons_on(days, dow),
{
    match first_day_index(days, dow, 0) {
        Some(i) => {
            lemma_first_day_in_range(days, dow, 0);
            let tss = days[i].timetable_slots@;
            lemma_rows_count(dow, tss, tss.len() as int);
            assert(tss.take(tss.len() as int) =~= tss);
        },
        None => {},
    }
}

proof fn lemma_first_day_in_range(days: Seq<TimetableDay>, dow: u32, from: int)
    ensures
        first_day_index(days, dow, from) matches Some(i) ==> 0 <= i < days.len(),
    decreases days.len() - from,
{
    if 0 <= from < days.len() && days[from].day_of_week != dow {
        lemma_first_day_in_range(days, dow, from + 1);
    }
}

} // verus!
