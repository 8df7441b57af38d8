//! Diary decisions: school quarters over the weeks of the year, the current
//! week, which weeks to prefetch, and the marks a quarter holds.
use std::collections::HashMap;
use vstd::prelude::*;
use crate::api::entities::{Class, DaySchedule, LessonSlot, WeekActivity};
use crate::api::endpoints::{lessons, lessons_path};
use crate::text::{decimal, owned, push_decimal, push_zero_padded, zero_padded};

verus! {

broadcast use vstd::std_specs::hash::group_hash_axioms;

// ── quarters ─────────────────────────────────────────────────────────────

/// The week indices `[start, end)` of quarter `q` (0..=3): nine weeks each.
pub open spec fn quarter_range(q: int) -> (int, int) {
    if q == 0 {
        (0, 9)
    } else if q == 1 {
        (9, 18)
    } else if q == 2 {
        (18, 27)
    } else {
        (27, 36)
    }
}

/// The quarter a week index belongs to (weeks past the third quarter
/// belong to the fourth).
pub open spec fn quarter_of(idx: int) -> int {
    if idx < 9 {
        0
    } else if idx < 18 {
        1
    } else if idx < 27 {
        2
    } else {
        3
    }
}

/// The week range of a quarter.
pub fn quarter_bounds(quarter: usize) -> (r: (usize, usize))
    requires
        quarter < 4,
    ensures
        r.0 == quarter_range(quarter as int).0,
        r.1 == quarter_range(quarter as int).1,
{
    if quarter == 0 {
        (0, 9)
    } else if quarter == 1 {
        (9, 18)
    } else if quarter == 2 {
        (18, 27)
    } else {
        (27, 36)
    }
}

/// The week indices of a quarter.
pub fn quarter_week_indices(quarter: usize) -> (r: std::ops::Range<usize>)
    requires
        quarter < 4,
    ensures
        r.start == quarter_range(quarter as int).0,
        r.end == quarter_range(quarter as int).1,
{
    let (start, end) = quarter_bounds(quarter);
    start..end
}

/// The quarter of a week index.
pub fn quarter_for_index(idx: usize) -> (q: usize)
    ensures
        q == quarter_of(idx as int),
{
    if idx < 9 {
        0
    } else if idx < 18 {
        1
    } else if idx < 27 {
        2
    } else {
        3
    }
}

/// Every week of the school year lies in the range of the quarter it is
/// counted to, and the four ranges follow each other without gaps.
pub proof fn law_week_in_its_quarter(idx: int)
    requires
        0 <= idx < 36,
    ensures
        quarter_range(quarter_of(idx)).0 <= idx < quarter_range(quarter_of(idx)).1,
        forall|q: int| 0 <= q < 3 ==> #[trigger] quarter_range(q).1 == quarter_range(q + 1).0,
{
}

/// The weeks to load for a quarter, `[start, end)` clipped to the weeks
/// known; none for a quarter past the fourth or one that starts past them.
pub fn quarter_span(quarter: usize, weeks: usize) -> (r: Option<(usize, usize)>)
    ensures
        match r {
            Some((s, e)) => quarter <= 3 && s == quarter_range(quarter as int).0 && s < weeks && e == if quarter_range(quarter as int).1 < weeks {
                quarter_range(quarter as int).1
            } else {
                weeks as int
            },
            None => quarter > 3 || quarter_range(quarter as int).0 >= weeks,
        },
{
    if quarter > 3 {
        return None;
    }
    let (start, end) = quarter_bounds(quarter);
    if start >= weeks {
        return None;
    }
    let e = if end < weeks { end } else { weeks };
    Some((start, e))
}

/// The weeks to load for each of the four quarters of the year: `[start,
/// end)` clipped to the weeks known (empty when the quarter starts past them).
pub fn year_spans(weeks: usize) -> (spans: Vec<(usize, usize)>)
    ensures
        spans@.len() == 4,
        forall|q: int| 0 <= q < 4 ==> {
            let (s, e) = #[trigger] quarter_range(q);
            &&& spans@[q].0 == s
            &&& spans@[q].1 == if s >= weeks {
                s
            } else if e < weeks {
                e
            } else {
                weeks as int
            }
        },
{
    let mut spans: Vec<(usize, usize)> = Vec::new();
    let mut q: usize = 0;
    while q < 4
        invariant
            q <= 4,
            spans@.len() == q,
            forall|j: int| 0 <= j < q ==> {
                let (s, e) = #[trigger] quarter_range(j);
                &&& spans@[j].0 == s
                &&& spans@[j].1 == if s >= weeks {
                    s
                } else if e < weeks {
                    e
                } else {
                    weeks as int
                }
            },
        decreases 4 - q,
    {
        let (s, e) = quarter_bounds(q);
        let end = if s >= weeks {
            s
        } else if e < weeks {
            e
        } else {
            weeks
        };
        spans.push((s, end));
        q = q + 1;
    }
    spans
}

// ── weeks ────────────────────────────────────────────────────────────────

/// Week `w` is under way at `now_ms`.
pub open spec fn covers(w: WeekActivity, now_ms: u64) -> bool {
    w.start_ts <= now_ms && now_ms <= w.end_ts
}

/// The first week under way at `now_ms`.
pub fn current_week_index(weeks: &Vec<WeekActivity>, now_ms: u64) -> (r: Option<usize>)
    ensures
        match r {
            Some(i) => i < weeks@.len() && covers(weeks@[i as int], now_ms) && forall|j: int|
                0 <= j < i ==> !covers(#[trigger] weeks@[j], now_ms),
            None => forall|j: int| 0 <= j < weeks@.len() ==> !covers(#[trigger] weeks@[j], now_ms),
        },
{
    let mut i: usize = 0;
    while i < weeks.len()
        invariant
            i <= weeks@.len(),
            forall|j: int| 0 <= j < i ==> !covers(#[trigger] weeks@[j], now_ms),
        decreases weeks@.len() - i,
    {
        if weeks[i].start_ts <= now_ms && weeks[i].end_ts >= now_ms {
            return Some(i);
        }
        i = i + 1;
    }
    None
}

/// The neighbours of week `idx` that exist: `idx - 1` and `idx + 1`, in
/// that order, when within `[0, weeks)`.
pub open spec fn neighbours(idx: int, weeks: int) -> Seq<int> {
    (if idx >= 1 && idx - 1 < weeks { seq![idx - 1] } else { Seq::empty() }) + (if idx + 1
        < weeks {
        seq![idx + 1]
    } else {
        Seq::empty()
    })
}

/// The neighbouring weeks loaded right after the current one at start-up.
pub fn neighbour_weeks(idx: usize, weeks: usize) -> (r: Vec<i32>)
    requires
        idx < i32::MAX,
    ensures
        r@.map_values(|i: i32| i as int) == neighbours(idx as int, weeks as int),
{
    let mut r: Vec<i32> = Vec::new();
    if idx >= 1 && idx - 1 < weeks {
        r.push((idx - 1) as i32);
    }
    if idx + 1 < weeks {
        r.push((idx + 1) as i32);
    }
    assert(r@.map_values(|i: i32| i as int) =~= neighbours(idx as int, weeks as int));
    r
}

/// The neighbouring weeks to prefetch when week `idx` is shown: those not
/// yet in the cache.
pub fn prefetch_targets(idx: usize, weeks: usize, cache: &HashMap<i32, Vec<DaySchedule>>) -> (r: Vec<i32>)
    requires
        idx < i32::MAX,
    ensures
        r@.map_values(|i: i32| i as int) == neighbours(idx as int, weeks as int).filter(
            |i: int| !cache@.contains_key(i as i32),
        ),
{
    let ghost cands = neighbours(idx as int, weeks as int);
    let all = neighbour_weeks(idx, weeks);
    let mut r: Vec<i32> = Vec::new();
    let mut k: usize = 0;
    let ghost pred = |i: int| !cache@.contains_key(i as i32);
    assert(cands.take(0).filter(pred) =~= Seq::<int>::empty());
    while k < all.len()
        invariant
            k <= all@.len(),
            all@.map_values(|i: i32| i as int) == cands,
            r@.map_values(|i: i32| i as int) == cands.take(k as int).filter(pred),
            pred == (|i: int| !cache@.contains_key(i as i32)),
        decreases all@.len() - k,
    {
        let ni = all[k];
        let ghost before = r@;
        if !cache.contains_key(&ni) {
            r.push(ni);
        }
        proof {
            assert(cands.take(k + 1) == cands.take(k as int).push(ni as int));
            assert(cands.take(k + 1).filter(pred) == {
                let f = cands.take(k as int).filter(pred);
                if pred(ni as int) { f.push(ni as int) } else { f }
            }) by {
                reveal(Seq::filter);
                assert(cands.take(k + 1).drop_last() =~= cands.take(k as int));
            }
            assert(((ni as int) as i32) == ni);
            assert(r@.map_values(|i: i32| i as int) =~= cands.take(k + 1).filter(pred));
        }
        k = k + 1;
    }
    assert(cands.take(all@.len() as int) =~= cands);
    r
}

// ── classes and the school year ──────────────────────────────────────────

/// The label of a class: its level followed by its letter (`7` `А` → `7А`).
pub fn class_label(c: &Class) -> (label: String)
    ensures
        label@ == decimal(c.level as nat) + c.label@,
{
    let mut s = String::new();
    push_decimal(&mut s, c.level as u64);
    s.append(c.label.as_str());
    s
}

/// The class a student is in: the first of a class listing.
pub fn first_class_id(classes: &Vec<Class>) -> (id: Option<String>)
    ensures
        match id {
            Some(i) => classes@.len() > 0 && i@ == classes@[0].uuid@,
            None => classes@.len() == 0,
        },
{
    if classes.len() > 0 {
        Some(classes[0].uuid.clone())
    } else {
        None
    }
}

/// The class to use: the one found, else the one stored earlier (possibly
/// empty); an empty result is reported as an error.
pub fn settle_class_id(found: Option<String>, stored: String) -> (r: Result<String, String>)
    ensures
        ({
            let id = match found {
                Some(f) => f@,
                None => stored@,
            };
            &&& id.len() > 0 ==> (r matches Ok(v) && v@ == id)
            &&& id.len() == 0 ==> (r matches Err(m) && m@
                == "Class not found — try opening diary.e-schools.by to sync"@)
        }),
{
    let id = match found {
        Some(f) => f,
        None => stored,
    };
    if id.as_str().is_empty() {
        Err(owned("Class not found — try opening diary.e-schools.by to sync"))
    } else {
        Ok(id)
    }
}

/// The date range asked for when looking up the classes of a school year
/// starting in `year`: `01.09.<year>` to `31.05.<year + 1>`, years padded to
/// four digits.
pub fn school_year_range(year: u32) -> (r: (String, String))
    requires
        year < u32::MAX,
    ensures
        r.0@ == "01.09."@ + zero_padded(year as nat, 4),
        r.1@ == "31.05."@ + zero_padded((year + 1) as nat, 4),
{
    let mut from = owned("01.09.");
    push_zero_padded(&mut from, year as u64, 4);
    let mut to = owned("31.05.");
    push_zero_padded(&mut to, (year + 1) as u64, 4);
    (from, to)
}

// ── marks ────────────────────────────────────────────────────────────────

/// The view of a mark: subject, text, kind, author and id.
pub type MarkView = (Seq<char>, Seq<char>, Option<Seq<char>>, Option<Seq<char>>, Option<Seq<char>>);

/// A mark found in the diary: the subject, the mark text, and who set it.
#[derive(Debug, Clone)]
pub struct MarkEntry {
    pub subject: String,
    pub mark: String,
    pub kind: Option<String>,
    pub author: Option<String>,
    /// The mark's own id, where the diary gives one.
    pub uuid: Option<String>,
}

/// The view of an optional string.
pub open spec fn opt_seq(o: Option<String>) -> Option<Seq<char>> {
    match o {
        Some(s) => Some(s@),
        None => None,
    }
}

/// The view of a mark entry.
pub open spec fn entry_view(e: MarkEntry) -> MarkView {
    (e.subject@, e.mark@, opt_seq(e.kind), opt_seq(e.author), opt_seq(e.uuid))
}

/// The views of a list of mark entries.
pub open spec fn entries_view(v: Seq<MarkEntry>) -> Seq<MarkView> {
    v.map_values(|e: MarkEntry| entry_view(e))
}

/// The mark a lesson holds, if it has a mark with text.
pub open spec fn slot_mark(s: LessonSlot) -> Seq<MarkView> {
    match s.lesson_mark {
        Some(lm) => match lm.mark {
            Some(m) => seq![(s.subject_title@, m@, opt_seq(lm.kind), opt_seq(lm.author), opt_seq(lm.uuid))],
            None => Seq::empty(),
        },
        None => Seq::empty(),
    }
}

/// The marks of a run of lessons, in order.
pub open spec fn slots_marks(slots: Seq<LessonSlot>) -> Seq<MarkView>
    decreases slots.len(),
{
    if slots.len() == 0 {
        Seq::empty()
    } else {
        slots_marks(slots.drop_last()) + slot_mark(slots.last())
    }
}

/// The marks of a run of days, in order.
pub open spec fn days_marks(days: Seq<DaySchedule>) -> Seq<MarkView>
    decreases days.len(),
{
    if days.len() == 0 {
        Seq::empty()
    } else {
        days_marks(days.drop_last()) + slots_marks(days.last().slots@)
    }
}

/// The marks of the cached weeks `[start, end)`, in week order.
pub open spec fn weeks_marks(cache: Map<i32, Vec<DaySchedule>>, start: int, end: int) -> Seq<MarkView>
    decreases end - start,
{
    if end <= start {
        Seq::empty()
    } else {
        weeks_marks(cache, start, end - 1) + if cache.contains_key((end - 1) as i32) {
            days_marks(cache[(end - 1) as i32]@)
        } else {
            Seq::empty()
        }
    }
}

/// The weeks a quarter reads marks from: its own, or all 36 for the year.
pub open spec fn marks_range(quarter: int) -> (int, int) {
    if quarter < 4 {
        quarter_range(quarter)
    } else {
        (0, 36)
    }
}

/// A lesson that holds a mark with text.
pub open spec fn is_marked(s: LessonSlot) -> bool {
    s.lesson_mark matches Some(lm) && lm.mark is Some
}

/// The entry of a marked lesson: its subject, the mark, kind, author, id.
pub open spec fn mark_of(s: LessonSlot) -> MarkView {
    let lm = s.lesson_mark.unwrap();
    (s.subject_title@, lm.mark.unwrap()@, opt_seq(lm.kind), opt_seq(lm.author), opt_seq(lm.uuid))
}

/// The marks of two runs of lessons are those of each, in order.
pub proof fn law_slots_marks_concat(a: Seq<LessonSlot>, b: Seq<LessonSlot>)
    ensures
        slots_marks(a + b) == slots_marks(a) + slots_marks(b),
    decreases b.len(),
{
    if b.len() == 0 {
        assert(a + b =~= a);
        assert(slots_marks(a) + slots_marks(b) =~= slots_marks(a));
    } else {
        law_slots_marks_concat(a, b.drop_last());
        assert((a + b).drop_last() =~= a + b.drop_last());
        assert((a + b).last() == b.last());
        assert(slots_marks(a) + slots_marks(b) =~= slots_marks(a) + slots_marks(b.drop_last())
            + slot_mark(b.last()));
    }
}

/// The marks of two runs of days are those of each, in order.
pub proof fn law_days_marks_concat(a: Seq<DaySchedule>, b: Seq<DaySchedule>)
    ensures
        days_marks(a + b) == days_marks(a) + days_marks(b),
    decreases b.len(),
{
    if b.len() == 0 {
        assert(a + b =~= a);
        assert(days_marks(a) + days_marks(b) =~= days_marks(a));
    } else {
        law_days_marks_concat(a, b.drop_last());
        assert((a + b).drop_last() =~= a + b.drop_last());
        assert((a + b).last() == b.last());
        assert(days_marks(a) + days_marks(b) =~= days_marks(a) + days_marks(b.drop_last())
            + slots_marks(b.last().slots@));
    }
}

/// A run of lessons gives one entry per marked lesson and no other: as many
/// entries as marked lessons, the entry of every marked lesson among them,
/// and each entry that of some marked lesson.
pub proof fn law_every_marked_lesson_counts(slots: Seq<LessonSlot>)
    ensures
        slots_marks(slots).len() == slots.filter(|s: LessonSlot| is_marked(s)).len(),
        forall|i: int| 0 <= i < slots.len() && is_marked(#[trigger] slots[i]) ==> slots_marks(slots).contains(mark_of(slots[i])),
        forall|e: MarkView| slots_marks(slots).contains(e) ==> exists|i: int| 0 <= i < slots.len() && is_marked(#[trigger] slots[i]) && e == mark_of(slots[i]),
    decreases slots.len(),
{
    reveal(Seq::filter);
    if slots.len() > 0 {
        let d = slots.drop_last();
        let l = slots.last();
        law_every_marked_lesson_counts(d);
        assert(slots.filter(|s: LessonSlot| is_marked(s)) == if is_marked(l) {
            d.filter(|s: LessonSlot| is_marked(s)).push(l)
        } else {
            d.filter(|s: LessonSlot| is_marked(s))
        });
        let sm = slots_marks(slots);
        assert(sm == slots_marks(d) + slot_mark(l));
        if is_marked(l) {
            assert(slot_mark(l) =~= seq![mark_of(l)]);
        } else {
            assert(slot_mark(l) =~= Seq::<MarkView>::empty());
        }
        assert forall|i: int| 0 <= i < slots.len() && is_marked(#[trigger] slots[i]) implies sm.contains(mark_of(slots[i])) by {
            if i < slots.len() - 1 {
                assert(slots[i] == d[i]);
                let j = choose|j: int| 0 <= j < slots_marks(d).len() && slots_marks(d)[j] == mark_of(d[i]);
                assert(sm[j] == mark_of(slots[i]));
            } else {
                assert(sm[slots_marks(d).len() as int] == mark_of(l));
            }
        }
        assert forall|e: MarkView| sm.contains(e) implies exists|i: int| 0 <= i < slots.len() && is_marked(#[trigger] slots[i]) && e == mark_of(slots[i]) by {
            let j = choose|j: int| 0 <= j < sm.len() && sm[j] == e;
            if j < slots_marks(d).len() {
                assert(slots_marks(d)[j] == e);
                assert(slots_marks(d).contains(e));
                let i = choose|i: int| 0 <= i < d.len() && is_marked(#[trigger] d[i]) && e == mark_of(d[i]);
                assert(slots[i] == d[i]);
            } else {
                assert(is_marked(l) && e == mark_of(l));
                assert(slots[slots.len() - 1] == l);
            }
        }
    } else {
        assert(slots.filter(|s: LessonSlot| is_marked(s)) =~= Seq::<LessonSlot>::empty());
    }
}

/// Every marked lesson of every day of a run of days is among its marks.
pub proof fn law_every_day_counts(days: Seq<DaySchedule>, d: int, i: int)
    requires
        0 <= d < days.len(),
        0 <= i < days[d].slots@.len(),
        is_marked(days[d].slots@[i]),
    ensures
        days_marks(days).contains(mark_of(days[d].slots@[i])),
{
    let pre = days.take(d);
    let one = seq![days[d]];
    let post = days.skip(d + 1);
    assert(days =~= pre + one + post);
    law_days_marks_concat(pre + one, post);
    law_days_marks_concat(pre, one);
    assert(one.drop_last() =~= Seq::<DaySchedule>::empty());
    assert(days_marks(Seq::<DaySchedule>::empty()) =~= Seq::<MarkView>::empty());
    assert(one.last() == days[d]);
    assert(days_marks(one) =~= slots_marks(days[d].slots@));
    law_every_marked_lesson_counts(days[d].slots@);
    let sm = slots_marks(days[d].slots@);
    let j = choose|j: int| 0 <= j < sm.len() && sm[j] == mark_of(days[d].slots@[i]);
    let all = days_marks(days);
    assert(all == days_marks(pre) + sm + days_marks(post));
    assert(all[days_marks(pre).len() + j] == sm[j]);
}

/// Every marked lesson of every day of every cached week in `[lo, hi)` is
/// among the marks of those weeks.
pub proof fn law_every_week_counts(cache: Map<i32, Vec<DaySchedule>>, lo: int, hi: int, k: int, d: int, i: int)
    requires
        lo <= k < hi,
        cache.contains_key(k as i32),
        0 <= d < cache[k as i32]@.len(),
        0 <= i < cache[k as i32]@[d].slots@.len(),
        is_marked(cache[k as i32]@[d].slots@[i]),
    ensures
        weeks_marks(cache, lo, hi).contains(mark_of(cache[k as i32]@[d].slots@[i])),
{
    law_week_marks_split(cache, lo, k, hi);
    law_week_marks_split(cache, k, k + 1, hi);
    assert(weeks_marks(cache, k, k) =~= Seq::<MarkView>::empty());
    assert(weeks_marks(cache, k, k + 1) =~= days_marks(cache[k as i32]@));
    law_every_day_counts(cache[k as i32]@, d, i);
    let dm = days_marks(cache[k as i32]@);
    let j = choose|j: int| 0 <= j < dm.len() && dm[j] == mark_of(cache[k as i32]@[d].slots@[i]);
    let all = weeks_marks(cache, lo, hi);
    assert(all == weeks_marks(cache, lo, k) + dm + weeks_marks(cache, k + 1, hi));
    assert(all[weeks_marks(cache, lo, k).len() + j] == dm[j]);
}

/// The marks of a run of weeks are those of its two halves, in order.
pub proof fn law_week_marks_split(cache: Map<i32, Vec<DaySchedule>>, a: int, b: int, e: int)
    requires
        a <= b <= e,
    ensures
        weeks_marks(cache, a, e) == weeks_marks(cache, a, b) + weeks_marks(cache, b, e),
    decreases e - b,
{
    if e > b {
        law_week_marks_split(cache, a, b, e - 1);
        let x = if cache.contains_key((e - 1) as i32) {
            days_marks(cache[(e - 1) as i32]@)
        } else {
            Seq::empty()
        };
        assert(weeks_marks(cache, a, e) == weeks_marks(cache, a, e - 1) + x);
        assert(weeks_marks(cache, b, e) == weeks_marks(cache, b, e - 1) + x);
        assert(weeks_marks(cache, a, b) + weeks_marks(cache, b, e) =~= weeks_marks(cache, a, b)
            + weeks_marks(cache, b, e - 1) + x);
    } else {
        assert(weeks_marks(cache, b, e) =~= Seq::empty());
        assert(weeks_marks(cache, a, b) + weeks_marks(cache, b, e) =~= weeks_marks(cache, a, b));
    }
}

/// The year's marks (what `quarter_marks` gives for a quarter past the
/// fourth) are the four quarters' marks joined in order.
pub proof fn law_year_marks_are_the_quarters(cache: Map<i32, Vec<DaySchedule>>)
    ensures
        weeks_marks(cache, marks_range(4).0, marks_range(4).1) == weeks_marks(
            cache,
            marks_range(0).0,
            marks_range(0).1,
        ) + weeks_marks(cache, marks_range(1).0, marks_range(1).1) + weeks_marks(
            cache,
            marks_range(2).0,
            marks_range(2).1,
        ) + weeks_marks(cache, marks_range(3).0, marks_range(3).1),
{
    law_week_marks_split(cache, 0, 27, 36);
    law_week_marks_split(cache, 0, 18, 27);
    law_week_marks_split(cache, 0, 9, 18);
}

/// The marks of a run of weeks depend only on the cached weeks of that run:
/// two caches that agree on those weeks give the same marks.
pub proof fn law_week_marks_are_local(
    c1: Map<i32, Vec<DaySchedule>>,
    c2: Map<i32, Vec<DaySchedule>>,
    lo: int,
    hi: int,
)
    requires
        forall|k: int|
            lo <= k < hi ==> (#[trigger] c1.contains_key(k as i32) == c2.contains_key(k as i32)
                && (c1.contains_key(k as i32) ==> c1[k as i32]@ == c2[k as i32]@)),
    ensures
        weeks_marks(c1, lo, hi) == weeks_marks(c2, lo, hi),
    decreases hi - lo,
{
    if hi > lo {
        law_week_marks_are_local(c1, c2, lo, hi - 1);
        assert(c1.contains_key((hi - 1) as i32) == c2.contains_key((hi - 1) as i32));
    }
}

fn copy_opt(o: &Option<String>) -> (r: Option<String>)
    ensures
        opt_seq(r) == opt_seq(*o),
{
    match o {
        Some(s) => Some(s.clone()),
        None => None,
    }
}

fn push_slots_marks(out: &mut Vec<MarkEntry>, slots: &Vec<LessonSlot>)
    ensures
        entries_view(final(out)@) == entries_view(old(out)@) + slots_marks(slots@),
{
    let mut k: usize = 0;
    assert(slots@.take(0) =~= Seq::<LessonSlot>::empty());
    assert(entries_view(out@) =~= entries_view(old(out)@) + slots_marks(slots@.take(0)));
    while k < slots.len()
        invariant
            k <= slots@.len(),
            entries_view(out@) == entries_view(old(out)@) + slots_marks(slots@.take(k as int)),
        decreases slots@.len() - k,
    {
        let slot = &slots[k];
        let ghost before = out@;
        match &slot.lesson_mark {
            Some(lm) => match &lm.mark {
                Some(m) => {
                    out.push(MarkEntry {
                        subject: slot.subject_title.clone(),
                        mark: m.clone(),
                        kind: copy_opt(&lm.kind),
                        author: copy_opt(&lm.author),
                        uuid: copy_opt(&lm.uuid),
                    });
                    assert(entries_view(out@) =~= entries_view(before) + slot_mark(*slot));
                },
                None => {
                    assert(entries_view(out@) =~= entries_view(before) + slot_mark(*slot));
                },
            },
            None => {
                assert(entries_view(out@) =~= entries_view(before) + slot_mark(*slot));
            },
        }
        assert(slots@.take(k + 1).drop_last() =~= slots@.take(k as int));
        k = k + 1;
    }
    assert(slots@.take(slots@.len() as int) =~= slots@);
}

fn push_days_marks(out: &mut Vec<MarkEntry>, days: &Vec<DaySchedule>)
    ensures
        entries_view(final(out)@) == entries_view(old(out)@) + days_marks(days@),
{
    let mut k: usize = 0;
    assert(days@.take(0) =~= Seq::<DaySchedule>::empty());
    assert(entries_view(out@) =~= entries_view(old(out)@) + days_marks(days@.take(0)));
    while k < days.len()
        invariant
            k <= days@.len(),
            entries_view(out@) == entries_view(old(out)@) + days_marks(days@.take(k as int)),
        decreases days@.len() - k,
    {
        push_slots_marks(out, &days[k].slots);
        assert(days@.take(k + 1).drop_last() =~= days@.take(k as int));
        assert(days@.take(k + 1).last() == days@[k as int]);
        k = k + 1;
    }
    assert(days@.take(days@.len() as int) =~= days@);
}

/// Every mark of a quarter's cached weeks (the whole year for `quarter >=
/// 4`), in week, day and lesson order, with its subject and who set it.
pub fn quarter_marks(cache: &HashMap<i32, Vec<DaySchedule>>, quarter: usize) -> (r: Vec<MarkEntry>)
    ensures
        entries_view(r@) == weeks_marks(cache@, marks_range(quarter as int).0, marks_range(
            quarter as int,
        ).1),
{
    let (start, end) = if quarter < 4 {
        quarter_bounds(quarter)
    } else {
        (0, 36)
    };
    let mut out: Vec<MarkEntry> = Vec::new();
    let mut idx = start;
    assert(entries_view(out@) =~= Seq::empty());
    while idx < end
        invariant
            start <= idx <= end <= 36,
            entries_view(out@) == weeks_marks(cache@, start as int, idx as int),
        decreases end - idx,
    {
        let key = idx as i32;
        match cache.get(&key) {
            Some(days) => {
                push_days_marks(&mut out, days);
            },
            None => {
                assert(entries_view(out@) =~= weeks_marks(cache@, start as int, idx + 1));
            },
        }
        idx = idx + 1;
    }
    out
}

/// A mark counts as official when a teacher is named or its kind is given.
pub open spec fn official(kind: Option<Seq<char>>, author: Option<Seq<char>>) -> bool {
    (author matches Some(a) && a.len() > 0) || kind is Some
}

/// Whether a mark was set officially (see `official`).
pub fn is_official(entry: &MarkEntry) -> (r: bool)
    ensures
        r == official(opt_seq(entry.kind), opt_seq(entry.author)),
{
    let has_author = match &entry.author {
        Some(a) => !a.as_str().is_empty(),
        None => false,
    };
    has_author || entry.kind.is_some()
}

// ── planning the loads ───────────────────────────────────────────────────

/// The ids a diary request needs are all known.
pub open spec fn ids_known(school_id: Seq<char>, class_id: Seq<char>, profile_id: Seq<char>) -> bool {
    school_id.len() > 0 && class_id.len() > 0 && profile_id.len() > 0
}

/// The lessons to fetch for weeks `start..end` (cut at the last week): each
/// week's index and the path of its lessons.
pub open spec fn fetch_list(
    weeks: Seq<WeekActivity>,
    start: int,
    end: int,
    school_id: Seq<char>,
    class_id: Seq<char>,
    profile_id: Seq<char>,
) -> Seq<(int, Seq<char>)> {
    let stop = if end < weeks.len() {
        end
    } else {
        weeks.len() as int
    };
    Seq::new(
        if start < stop {
            (stop - start) as nat
        } else {
            0
        },
        |k: int| (start + k, lessons_path(school_id, class_id, profile_id, weeks[start + k].uuid@)),
    )
}

/// The view of a list of (index, path) pairs.
pub open spec fn fetches_view(v: Seq<(usize, String)>) -> Seq<(int, Seq<char>)> {
    v.map_values(|p: (usize, String)| (p.0 as int, p.1@))
}

/// The lessons of weeks `start..end` (cut at the last week) to fetch.
pub fn week_fetches(
    weeks: &Vec<WeekActivity>,
    start: usize,
    end: usize,
    school_id: &str,
    class_id: &str,
    profile_id: &str,
) -> (r: Vec<(usize, String)>)
    ensures
        fetches_view(r@) == fetch_list(weeks@, start as int, end as int, school_id@, class_id@, profile_id@),
{
    let stop = if end < weeks.len() { end } else { weeks.len() };
    let ghost want = fetch_list(weeks@, start as int, end as int, school_id@, class_id@, profile_id@);
    let mut r: Vec<(usize, String)> = Vec::new();
    let mut i = start;
    while i < stop
        invariant
            start <= i,
            i <= stop || start >= stop,
            stop <= weeks@.len(),
            stop == (if end < weeks@.len() { end as int } else { weeks@.len() as int }),
            want == fetch_list(weeks@, start as int, end as int, school_id@, class_id@, profile_id@),
            fetches_view(r@) == want.take(i - start),
            i - start <= want.len(),
        decreases stop - i,
    {
        let path = lessons(school_id, class_id, profile_id, weeks[i].uuid.as_str());
        let ghost before = r@;
        r.push((i, path));
        proof {
            assert(want[i - start] == (i as int, path@));
            assert(want.take(i - start + 1) =~= want.take(i - start).push(want[i - start]));
            assert(fetches_view(r@) =~= fetches_view(before).push((i as int, path@)));
        }
        i = i + 1;
    }
    proof {
        if start < stop {
            assert(want.take(i - start) =~= want);
        } else {
            assert(want.len() == 0);
            assert(want.take(0) =~= want);
        }
    }
    r
}

/// What opening week `new_index` does: show it at once, from the cache
/// where it is there, fetch it otherwise, and fetch the uncached weeks
/// around it.
#[derive(Debug, Clone)]
pub struct WeekPlan {
    pub index: usize,
    /// The week's heading.
    pub summary: String,
    pub quarter: usize,
    /// The week's lessons are cached and shown without a request.
    pub cached: bool,
    /// The path of the week's lessons, where they must be fetched.
    pub fetch: Option<String>,
    /// The neighbouring weeks to fetch, by index and path.
    pub prefetch: Vec<(i32, String)>,
}

/// Plans the opening of week `new_index`; `None` where there is no such
/// week, an id is missing or no token is kept (nothing happens then).
pub fn plan_week(
    weeks: &Vec<WeekActivity>,
    new_index: i32,
    school_id: &str,
    class_id: &str,
    profile_id: &str,
    has_token: bool,
    cache: &HashMap<i32, Vec<DaySchedule>>,
) -> (r: Option<WeekPlan>)
    requires
        weeks@.len() < i32::MAX,
    ensures
        r is None <==> (new_index < 0 || new_index >= weeks@.len() || !ids_known(
            school_id@,
            class_id@,
            profile_id@,
        ) || !has_token),
        r matches Some(p) ==> {
            &&& p.index == new_index
            &&& p.summary@ == weeks@[new_index as int].summary@
            &&& p.quarter == quarter_of(new_index as int)
            &&& p.cached == cache@.contains_key(new_index)
            &&& (p.cached ==> p.fetch is None)
            &&& (!p.cached ==> (p.fetch matches Some(f) && f@ == lessons_path(
                school_id@,
                class_id@,
                profile_id@,
                weeks@[new_index as int].uuid@,
            )))
            &&& p.prefetch@.map_values(|q: (i32, String)| (q.0 as int, q.1@)) == neighbours(
                new_index as int,
                weeks@.len() as int,
            ).filter(|i: int| !cache@.contains_key(i as i32)).map_values(
                |i: int| (i, lessons_path(school_id@, class_id@, profile_id@, weeks@[i].uuid@)),
            )
        },
{
    if new_index < 0 || new_index as usize >= weeks.len() {
        return None;
    }
    if school_id.is_empty() || class_id.is_empty() || profile_id.is_empty() || !has_token {
        return None;
    }
    let idx = new_index as usize;
    let cached = cache.contains_key(&new_index);
    let fetch = if cached {
        None
    } else {
        Some(lessons(school_id, class_id, profile_id, weeks[idx].uuid.as_str()))
    };
    let targets = prefetch_targets(idx, weeks.len(), cache);
    let ghost want = neighbours(idx as int, weeks@.len() as int).filter(
        |i: int| !cache@.contains_key(i as i32),
    ).map_values(|i: int| (i, lessons_path(school_id@, class_id@, profile_id@, weeks@[i].uuid@)));
    let mut prefetch: Vec<(i32, String)> = Vec::new();
    let mut k: usize = 0;
    while k < targets.len()
        invariant
            k <= targets@.len(),
            targets@.map_values(|i: i32| i as int) == neighbours(idx as int, weeks@.len() as int).filter(
                |i: int| !cache@.contains_key(i as i32),
            ),
            want == neighbours(idx as int, weeks@.len() as int).filter(
                |i: int| !cache@.contains_key(i as i32),
            ).map_values(|i: int| (i, lessons_path(school_id@, class_id@, profile_id@, weeks@[i].uuid@))),
            prefetch@.map_values(|q: (i32, String)| (q.0 as int, q.1@)) == want.take(k as int),
        decreases targets@.len() - k,
    {
        let i = targets[k];
        proof {
            let nb = neighbours(idx as int, weeks@.len() as int);
            assert(targets@.map_values(|i: i32| i as int)[k as int] == i as int);
            let f = nb.filter(|i: int| !cache@.contains_key(i as i32));
            assert(f.contains(i as int));
            nb.lemma_filter_contains_rev(|i: int| !cache@.contains_key(i as i32), i as int);
        }
        let path = lessons(school_id, class_id, profile_id, weeks[i as usize].uuid.as_str());
        let ghost before = prefetch@;
        prefetch.push((i, path));
        proof {
            assert(want[k as int] == (i as int, path@));
            assert(want.take(k + 1) =~= want.take(k as int).push(want[k as int]));
            assert(prefetch@.map_values(|q: (i32, String)| (q.0 as int, q.1@)) =~= before.map_values(
                |q: (i32, String)| (q.0 as int, q.1@),
            ).push((i as int, path@)));
        }
        k = k + 1;
    }
    proof {
        assert(want.len() == targets@.len());
        assert(want.take(k as int) =~= want);
    }
    Some(WeekPlan {
        index: idx,
        summary: weeks[idx].summary.clone(),
        quarter: quarter_for_index(idx),
        cached,
        fetch,
        prefetch,
    })
}

/// The lessons a quarter's load fetches: its weeks (cut at the last week);
/// `None` where the quarter does not exist or starts after the last week, an
/// id is missing or no token is kept.
pub fn plan_quarter(
    quarter: usize,
    weeks: &Vec<WeekActivity>,
    school_id: &str,
    class_id: &str,
    profile_id: &str,
    has_token: bool,
) -> (r: Option<Vec<(usize, String)>>)
    ensures
        r is None <==> (quarter > 3 || quarter_range(quarter as int).0 >= weeks@.len() || !ids_known(
            school_id@,
            class_id@,
            profile_id@,
        ) || !has_token),
        r matches Some(v) ==> fetches_view(v@) == fetch_list(
            weeks@,
            quarter_range(quarter as int).0,
            quarter_range(quarter as int).1,
            school_id@,
            class_id@,
            profile_id@,
        ),
{
    if quarter > 3 {
        return None;
    }
    let (start, end) = quarter_bounds(quarter);
    if start >= weeks.len() {
        return None;
    }
    if school_id.is_empty() || class_id.is_empty() || profile_id.is_empty() || !has_token {
        return None;
    }
    Some(week_fetches(weeks, start, end, school_id, class_id, profile_id))
}

/// The lessons the year's load fetches, quarter by quarter; `None` where no
/// week is known, an id is missing or no token is kept.
pub fn plan_year(
    weeks: &Vec<WeekActivity>,
    school_id: &str,
    class_id: &str,
    profile_id: &str,
    has_token: bool,
) -> (r: Option<Vec<Vec<(usize, String)>>>)
    ensures
        r is None <==> (weeks@.len() == 0 || !ids_known(school_id@, class_id@, profile_id@)
            || !has_token),
        r matches Some(v) ==> v@.len() == 4 && forall|q: int|
            0 <= q < 4 ==> fetches_view(#[trigger] v@[q]@) == fetch_list(
                weeks@,
                quarter_range(q).0,
                quarter_range(q).1,
                school_id@,
                class_id@,
                profile_id@,
            ),
{
    if weeks.len() == 0 {
        return None;
    }
    if school_id.is_empty() || class_id.is_empty() || profile_id.is_empty() || !has_token {
        return None;
    }
    let mut all: Vec<Vec<(usize, String)>> = Vec::new();
    let mut q: usize = 0;
    while q < 4
        invariant
            q <= 4,
            all@.len() == q,
            forall|j: int|
                0 <= j < q ==> fetches_view(#[trigger] all@[j]@) == fetch_list(
                    weeks@,
                    quarter_range(j).0,
                    quarter_range(j).1,
                    school_id@,
                    class_id@,
                    profile_id@,
                ),
        decreases 4 - q,
    {
        let (start, end) = quarter_bounds(q);
        all.push(week_fetches(weeks, start, end, school_id, class_id, profile_id));
        q = q + 1;
    }
    Some(all)
}

/// The heading of quarter `q` in the year table ("I четверть" …).
pub fn quarter_label(q: usize) -> (label: &'static str)
    requires
        q < 4,
    ensures
        label@ == seq!["I четверть"@, "II четверть"@, "III четверть"@, "IV четверть"@][q as int],
{
    if q == 0 {
        "I четверть"
    } else if q == 1 {
        "II четверть"
    } else if q == 2 {
        "III четверть"
    } else {
        "IV четверть"
    }
}

// ── stored quarter marks ─────────────────────────────────────────────────

fn copy_entry(e: &MarkEntry) -> (r: MarkEntry)
    ensures
        entry_view(r) == entry_view(*e),
{
    MarkEntry {
        subject: e.subject.clone(),
        mark: e.mark.clone(),
        kind: copy_opt(&e.kind),
        author: copy_opt(&e.author),
        uuid: copy_opt(&e.uuid),
    }
}

fn copy_entries(v: &Vec<MarkEntry>) -> (r: Vec<MarkEntry>)
    ensures
        entries_view(r@) == entries_view(v@),
{
    let mut r: Vec<MarkEntry> = Vec::new();
    let mut k: usize = 0;
    while k < v.len()
        invariant
            k <= v@.len(),
            entries_view(r@) == entries_view(v@.take(k as int)),
        decreases v@.len() - k,
    {
        let ghost before = r@;
        let e = copy_entry(&v[k]);
        r.push(e);
        assert(r@ == before.push(e));
        assert(v@.take(k + 1) =~= v@.take(k as int).push(v@[k as int]));
        assert(entries_view(r@) =~= entries_view(before).push(entry_view(e)));
        assert(entries_view(v@.take(k + 1)) =~= entries_view(v@.take(k as int)).push(entry_view(v@[k as int])));
        k = k + 1;
    }
    assert(v@.take(k as int) =~= v@);
    r
}

/// The views of the stored marks of each quarter.
pub open spec fn stored_view(stored: Seq<Vec<MarkEntry>>) -> Seq<Seq<MarkView>> {
    stored.map_values(|v: Vec<MarkEntry>| entries_view(v@))
}

/// The marks shown for quarter `q`: the stored ones when there are any,
/// else those of the cached weeks of the quarter (the whole year for
/// `q >= 4`).
pub open spec fn shown_marks(stored: Seq<Vec<MarkEntry>>, cache: Map<i32, Vec<DaySchedule>>, q: int) -> Seq<MarkView> {
    if 0 <= q < stored.len() && stored[q]@.len() > 0 {
        entries_view(stored[q]@)
    } else {
        weeks_marks(cache, marks_range(q).0, marks_range(q).1)
    }
}

/// The marks of quarter `q` as the tables show them: the stored marks of the
/// quarter when there are any, else those read from the cached weeks.
pub fn quarter_entries(stored: &Vec<Vec<MarkEntry>>, cache: &HashMap<i32, Vec<DaySchedule>>, q: usize) -> (r: Vec<MarkEntry>)
    ensures
        entries_view(r@) == shown_marks(stored@, cache@, q as int),
{
    if q < stored.len() && stored[q].len() > 0 {
        copy_entries(&stored[q])
    } else {
        quarter_marks(cache, q)
    }
}

/// The year table shown at once while the year loads: for each of the four
/// quarters, its stored marks when there are any, else its cached weeks'.
pub fn year_table(stored: &Vec<Vec<MarkEntry>>, cache: &HashMap<i32, Vec<DaySchedule>>) -> (r: Vec<Vec<MarkEntry>>)
    ensures
        r@.len() == 4,
        forall|q: int| 0 <= q < 4 ==> entries_view(#[trigger] r@[q]@) == shown_marks(stored@, cache@, q),
{
    let mut r: Vec<Vec<MarkEntry>> = Vec::new();
    let mut q: usize = 0;
    while q < 4
        invariant
            q <= 4,
            r@.len() == q,
            forall|j: int| 0 <= j < q ==> entries_view(#[trigger] r@[j]@) == shown_marks(stored@, cache@, j),
        decreases 4 - q,
    {
        r.push(quarter_entries(stored, cache, q));
        q = q + 1;
    }
    r
}

/// Stores the marks of quarter `q` once it has loaded: the list of quarters
/// grows with empty quarters up to `q` where it is shorter, and quarter `q`
/// holds `marks`; the other quarters are kept.
pub fn store_quarter(stored: &mut Vec<Vec<MarkEntry>>, q: usize, marks: Vec<MarkEntry>)
    requires
        q < usize::MAX,
    ensures
        final(stored)@.len() == if q < old(stored)@.len() {
            old(stored)@.len() as int
        } else {
            q + 1
        },
        entries_view(final(stored)@[q as int]@) == entries_view(marks@),
        forall|i: int|
            0 <= i < old(stored)@.len() && i != q ==> #[trigger] final(stored)@[i] == old(stored)@[i],
        forall|i: int|
            old(stored)@.len() <= i < q ==> (#[trigger] final(stored)@[i])@.len() == 0,
{
    while stored.len() <= q
        invariant
            q < usize::MAX,
            old(stored)@.len() <= stored@.len(),
            stored@.len() <= (if q < old(stored)@.len() { old(stored)@.len() as int } else { q + 1 }),
            forall|i: int| 0 <= i < old(stored)@.len() ==> #[trigger] stored@[i] == old(stored)@[i],
            forall|i: int| old(stored)@.len() <= i < stored@.len() ==> (#[trigger] stored@[i])@.len() == 0,
        decreases q + 1 - stored@.len(),
    {
        stored.push(Vec::new());
    }
    stored.set(q, marks);
}

/// The stored marks of quarter `q`, if the list holds that quarter.
pub fn stored_quarter(stored: &Vec<Vec<MarkEntry>>, q: usize) -> (r: Option<&Vec<MarkEntry>>)
    ensures
        r == (if q < stored@.len() {
            Some(&stored@[q as int])
        } else {
            None
        }),
{
    if q < stored.len() {
        Some(&stored[q])
    } else {
        None
    }
}

// ── starting from the cache ──────────────────────────────────────────────

/// Where the lessons shown at start-up come from.
#[derive(Debug, Clone, Copy, PartialEq, Eq, Structural)]
pub enum StartLessons {
    /// The cached week with this index.
    Cached(i32),
    /// The saved lessons list, also cached under the current week's index
    /// when there is one.
    Saved { store_under: Option<i32> },
    /// Nothing to show yet.
    Nothing,
}

/// What start-up shows before anything is fetched: the current week among
/// the cached weeks, the quarter, and the lessons.
pub struct Startup {
    pub week: Option<usize>,
    pub quarter: usize,
    pub lessons: StartLessons,
}

/// Plans start-up from what was cached: the first cached week under way at
/// `now_ms` becomes the current week and sets the quarter (else `quarter`
/// stays); its cached lessons are shown, or else the saved lessons list when
/// there is one (cached under the current week).
pub fn plan_startup(
    weeks: Option<&Vec<WeekActivity>>,
    now_ms: u64,
    quarter: usize,
    cache: Option<&HashMap<i32, Vec<DaySchedule>>>,
    saved_lessons: bool,
) -> (s: Startup)
    requires
        weeks matches Some(w) ==> w@.len() <= i32::MAX,
    ensures
        match s.week {
            Some(i) => weeks matches Some(w) && i < w@.len() && covers(w@[i as int], now_ms) && forall|
                j: int,
            | 0 <= j < i ==> !covers(#[trigger] w@[j], now_ms),
            None => weeks matches Some(w) ==> forall|j: int|
                0 <= j < w@.len() ==> !covers(#[trigger] w@[j], now_ms),
        },
        s.quarter == match s.week {
            Some(i) => quarter_of(i as int) as usize,
            None => quarter,
        },
        ({
            let cached = s.week matches Some(i) && cache matches Some(c) && c@.contains_key(i as i32);
            let shown_empty = !cached || (s.week matches Some(i) && cache matches Some(c)
                && c@[i as i32]@.len() == 0);
            s.lessons == if saved_lessons && shown_empty {
                StartLessons::Saved {
                    store_under: match s.week {
                        Some(i) => Some(i as i32),
                        None => None,
                    },
                }
            } else if cached {
                StartLessons::Cached(s.week.unwrap() as i32)
            } else {
                StartLessons::Nothing
            }
        }),
{
    let week = match weeks {
        Some(w) => current_week_index(w, now_ms),
        None => None,
    };
    let q = match week {
        Some(i) => quarter_for_index(i),
        None => quarter,
    };
    let (cached, shown_empty) = match (week, cache) {
        (Some(i), Some(c)) => {
            let key = i as i32;
            match c.get(&key) {
                Some(days) => (true, days.len() == 0),
                None => (false, true),
            }
        },
        _ => (false, true),
    };
    let lessons = if saved_lessons && shown_empty {
        StartLessons::Saved {
            store_under: match week {
                Some(i) => Some(i as i32),
                None => None,
            },
        }
    } else if cached {
        match week {
            Some(i) => StartLessons::Cached(i as i32),
            None => StartLessons::Nothing,
        }
    } else {
        StartLessons::Nothing
    };
    Startup { week, quarter: q, lessons }
}

} // verus!
