//! The diary page: the week heading, mark colours, dates and the subject list.
use std::collections::HashMap;
use vstd::prelude::*;
use crate::pages::schedule::{weekday, weekday_name};
use crate::api::entities::{DaySchedule, LessonSlot, SubjectWithTeacher};
use crate::features::diary::MarkEntry;
use crate::text::{
    lemma_text_less_total, lemma_text_less_transitive, text_less,
    text_order, chars_of, is_ascii_digit, parse_u32, parsed_u32, push_char, push_zero_padded, trim,
    trimmed, zero_padded,
};

verus! {

// ── the week heading ─────────────────────────────────────────────────────

/// The length of the run of ASCII digits that `s` starts with.
pub open spec fn digit_run(s: Seq<char>) -> nat
    decreases s.len(),
{
    if s.len() > 0 && is_ascii_digit(s[0]) {
        1 + digit_run(s.drop_first())
    } else {
        0
    }
}

/// A run of digits without its leading zeros.
pub open spec fn drop_zeros(d: Seq<char>) -> Seq<char>
    decreases d.len(),
{
    if d.len() > 0 && d[0] == '0' {
        drop_zeros(d.drop_first())
    } else {
        d
    }
}

/// A number written without leading zeros; a run of zeros only is `0`.
pub open spec fn unpadded_number(d: Seq<char>) -> Seq<char> {
    if drop_zeros(d).len() == 0 {
        seq!['0']
    } else {
        drop_zeros(d)
    }
}

/// A digit run fits in its string, and is non-empty where the string
/// starts with a digit.
pub proof fn lemma_digit_run_bounds(s: Seq<char>)
    ensures
        digit_run(s) <= s.len(),
        s.len() > 0 && is_ascii_digit(s[0]) ==> digit_run(s) >= 1,
    decreases s.len(),
{
    if s.len() > 0 && is_ascii_digit(s[0]) {
        lemma_digit_run_bounds(s.drop_first());
    }
}

/// `s` with every number in it written without leading zeros.
pub open spec fn unpadded(s: Seq<char>) -> Seq<char>
    decreases s.len(),
{
    if s.len() == 0 {
        s
    } else if is_ascii_digit(s[0]) {
        proof {
            lemma_digit_run_bounds(s);
        }
        let k = digit_run(s) as int;
        unpadded_number(s.take(k)) + unpadded(s.skip(k))
    } else {
        seq![s[0]] + unpadded(s.drop_first())
    }
}

/// A heading without digits is only trimmed: nothing in it is unpadded.
pub proof fn law_heading_without_numbers_is_kept(s: Seq<char>)
    requires
        forall|i: int| 0 <= i < s.len() ==> !is_ascii_digit(#[trigger] s[i]),
    ensures
        unpadded(s) == s,
    decreases s.len(),
{
    if s.len() > 0 {
        let t = s.drop_first();
        assert forall|i: int| 0 <= i < t.len() implies !is_ascii_digit(#[trigger] t[i]) by {
            assert(t[i] == s[i + 1]);
        }
        law_heading_without_numbers_is_kept(t);
        assert(seq![s[0]] + t =~= s);
    }
}

proof fn lemma_drop_zeros_push(d: Seq<char>, c: char)
    ensures
        drop_zeros(d.push(c)) == (if drop_zeros(d).len() == 0 {
            if c == '0' {
                Seq::<char>::empty()
            } else {
                seq![c]
            }
        } else {
            drop_zeros(d).push(c)
        }),
    decreases d.len(),
{
    if d.len() == 0 {
        assert(d.push(c) =~= seq![c]);
        if c == '0' {
            assert(seq![c].drop_first() =~= Seq::<char>::empty());
            assert(drop_zeros(Seq::<char>::empty()) == Seq::<char>::empty());
        }
    } else if d[0] == '0' {
        assert(d.push(c).drop_first() =~= d.drop_first().push(c));
        lemma_drop_zeros_push(d.drop_first(), c);
    } else {
        assert(d.push(c)[0] == d[0]);
    }
}

proof fn lemma_digit_run_exact(t: Seq<char>, k: int)
    requires
        0 <= k <= t.len(),
        forall|j: int| 0 <= j < k ==> is_ascii_digit(#[trigger] t[j]),
        k == t.len() || !is_ascii_digit(t[k]),
    ensures
        digit_run(t) == k,
    decreases k,
{
    if k > 0 {
        assert(is_ascii_digit(t[0]));
        lemma_digit_run_exact(t.drop_first(), k - 1);
    }
}

fn ascii_digit(c: char) -> (b: bool)
    ensures
        b == is_ascii_digit(c),
{
    '0' <= c && c <= '9'
}

/// The week heading as shown: every number without its leading zeros
/// ("01 сентября" reads "1 сентября"), surrounding whitespace removed.
pub fn strip_week_summary(s: &str) -> (r: String)
    ensures
        r@ == trimmed(unpadded(s@)),
{
    let cs = chars_of(s);
    let mut out = String::new();
    let mut i: usize = 0;
    assert(cs@.skip(0) =~= cs@);
    assert(out@ + unpadded(cs@.skip(0)) =~= unpadded(s@));
    while i < cs.len()
        invariant
            i <= cs@.len(),
            cs@ == s@,
            unpadded(s@) == out@ + unpadded(cs@.skip(i as int)),
        decreases cs@.len() - i,
    {
        let ghost t = cs@.skip(i as int);
        let ghost before = out@;
        if ascii_digit(cs[i]) {
            let start = i;
            let mut started = false;
            assert(cs@.subrange(start as int, start as int) =~= Seq::<char>::empty());
            while i < cs.len() && ascii_digit(cs[i])
                invariant
                    start <= i <= cs@.len(),
                    forall|j: int| start <= j < i ==> is_ascii_digit(#[trigger] cs@[j]),
                    started <==> drop_zeros(cs@.subrange(start as int, i as int)).len() > 0,
                    out@ == before + drop_zeros(cs@.subrange(start as int, i as int)),
                decreases cs@.len() - i,
            {
                let c = cs[i];
                proof {
                    lemma_drop_zeros_push(cs@.subrange(start as int, i as int), c);
                    assert(cs@.subrange(start as int, i + 1) =~= cs@.subrange(
                        start as int,
                        i as int,
                    ).push(c));
                }
                if c != '0' || started {
                    started = true;
                    push_char(&mut out, c);
                }
                i = i + 1;
            }
            let ghost run = cs@.subrange(start as int, i as int);
            if !started {
                push_char(&mut out, '0');
            }
            proof {
                let k = i - start;
                assert forall|j: int| 0 <= j < k implies is_ascii_digit(#[trigger] t[j]) by {
                    assert(t[j] == cs@[start + j]);
                }
                if i < cs.len() {
                    assert(t[k] == cs@[i as int]);
                }
                lemma_digit_run_exact(t, k);
                assert(t.take(k) =~= run);
                assert(t.skip(k) =~= cs@.skip(i as int));
                assert(out@ =~= before + unpadded_number(run));
            }
        } else {
            push_char(&mut out, cs[i]);
            proof {
                assert(t.drop_first() =~= cs@.skip(i + 1));
                assert(t[0] == cs@[i as int]);
                assert(out@ =~= before + seq![t[0]]);
            }
            i = i + 1;
        }
    }
    assert(cs@.skip(i as int) =~= Seq::<char>::empty());
    assert(out@ =~= unpadded(s@));
    trim(out.as_str())
}

// ── marks ────────────────────────────────────────────────────────────────

/// The colour band a mark is shown in.
#[derive(Debug, Clone, Copy, PartialEq, Eq, Structural)]
pub enum GradeBand {
    Excellent,
    Good,
    Satisfactory,
    Poor,
    Failing,
    Unmarked,
}

/// The band of a mark on the ten-point scale; anything that is not a number
/// from 1 to 10 is unmarked.
pub open spec fn band_of(value: Option<u32>) -> GradeBand {
    match value {
        Some(n) => if 9 <= n <= 10 {
            GradeBand::Excellent
        } else if 7 <= n <= 8 {
            GradeBand::Good
        } else if 5 <= n <= 6 {
            GradeBand::Satisfactory
        } else if 3 <= n <= 4 {
            GradeBand::Poor
        } else if 1 <= n <= 2 {
            GradeBand::Failing
        } else {
            GradeBand::Unmarked
        },
        None => GradeBand::Unmarked,
    }
}

/// The bands of the ten-point scale: 9–10 excellent, 7–8 good, 5–6
/// satisfactory, 3–4 poor, 1–2 failing; 0, anything above 10 and anything
/// that is not a number are unmarked.
pub proof fn law_mark_bands(value: Option<u32>)
    ensures
        match value {
            Some(n) => {
                &&& (band_of(value) == GradeBand::Excellent <==> 9 <= n <= 10)
                &&& (band_of(value) == GradeBand::Good <==> 7 <= n <= 8)
                &&& (band_of(value) == GradeBand::Satisfactory <==> 5 <= n <= 6)
                &&& (band_of(value) == GradeBand::Poor <==> 3 <= n <= 4)
                &&& (band_of(value) == GradeBand::Failing <==> 1 <= n <= 2)
                &&& (band_of(value) == GradeBand::Unmarked <==> (n == 0 || n > 10))
            },
            None => band_of(value) == GradeBand::Unmarked,
        },
{
}

/// The band of a mark as the diary writes it ("8", " 10 ").
pub fn grade_band(mark: &str) -> (b: GradeBand)
    ensures
        b == band_of(parsed_u32(trimmed(mark@))),
        match parsed_u32(trimmed(mark@)) {
            Some(n) => {
                &&& (b == GradeBand::Excellent <==> 9 <= n <= 10)
                &&& (b == GradeBand::Good <==> 7 <= n <= 8)
                &&& (b == GradeBand::Satisfactory <==> 5 <= n <= 6)
                &&& (b == GradeBand::Poor <==> 3 <= n <= 4)
                &&& (b == GradeBand::Failing <==> 1 <= n <= 2)
                &&& (b == GradeBand::Unmarked <==> (n == 0 || n > 10))
            },
            None => b == GradeBand::Unmarked,
        },
{
    proof {
        law_mark_bands(parsed_u32(trimmed(mark@)));
    }
    let t = trim(mark);
    match parse_u32(t.as_str()) {
        Some(n) => if 9 <= n && n <= 10 {
            GradeBand::Excellent
        } else if 7 <= n && n <= 8 {
            GradeBand::Good
        } else if 5 <= n && n <= 6 {
            GradeBand::Satisfactory
        } else if 3 <= n && n <= 4 {
            GradeBand::Poor
        } else if 1 <= n && n <= 2 {
            GradeBand::Failing
        } else {
            GradeBand::Unmarked
        },
        None => GradeBand::Unmarked,
    }
}

// ── dates ────────────────────────────────────────────────────────────────

/// A calendar day as "DD.MM".
pub open spec fn short_date(day: u32, month: u32) -> Seq<char> {
    zero_padded(day as nat, 2) + seq!['.'] + zero_padded(month as nat, 2)
}

/// Writes a calendar day as "DD.MM".
pub fn format_date_short(day: u32, month: u32) -> (r: String)
    ensures
        r@ == short_date(day, month),
{
    let mut r = String::new();
    push_zero_padded(&mut r, day as u64, 2);
    push_char(&mut r, '.');
    push_zero_padded(&mut r, month as u64, 2);
    assert(r@ =~= short_date(day, month));
    r
}

/// A day heading: the week day's name, a comma and the date
/// ("Понедельник, 07.09").
pub fn format_date_header(dow: u32, day: u32, month: u32) -> (r: String)
    ensures
        r@ == weekday(dow) + ", "@ + short_date(day, month),
{
    let mut r = String::new();
    r.append(weekday_name(dow));
    r.append(", ");
    let d = format_date_short(day, month);
    r.append(d.as_str());
    assert(r@ =~= weekday(dow) + ", "@ + short_date(day, month));
    r
}

// ── the subject list ─────────────────────────────────────────────────────

/// The texts of a sequence of strings.
pub open spec fn texts(v: Seq<String>) -> Seq<Seq<char>> {
    v.map_values(|s: String| s@)
}

/// Each text sorts strictly before the ones after it: sorted, no repeats.
pub open spec fn strictly_sorted(v: Seq<Seq<char>>) -> bool {
    forall|i: int, j: int| 0 <= i < j < v.len() ==> text_less(#[trigger] v[i], #[trigger] v[j])
}

/// The subject titles of a run of lessons, in order.
pub open spec fn slot_titles(slots: Seq<LessonSlot>) -> Seq<Seq<char>>
    decreases slots.len(),
{
    if slots.len() == 0 {
        Seq::empty()
    } else {
        slot_titles(slots.drop_last()).push(slots.last().subject_title@)
    }
}

/// The subject titles of the lessons of some days, day by day.
pub open spec fn day_titles(days: Seq<DaySchedule>) -> Seq<Seq<char>>
    decreases days.len(),
{
    if days.len() == 0 {
        Seq::empty()
    } else {
        day_titles(days.drop_last()) + slot_titles(days.last().slots@)
    }
}

/// The subject titles of every lesson of `days`, day by day, lesson by
/// lesson (empty titles included).
pub fn day_subjects(days: &Vec<DaySchedule>) -> (r: Vec<String>)
    ensures
        texts(r@) == day_titles(days@),
{
    let mut r: Vec<String> = Vec::new();
    let mut d: usize = 0;
    assert(days@.take(0) =~= Seq::<DaySchedule>::empty());
    while d < days.len()
        invariant
            d <= days@.len(),
            texts(r@) == day_titles(days@.take(d as int)),
        decreases days@.len() - d,
    {
        let slots = &days[d].slots;
        let ghost base = r@;
        let mut k: usize = 0;
        assert(slots@.take(0) =~= Seq::<LessonSlot>::empty());
        assert(texts(r@) =~= texts(base) + slot_titles(slots@.take(0)));
        while k < slots.len()
            invariant
                k <= slots@.len(),
                texts(r@) == texts(base) + slot_titles(slots@.take(k as int)),
            decreases slots@.len() - k,
        {
            let ghost before = r@;
            r.push(slots[k].subject_title.clone());
            proof {
                assert(slots@.take(k + 1).drop_last() =~= slots@.take(k as int));
                assert(texts(r@) =~= texts(before).push(slots@[k as int].subject_title@));
            }
            k = k + 1;
        }
        proof {
            assert(slots@.take(k as int) =~= slots@);
            assert(days@.take(d + 1).drop_last() =~= days@.take(d as int));
        }
        d = d + 1;
    }
    assert(days@.take(d as int) =~= days@);
    r
}

/// The subject list of the marks tables: every non-empty title among the
/// candidates, once each, in the order of `str`.
pub fn sorted_subjects(candidates: &Vec<String>) -> (names: Vec<String>)
    ensures
        strictly_sorted(texts(names@)),
        forall|t: Seq<char>|
            texts(names@).contains(t) <==> (t.len() > 0 && texts(candidates@).contains(t)),
{
    let mut out: Vec<String> = Vec::new();
    let mut k: usize = 0;
    while k < candidates.len()
        invariant
            k <= candidates@.len(),
            strictly_sorted(texts(out@)),
            forall|t: Seq<char>|
                texts(out@).contains(t) <==> (t.len() > 0 && texts(
                    candidates@.take(k as int),
                ).contains(t)),
        decreases candidates@.len() - k,
    {
        let cand = chars_of(candidates[k].as_str());
        let ghost c = cand@;
        proof {
            assert(texts(candidates@.take(k + 1)) =~= texts(candidates@.take(k as int)).push(c));
        }
        if cand.len() > 0 {
            let mut p: usize = 0;
            let mut found = false;
            while p < out.len()
                invariant_except_break
                    !found,
                    forall|q: int| 0 <= q < p ==> text_less(#[trigger] texts(out@)[q], c),
                invariant
                    p <= out@.len(),
                    cand@ == c,
                ensures
                    p <= out@.len(),
                    forall|q: int| 0 <= q < p ==> text_less(#[trigger] texts(out@)[q], c),
                    found ==> p < out@.len() && texts(out@)[p as int] == c,
                    !found ==> (p == out@.len() || text_less(c, texts(out@)[p as int])),
                decreases out@.len() - p,
            {
                let here = chars_of(out[p].as_str());
                assert(here@ == texts(out@)[p as int]);
                let o = text_order(here.as_slice(), cand.as_slice());
                if o >= 0 {
                    found = o == 0;
                    break;
                }
                p = p + 1;
            }
            let ghost old_out = texts(out@);
            if found {
                assert(old_out[p as int] == c);
                assert(old_out.contains(c));
            } else {
                let owned_cand = candidates[k].clone();
                out.insert(p, owned_cand);
                proof {
                    let nv = texts(out@);
                    assert(nv =~= old_out.insert(p as int, c));
                    if p < old_out.len() {
                        lemma_text_less_total(old_out[p as int], c);
                    }
                    assert forall|i: int, j: int| 0 <= i < j < nv.len() implies text_less(
                        #[trigger] nv[i],
                        #[trigger] nv[j],
                    ) by {
                        if j < p {
                        } else if j == p {
                        } else if i < p {
                            assert(nv[i] == old_out[i]);
                            assert(nv[j] == old_out[j - 1]);
                        } else if i == p {
                            if j - 1 > p {
                                assert(text_less(old_out[p as int], old_out[j - 1]));
                                lemma_text_less_transitive(c, old_out[p as int], old_out[j - 1]);
                            }
                        } else {
                            assert(nv[i] == old_out[i - 1]);
                            assert(nv[j] == old_out[j - 1]);
                        }
                    }
                    assert forall|t: Seq<char>| nv.contains(t) <==> (old_out.contains(t) || t == c) by {
                        if nv.contains(t) {
                            let i = choose|i: int| 0 <= i < nv.len() && nv[i] == t;
                            if i < p {
                                assert(old_out[i] == t);
                            } else if i > p {
                                assert(old_out[i - 1] == t);
                            }
                        }
                        if old_out.contains(t) {
                            let i = choose|i: int| 0 <= i < old_out.len() && old_out[i] == t;
                            if i < p {
                                assert(nv[i] == t);
                            } else {
                                assert(nv[i + 1] == t);
                            }
                        }
                        if t == c {
                            assert(nv[p as int] == c);
                        }
                    }
                }
            }
        }
        proof {
            let before = texts(candidates@.take(k as int));
            let after = texts(candidates@.take(k + 1));
            assert forall|t: Seq<char>| after.contains(t) <==> (before.contains(t) || t == c) by {
                if after.contains(t) {
                    let i = choose|i: int| 0 <= i < after.len() && after[i] == t;
                    if i < before.len() {
                        assert(before[i] == t);
                    }
                }
                if before.contains(t) {
                    let i = choose|i: int| 0 <= i < before.len() && before[i] == t;
                    assert(after[i] == t);
                }
                if t == c {
                    assert(after[before.len() as int] == c);
                }
            }
        }
        k = k + 1;
    }
    assert(candidates@.take(k as int) =~= candidates@);
    out
}

/// The subject titles of the teachers' entries, in order.
pub open spec fn teacher_titles(ts: Seq<SubjectWithTeacher>) -> Seq<Seq<char>> {
    ts.map_values(|t: SubjectWithTeacher| t.subject_title@)
}

/// The subjects of some marks, in order.
pub open spec fn mark_subjects(es: Seq<MarkEntry>) -> Seq<Seq<char>> {
    es.map_values(|e: MarkEntry| e.subject@)
}

/// The lesson titles of several weeks, week by week.
pub open spec fn weeks_titles(ws: Seq<Vec<DaySchedule>>) -> Seq<Seq<char>>
    decreases ws.len(),
{
    if ws.len() == 0 {
        Seq::empty()
    } else {
        weeks_titles(ws.drop_last()) + day_titles(ws.last()@)
    }
}

/// The subjects of the marks of several quarters, quarter by quarter.
pub open spec fn quarters_subjects(qs: Seq<Vec<MarkEntry>>) -> Seq<Seq<char>>
    decreases qs.len(),
{
    if qs.len() == 0 {
        Seq::empty()
    } else {
        quarters_subjects(qs.drop_last()) + mark_subjects(qs.last()@)
    }
}

/// Every title the subject list is gathered from: the teachers' subjects,
/// the current week's lessons, the cached weeks' lessons, the subjects of the
/// stored quarter marks and of the marks shown.
pub open spec fn gathered_titles(
    teachers: Seq<SubjectWithTeacher>,
    lessons: Seq<DaySchedule>,
    cached: Seq<Vec<DaySchedule>>,
    stored: Seq<Vec<MarkEntry>>,
    shown: Seq<MarkEntry>,
) -> Seq<Seq<char>> {
    teacher_titles(teachers) + day_titles(lessons) + weeks_titles(cached) + quarters_subjects(stored)
        + mark_subjects(shown)
}

fn push_all(dst: &mut Vec<String>, src: Vec<String>)
    ensures
        texts(final(dst)@) == texts(old(dst)@) + texts(src@),
{
    let mut k: usize = 0;
    assert(texts(dst@) =~= texts(old(dst)@) + texts(src@.take(0)));
    while k < src.len()
        invariant
            k <= src@.len(),
            texts(dst@) == texts(old(dst)@) + texts(src@.take(k as int)),
        decreases src@.len() - k,
    {
        let ghost before = dst@;
        let v = src[k].clone();
        dst.push(v);
        assert(texts(dst@) =~= texts(before).push(src@[k as int]@));
        assert(texts(src@.take(k + 1)) =~= texts(src@.take(k as int)).push(src@[k as int]@));
        k = k + 1;
    }
    assert(src@.take(k as int) =~= src@);
}

fn entry_subjects(es: &Vec<MarkEntry>) -> (r: Vec<String>)
    ensures
        texts(r@) == mark_subjects(es@),
{
    let mut r: Vec<String> = Vec::new();
    let mut k: usize = 0;
    while k < es.len()
        invariant
            k <= es@.len(),
            texts(r@) == mark_subjects(es@.take(k as int)),
        decreases es@.len() - k,
    {
        let ghost before = r@;
        r.push(es[k].subject.clone());
        assert(texts(r@) =~= texts(before).push(es@[k as int].subject@));
        assert(mark_subjects(es@.take(k + 1)) =~= mark_subjects(es@.take(k as int)).push(es@[k as int].subject@));
        k = k + 1;
    }
    assert(es@.take(k as int) =~= es@);
    r
}

/// The subject list of the marks tables, gathered from the teachers, the
/// current week, the cached weeks, the stored quarter marks and the marks
/// shown: every non-empty title among them, once, in the order of `str`.
pub fn all_subject_names(
    teachers: &Vec<SubjectWithTeacher>,
    lessons: &Vec<DaySchedule>,
    cached: &Vec<Vec<DaySchedule>>,
    stored: &Vec<Vec<MarkEntry>>,
    shown: &Vec<MarkEntry>,
) -> (names: Vec<String>)
    ensures
        strictly_sorted(texts(names@)),
        forall|t: Seq<char>|
            texts(names@).contains(t) <==> (t.len() > 0 && gathered_titles(
                teachers@,
                lessons@,
                cached@,
                stored@,
                shown@,
            ).contains(t)),
{
    let mut cands: Vec<String> = Vec::new();
    let mut k: usize = 0;
    while k < teachers.len()
        invariant
            k <= teachers@.len(),
            texts(cands@) == teacher_titles(teachers@.take(k as int)),
        decreases teachers@.len() - k,
    {
        let ghost before = cands@;
        cands.push(teachers[k].subject_title.clone());
        assert(texts(cands@) =~= texts(before).push(teachers@[k as int].subject_title@));
        assert(teacher_titles(teachers@.take(k + 1)) =~= teacher_titles(teachers@.take(k as int)).push(
            teachers@[k as int].subject_title@,
        ));
        k = k + 1;
    }
    assert(teachers@.take(k as int) =~= teachers@);
    push_all(&mut cands, day_subjects(lessons));
    let ghost base = texts(cands@);
    let mut w: usize = 0;
    assert(cached@.take(0) =~= Seq::<Vec<DaySchedule>>::empty());
    assert(texts(cands@) =~= base + weeks_titles(cached@.take(0)));
    while w < cached.len()
        invariant
            w <= cached@.len(),
            texts(cands@) == base + weeks_titles(cached@.take(w as int)),
        decreases cached@.len() - w,
    {
        push_all(&mut cands, day_subjects(&cached[w]));
        assert(cached@.take(w + 1).drop_last() =~= cached@.take(w as int));
        assert(texts(cands@) =~= base + weeks_titles(cached@.take(w + 1)));
        w = w + 1;
    }
    assert(cached@.take(w as int) =~= cached@);
    let ghost base2 = texts(cands@);
    let mut q: usize = 0;
    assert(stored@.take(0) =~= Seq::<Vec<MarkEntry>>::empty());
    assert(texts(cands@) =~= base2 + quarters_subjects(stored@.take(0)));
    while q < stored.len()
        invariant
            q <= stored@.len(),
            texts(cands@) == base2 + quarters_subjects(stored@.take(q as int)),
        decreases stored@.len() - q,
    {
        push_all(&mut cands, entry_subjects(&stored[q]));
        assert(stored@.take(q + 1).drop_last() =~= stored@.take(q as int));
        assert(texts(cands@) =~= base2 + quarters_subjects(stored@.take(q + 1)));
        q = q + 1;
    }
    assert(stored@.take(q as int) =~= stored@);
    push_all(&mut cands, entry_subjects(shown));
    assert(texts(cands@) =~= gathered_titles(teachers@, lessons@, cached@, stored@, shown@));
    sorted_subjects(&cands)
}

// ── the week pager ───────────────────────────────────────────────────────

/// The lessons of the week `offset` pages away from the current one: the
/// current week's own for offset 0, else the cached week at the current
/// index plus the offset (`None` where that week is not loaded yet, which the
/// page shows as an empty week).
pub fn lessons_at<'a>(
    current: &'a Vec<DaySchedule>,
    cache: &'a HashMap<i32, Vec<DaySchedule>>,
    week_index: i32,
    offset: i32,
) -> (r: Option<&'a Vec<DaySchedule>>)
    requires
        i32::MIN <= week_index + offset <= i32::MAX,
    ensures
        offset == 0 ==> r == Some(current),
        offset != 0 ==> r == (if cache@.contains_key((week_index + offset) as i32) {
            Some(&cache@[(week_index + offset) as i32])
        } else {
            None
        }),
{
    if offset == 0 {
        Some(current)
    } else {
        let idx = week_index + offset;
        cache.get(&idx)
    }
}

/// The quarter a summary page `offset` pages away from `current` shows:
/// their sum, held to 0..=4 (4 is the whole year).
pub fn summary_quarter(current: usize, offset: i32) -> (q: usize)
    requires
        current <= i32::MAX,
        current + offset <= i32::MAX,
    ensures
        q == (if current + offset < 0 {
            0
        } else if current + offset > 4 {
            4
        } else {
            current + offset
        }),
{
    let sum = current as i32 + offset;
    if sum < 0 {
        0
    } else if sum > 4 {
        4
    } else {
        sum as usize
    }
}

} // verus!
