//! The teachers page: one card per subject and teacher.
use vstd::prelude::*;
use crate::api::entities::SubjectWithTeacher;
use crate::text::{has_char, owned};

verus! {

/// The text that tells two subject–teacher entries apart on the page.
pub open spec fn dedup_key(t: SubjectWithTeacher) -> Seq<char> {
    t.subject_title@ + ":"@ + t.teacher@
}

/// Entry `i` repeats the key of an earlier entry.
pub open spec fn repeats_earlier(list: Seq<SubjectWithTeacher>, i: int) -> bool {
    exists|j: int| 0 <= j < i && dedup_key(list[j]) == dedup_key(list[i])
}

/// The indices of the entries among the first `n` whose key no earlier
/// entry has, in order.
pub open spec fn first_occurrences(list: Seq<SubjectWithTeacher>, n: int) -> Seq<int>
    decreases n,
{
    if n <= 0 {
        Seq::empty()
    } else {
        first_occurrences(list, n - 1) + if repeats_earlier(list, n - 1) {
            Seq::empty()
        } else {
            seq![n - 1]
        }
    }
}

fn key_of(t: &SubjectWithTeacher) -> (k: String)
    ensures
        k@ == dedup_key(*t),
{
    let mut k = owned(t.subject_title.as_str());
    k.append(":");
    k.append(t.teacher.as_str());
    k
}

/// The entries the page shows: the first of each subject and teacher, by
/// index into `list`, in order.
pub fn unique_teacher_indices(list: &Vec<SubjectWithTeacher>) -> (r: Vec<usize>)
    ensures
        r@.map_values(|i: usize| i as int) == first_occurrences(list@, list@.len() as int),
{
    let mut seen: Vec<String> = Vec::new();
    let mut r: Vec<usize> = Vec::new();
    let mut i: usize = 0;
    while i < list.len()
        invariant
            i <= list@.len(),
            seen@.len() == i,
            forall|j: int| 0 <= j < i ==> (#[trigger] seen@[j])@ == dedup_key(list@[j]),
            r@.map_values(|x: usize| x as int) == first_occurrences(list@, i as int),
        decreases list@.len() - i,
    {
        let k = key_of(&list[i]);
        let mut j: usize = 0;
        let mut dup = false;
        while j < i
            invariant
                j <= i,
                i < list@.len(),
                seen@.len() == i,
                forall|m: int| 0 <= m < i ==> (#[trigger] seen@[m])@ == dedup_key(list@[m]),
                k@ == dedup_key(list@[i as int]),
                dup == exists|m: int| 0 <= m < j && dedup_key(list@[m]) == dedup_key(list@[i as int]),
            decreases i - j,
        {
            if seen[j] == k {
                dup = true;
            }
            assert(dup == exists|m: int| 0 <= m < j + 1 && dedup_key(list@[m]) == dedup_key(list@[i as int])) by {
                if dup {
                    if !(exists|m: int| 0 <= m < j && dedup_key(list@[m]) == dedup_key(list@[i as int])) {
                        assert(seen@[j as int]@ == k@);
                    }
                }
            }
            j = j + 1;
        }
        let ghost before = r@;
        if !dup {
            r.push(i);
        }
        assert(r@.map_values(|x: usize| x as int) =~= first_occurrences(list@, i + 1)) by {
            assert(dup == repeats_earlier(list@, i as int));
            if !dup {
                assert(before.push(i).map_values(|x: usize| x as int) =~= before.map_values(|x: usize| x as int).push(i as int));
            }
        }
        seen.push(k);
        i = i + 1;
    }
    r
}

/// The key of a teacher card: teacher id and subject id (`teacher:subject`).
pub fn teacher_key(t: &SubjectWithTeacher) -> (k: String)
    ensures
        k@ == t.teacher_id@ + ":"@ + t.id@,
{
    let mut k = owned(t.teacher_id.as_str());
    k.append(":");
    k.append(t.id.as_str());
    k
}

/// Two entries share a card exactly when they have the same subject and the
/// same teacher (subject titles are written without `:`, which the key puts
/// between subject and teacher).
pub proof fn law_same_card_same_pair(a: SubjectWithTeacher, b: SubjectWithTeacher)
    requires
        !has_char(a.subject_title@, ':'),
        !has_char(b.subject_title@, ':'),
    ensures
        dedup_key(a) == dedup_key(b) <==> (a.subject_title@ == b.subject_title@ && a.teacher@ == b.teacher@),
{
    reveal_strlit(":");
    let s1 = a.subject_title@;
    let s2 = b.subject_title@;
    let x = dedup_key(a);
    let y = dedup_key(b);
    if x == y {
        if s1.len() < s2.len() {
            assert(x[s1.len() as int] == ':');
            assert(y[s1.len() as int] == s2[s1.len() as int]);
            assert(has_char(s2, ':'));
        } else if s2.len() < s1.len() {
            assert(y[s2.len() as int] == ':');
            assert(x[s2.len() as int] == s1[s2.len() as int]);
            assert(has_char(s1, ':'));
        } else {
            assert(s1 =~= x.take(s1.len() as int));
            assert(s2 =~= y.take(s2.len() as int));
            assert(a.teacher@ =~= x.skip(s1.len() as int + 1));
            assert(b.teacher@ =~= y.skip(s2.len() as int + 1));
        }
    }
}

proof fn lemma_first_occurrences(list: Seq<SubjectWithTeacher>, n: int, i: int)
    requires
        0 <= n,
    ensures
        first_occurrences(list, n).contains(i) <==> (0 <= i < n && !repeats_earlier(list, i)),
    decreases n,
{
    if n > 0 {
        lemma_first_occurrences(list, n - 1, i);
        let prev = first_occurrences(list, n - 1);
        let tail = if repeats_earlier(list, n - 1) {
            Seq::<int>::empty()
        } else {
            seq![n - 1]
        };
        let all = first_occurrences(list, n);
        assert(all == prev + tail);
        if all.contains(i) {
            let k = choose|k: int| 0 <= k < all.len() && all[k] == i;
            if k < prev.len() {
                assert(prev[k] == i);
                assert(prev.contains(i));
            } else {
                assert(tail[k - prev.len()] == i);
            }
        }
        if 0 <= i < n && !repeats_earlier(list, i) {
            if i < n - 1 {
                let k = choose|k: int| 0 <= k < prev.len() && prev[k] == i;
                assert(all[k] == i);
            } else {
                assert(all[prev.len() as int] == i);
            }
        }
    }
}

/// The page shows one card per subject and teacher: entry `i` is shown
/// exactly when no earlier entry has the same subject and teacher.
pub proof fn law_one_card_per_pair(list: Seq<SubjectWithTeacher>, i: int)
    requires
        forall|k: int| 0 <= k < list.len() ==> !has_char(#[trigger] list[k].subject_title@, ':'),
    ensures
        first_occurrences(list, list.len() as int).contains(i) <==> (0 <= i < list.len() && !exists|j: int|
            0 <= j < i && list[j].subject_title@ == list[i].subject_title@ && list[j].teacher@
                == list[i].teacher@),
{
    lemma_first_occurrences(list, list.len() as int, i);
    if 0 <= i < list.len() {
        assert forall|j: int| 0 <= j < i implies (dedup_key(list[j]) == dedup_key(list[i]) <==> (
        list[j].subject_title@ == list[i].subject_title@ && list[j].teacher@ == list[i].teacher@)) by {
            law_same_card_same_pair(list[j], list[i]);
        }
    }
}

} // verus!
