//! New-mark detection: which of the marks now in the diary were not there at
//! the last check, and the notice that announces them.
use vstd::prelude::*;
use crate::pages::diary::texts;
use crate::text::{decimal, push_decimal, same_text};

verus! {

/// How many of the `current` mark ids are not among the `stored` ones
/// (each occurrence counted).
pub open spec fn unseen_count(current: Seq<Seq<char>>, stored: Seq<Seq<char>>) -> nat
    decreases current.len(),
{
    if current.len() == 0 {
        0
    } else {
        unseen_count(current.drop_last(), stored) + if stored.contains(current.last()) {
            0nat
        } else {
            1nat
        }
    }
}

fn is_stored(id: &String, stored: &Vec<String>) -> (r: bool)
    ensures
        r == texts(stored@).contains(id@),
{
    let mut i: usize = 0;
    while i < stored.len()
        invariant
            i <= stored@.len(),
            forall|j: int| 0 <= j < i ==> texts(stored@)[j] != id@,
        decreases stored@.len() - i,
    {
        if same_text(stored[i].as_str(), id.as_str()) {
            assert(texts(stored@)[i as int] == id@);
            return true;
        }
        i = i + 1;
    }
    false
}

/// The number of marks in `current` whose ids were not `stored` at the last
/// check.
pub fn count_new_marks(current: &Vec<String>, stored: &Vec<String>) -> (n: usize)
    ensures
        n == unseen_count(texts(current@), texts(stored@)),
        n == texts(current@).filter(|x: Seq<char>| !texts(stored@).contains(x)).len(),
{
    proof {
        law_new_marks_are_the_unstored(texts(current@), texts(stored@));
    }
    let mut n: usize = 0;
    let mut k: usize = 0;
    assert(texts(current@.take(0)) =~= Seq::<Seq<char>>::empty());
    while k < current.len()
        invariant
            k <= current@.len(),
            n <= k,
            n == unseen_count(texts(current@.take(k as int)), texts(stored@)),
        decreases current@.len() - k,
    {
        proof {
            assert(texts(current@.take(k + 1)).drop_last() =~= texts(current@.take(k as int)));
            assert(texts(current@.take(k + 1)).last() == current@[k as int]@);
        }
        if !is_stored(&current[k], stored) {
            n = n + 1;
        }
        k = k + 1;
    }
    assert(current@.take(k as int) =~= current@);
    n
}

/// The text of the notice for `count` new marks.
pub open spec fn notice_text(count: nat) -> Seq<char> {
    "Новых оценок: "@ + decimal(count)
}

/// The notice a check sends: none where no mark is new, else the number of
/// new marks.
pub fn check_new_grades(current: &Vec<String>, stored: &Vec<String>) -> (notice: Option<String>)
    ensures
        unseen_count(texts(current@), texts(stored@)) == 0 ==> notice.is_none(),
        unseen_count(texts(current@), texts(stored@)) > 0 ==> notice.is_some() && notice.unwrap()@
            == notice_text(unseen_count(texts(current@), texts(stored@))),
{
    let n = count_new_marks(current, stored);
    if n == 0 {
        None
    } else {
        let mut s = String::new();
        s.append("Новых оценок: ");
        push_decimal(&mut s, n as u64);
        Some(s)
    }
}

proof fn lemma_unseen_none(current: Seq<Seq<char>>, stored: Seq<Seq<char>>)
    requires
        forall|i: int| 0 <= i < current.len() ==> stored.contains(#[trigger] current[i]),
    ensures
        unseen_count(current, stored) == 0,
    decreases current.len(),
{
    if current.len() > 0 {
        let rest = current.drop_last();
        assert forall|i: int| 0 <= i < rest.len() implies stored.contains(#[trigger] rest[i]) by {
            assert(rest[i] == current[i]);
        }
        lemma_unseen_none(rest, stored);
        assert(stored.contains(current[current.len() - 1]));
    }
}

/// Once a check has stored the ids of the marks it saw, a check that sees
/// the same marks finds none of them new.
pub proof fn law_stored_marks_are_not_new(current: Seq<Seq<char>>)
    ensures
        unseen_count(current, current) == 0,
{
    assert forall|i: int| 0 <= i < current.len() implies current.contains(#[trigger] current[i]) by {
    }
    lemma_unseen_none(current, current);
}

/// The number of new marks is the number of current ids that were not
/// stored: one for each such position of `current`, repeats included; with
/// nothing stored, every current mark is new.
pub proof fn law_new_marks_are_the_unstored(current: Seq<Seq<char>>, stored: Seq<Seq<char>>)
    ensures
        unseen_count(current, stored) == current.filter(|x: Seq<char>| !stored.contains(x)).len(),
        unseen_count(current, Seq::empty()) == current.len(),
    decreases current.len(),
{
    reveal(Seq::filter);
    if current.len() > 0 {
        law_new_marks_are_the_unstored(current.drop_last(), stored);
        assert(!Seq::<Seq<char>>::empty().contains(current.last()));
    } else {
        assert(current.filter(|x: Seq<char>| !stored.contains(x)) =~= Seq::<Seq<char>>::empty());
    }
}

} // verus!
