//! The item list of a window: items, their kinds, the order the list shows
//! them in, and new item ids.
use vstd::prelude::*;
use crate::text::{decimal, owned, push_decimal, push_zero_padded, zero_padded};

verus! {

/// One row of the list.
#[derive(Debug, Clone)]
pub struct Item {
    pub id: u32,
    pub name: String,
    pub count: i64,
    /// `YYYY-MM-DD`.
    pub date: String,
    /// Index into the kinds.
    pub kind: usize,
    pub done: bool,
    pub notes: String,
    pub rating: usize,
    /// `#RRGGBB`.
    pub color: String,
}

/// The localisation keys of the item kinds.
pub open spec fn kind_keys() -> Seq<Seq<char>> {
    seq!["item_kind_note"@, "item_kind_task"@, "item_kind_idea"@]
}

/// The ids of the items the list shows, as keys: the finished ones first
/// (unless hidden), then the rest, each group in list order.
pub open spec fn display_order(items: Seq<Item>, show_done: bool) -> Seq<u64> {
    (if show_done {
        items.filter(|x: Item| x.done == true)
    } else {
        Seq::empty()
    }).map_values(|it: Item| it.id as u64) + items.filter(|x: Item| x.done == false).map_values(
        |it: Item| it.id as u64,
    )
}

proof fn lemma_filter_push_item(s: Seq<Item>, it: Item, want: bool)
    ensures
        s.push(it).filter(|x: Item| x.done == want) == if it.done == want {
            s.filter(|x: Item| x.done == want).push(it)
        } else {
            s.filter(|x: Item| x.done == want)
        },
{
    reveal(Seq::filter);
    assert(s.push(it).drop_last() =~= s);
}

/// The keys of the items, in the order the list shows them.
pub fn ordered_keys(items: &Vec<Item>, show_done: bool) -> (keys: Vec<u64>)
    ensures
        keys@ == display_order(items@, show_done),
{
    let mut done: Vec<u64> = Vec::new();
    let mut open: Vec<u64> = Vec::new();
    let mut k: usize = 0;
    assert(items@.take(0) =~= Seq::<Item>::empty());
    while k < items.len()
        invariant
            k <= items@.len(),
            done@ == items@.take(k as int).filter(|x: Item| x.done == true).map_values(|it: Item| it.id as u64),
            open@ == items@.take(k as int).filter(|x: Item| x.done == false).map_values(|it: Item| it.id as u64),
        decreases items@.len() - k,
    {
        proof {
            assert(items@.take(k + 1) =~= items@.take(k as int).push(items@[k as int]));
            lemma_filter_push_item(items@.take(k as int), items@[k as int], true);
            lemma_filter_push_item(items@.take(k as int), items@[k as int], false);
        }
        if items[k].done {
            done.push(items[k].id as u64);
        } else {
            open.push(items[k].id as u64);
        }
        k = k + 1;
    }
    proof {
        assert(items@.take(items@.len() as int) =~= items@);
    }
    let mut keys: Vec<u64> = Vec::new();
    if show_done {
        keys.append(&mut done);
    }
    keys.append(&mut open);
    keys
}

/// The id of a new item: one more than the largest id (1 for an empty
/// list).
pub fn next_item_id(items: &Vec<Item>) -> (id: u32)
    requires
        forall|i: int| 0 <= i < items@.len() ==> items@[i].id < u32::MAX,
    ensures
        forall|i: int| 0 <= i < items@.len() ==> items@[i].id < id,
        items@.len() == 0 ==> id == 1,
        items@.len() > 0 ==> exists|i: int| 0 <= i < items@.len() && id == items@[i].id + 1,
{
    let mut max: u32 = 0;
    let mut k: usize = 0;
    while k < items.len()
        invariant
            k <= items@.len(),
            forall|i: int| 0 <= i < items@.len() ==> items@[i].id < u32::MAX,
            forall|i: int| 0 <= i < k ==> items@[i].id <= max,
            k == 0 ==> max == 0,
            k > 0 ==> exists|i: int| 0 <= i < k && max == items@[i].id,
        decreases items@.len() - k,
    {
        if k == 0 || items[k].id > max {
            max = items[k].id;
        }
        k = k + 1;
    }
    max + 1
}

/// The position in `items` of the item with key `key`.
pub fn position_of(items: &Vec<Item>, key: u64) -> (r: Option<usize>)
    ensures
        match r {
            Some(i) => i < items@.len() && items@[i as int].id as u64 == key && forall|j: int|
                0 <= j < i ==> items@[j].id as u64 != key,
            None => forall|j: int| 0 <= j < items@.len() ==> items@[j].id as u64 != key,
        },
{
    let mut k: usize = 0;
    while k < items.len()
        invariant
            k <= items@.len(),
            forall|j: int| 0 <= j < k ==> items@[j].id as u64 != key,
        decreases items@.len() - k,
    {
        if items[k].id as u64 == key {
            return Some(k);
        }
        k = k + 1;
    }
    None
}

/// Where a drag from display row `from` to display row `to` moves in the
/// list: the list positions of the two rows' items, when both rows exist.
pub fn move_positions(items: &Vec<Item>, show_done: bool, from: usize, to: usize) -> (r: Option<(usize, usize)>)
    ensures
        ({
            let shown = display_order(items@, show_done);
            match r {
                Some((i, j)) => from < shown.len() && to < shown.len() && i < items@.len() && j
                    < items@.len() && items@[i as int].id as u64 == shown[from as int]
                    && items@[j as int].id as u64 == shown[to as int] && (forall|x: int|
                    0 <= x < i ==> items@[x].id as u64 != shown[from as int]) && (forall|x: int|
                    0 <= x < j ==> items@[x].id as u64 != shown[to as int]),
                None => from >= shown.len() || to >= shown.len() || (forall|x: int|
                    0 <= x < items@.len() ==> items@[x].id as u64 != shown[from as int]) || (
                forall|x: int| 0 <= x < items@.len() ==> items@[x].id as u64 != shown[to as int]),
            }
        }),
{
    let shown = ordered_keys(items, show_done);
    if from >= shown.len() || to >= shown.len() {
        return None;
    }
    let a = shown[from];
    let b = shown[to];
    match (position_of(items, a), position_of(items, b)) {
        (Some(i), Some(j)) => Some((i, j)),
        _ => None,
    }
}

/// The localisation key of a kind, `Unknown` past the known kinds.
pub fn kind_name(kind: usize) -> (name: &'static str)
    ensures
        name@ == if kind < 3 {
            kind_keys()[kind as int]
        } else {
            "Unknown"@
        },
{
    if kind == 0 {
        "item_kind_note"
    } else if kind == 1 {
        "item_kind_task"
    } else if kind == 2 {
        "item_kind_idea"
    } else {
        "Unknown"
    }
}

/// The number of finished items among the first `n`.
pub open spec fn done_count(items: Seq<Item>, n: int) -> nat
    decreases n,
{
    if n <= 0 {
        0
    } else {
        done_count(items, n - 1) + if items[n - 1].done {
            1nat
        } else {
            0nat
        }
    }
}

/// Totals of a list: all items, the finished ones, the rest.
pub fn item_summary(items: &[Item]) -> (r: (usize, usize, usize))
    ensures
        r.0 == items@.len(),
        r.1 == done_count(items@, items@.len() as int),
        r.2 == items@.len() - done_count(items@, items@.len() as int),
{
    let total = items.len();
    let mut done: usize = 0;
    let mut k: usize = 0;
    while k < total
        invariant
            total == items@.len(),
            k <= total,
            done == done_count(items@, k as int),
            done <= k,
        decreases total - k,
    {
        if items[k].done {
            done = done + 1;
        }
        k = k + 1;
    }
    (total, done, total - done)
}

/// The name of the first item with id `id`; empty where there is none.
pub open spec fn name_of(items: Seq<Item>, id: u32) -> Seq<char>
    decreases items.len(),
{
    if items.len() == 0 {
        Seq::empty()
    } else if items[0].id == id {
        items[0].name@
    } else {
        name_of(items.drop_first(), id)
    }
}

proof fn lemma_name_of_first(items: Seq<Item>, id: u32, i: int)
    requires
        0 <= i <= items.len(),
        forall|j: int| 0 <= j < i ==> items[j].id != id,
    ensures
        name_of(items, id) == (if i < items.len() && items[i].id == id {
            items[i].name@
        } else {
            name_of(items.skip(i), id)
        }),
    decreases i,
{
    if i > 0 {
        lemma_name_of_first(items.drop_first(), id, i - 1);
        assert(items.drop_first().skip(i - 1) =~= items.skip(i));
    } else {
        assert(items.skip(0) =~= items);
    }
}

/// The title of the editor's bar: the selected item's name, or the section's
/// own title while nothing is selected or the name is empty.
pub fn detail_title(items: &Vec<Item>, selected: Option<u32>, section_title: &str) -> (title: String)
    ensures
        title@ == (match selected {
            Some(id) => if name_of(items@, id).len() > 0 {
                name_of(items@, id)
            } else {
                section_title@
            },
            None => section_title@,
        }),
{
    match selected {
        Some(id) => {
            let found = position_of(items, id as u64);
            proof {
                match found {
                    Some(i) => {
                        lemma_name_of_first(items@, id, i as int);
                    },
                    None => {
                        lemma_name_of_first(items@, id, items@.len() as int);
                        assert(items@.skip(items@.len() as int) =~= Seq::<Item>::empty());
                    },
                }
            }
            match found {
                Some(i) => {
                    if items[i].name.unicode_len() > 0 {
                        items[i].name.clone()
                    } else {
                        section_title.to_string()
                    }
                },
                None => section_title.to_string(),
            }
        },
        None => section_title.to_string(),
    }
}

// ── new items ────────────────────────────────────────────────────────────

/// A calendar day as `YYYY-MM-DD`.
pub open spec fn iso(year: u32, month: u32, day: u32) -> Seq<char> {
    zero_padded(year as nat, 4) + "-"@ + zero_padded(month as nat, 2) + "-"@ + zero_padded(
        day as nat,
        2,
    )
}

/// Writes a calendar day as `YYYY-MM-DD`.
pub fn iso_date(year: u32, month: u32, day: u32) -> (s: String)
    ensures
        s@ == iso(year, month, day),
{
    let mut s = String::new();
    push_zero_padded(&mut s, year as u64, 4);
    s.append("-");
    push_zero_padded(&mut s, month as u64, 2);
    s.append("-");
    push_zero_padded(&mut s, day as u64, 2);
    assert(s@ =~= iso(year, month, day));
    s
}

/// A new, empty item dated `date`, with an id above every id in `items`.
pub fn new_item(items: &Vec<Item>, date: String) -> (item: Item)
    requires
        forall|i: int| 0 <= i < items@.len() ==> items@[i].id < u32::MAX,
    ensures
        forall|i: int| 0 <= i < items@.len() ==> items@[i].id < item.id,
        items@.len() == 0 ==> item.id == 1,
        items@.len() > 0 ==> exists|i: int| 0 <= i < items@.len() && item.id == items@[i].id + 1,
        item.name@ == Seq::<char>::empty(),
        item.count == 1,
        item.date@ == date@,
        item.kind == 0,
        !item.done,
        item.notes@ == Seq::<char>::empty(),
        item.rating == 0,
        item.color@ == "#3B82F6"@,
{
    let id = next_item_id(items);
    Item {
        id,
        name: String::new(),
        count: 1,
        date,
        kind: 0,
        done: false,
        notes: String::new(),
        rating: 0,
        color: owned("#3B82F6"),
    }
}

/// The colours sample items cycle through.
pub open spec fn palette() -> Seq<Seq<char>> {
    seq!["#3B82F6"@, "#10B981"@, "#F59E0B"@, "#EF4444"@, "#8B5CF6"@]
}

fn palette_color(k: u32) -> (c: &'static str)
    requires
        k < 5,
    ensures
        c@ == palette()[k as int],
{
    if k == 0 {
        "#3B82F6"
    } else if k == 1 {
        "#10B981"
    } else if k == 2 {
        "#F59E0B"
    } else if k == 3 {
        "#EF4444"
    } else {
        "#8B5CF6"
    }
}

/// Sample item `n` of the first-launch list, dated `date`.
pub fn seed_item(n: u32, date: String) -> (item: Item)
    ensures
        item.id == n,
        item.name@ == "Item "@ + decimal(n as nat),
        item.count == (n % 9) + 1,
        item.date@ == date@,
        item.kind == n % 3,
        item.done == (n % 4 == 0),
        item.notes@ == Seq::<char>::empty(),
        item.rating == n % 6,
        item.color@ == palette()[(n % 5) as int],
{
    let mut name = owned("Item ");
    push_decimal(&mut name, n as u64);
    Item {
        id: n,
        name,
        count: (n % 9) as i64 + 1,
        date,
        kind: (n % 3) as usize,
        done: n % 4 == 0,
        notes: String::new(),
        rating: (n % 6) as usize,
        color: owned(palette_color(n % 5)),
    }
}

/// Whether finished items are listed, from the saved preference: yes unless
/// it is `0`, and yes when nothing is saved.
pub fn show_done_pref(saved: Option<&str>) -> (show: bool)
    ensures
        show == match saved {
            Some(v) => v@ != "0"@,
            None => true,
        },
{
    match saved {
        Some(v) => {
            let a = owned(v);
            let z = owned("0");
            !(a == z)
        },
        None => true,
    }
}

// ── editing the list ─────────────────────────────────────────────────────

/// Removes the item with id `id` (the first, if several carry it).
pub fn remove_item(items: &mut Vec<Item>, id: u32)
    ensures
        match position_first(old(items)@, id) {
            Some(i) => final(items)@ == old(items)@.remove(i),
            None => final(items)@ == old(items)@,
        },
{
    match position_of(items, id as u64) {
        Some(i) => {
            proof {
                lemma_position_first(old(items)@, id, i as int);
            }
            items.remove(i);
        },
        None => {
            proof {
                lemma_position_none(old(items)@, id);
            }
        },
    }
}

/// `it` with its finished flag flipped.
pub open spec fn flipped(it: Item) -> Item {
    Item {
        id: it.id,
        name: it.name,
        count: it.count,
        date: it.date,
        kind: it.kind,
        done: !it.done,
        notes: it.notes,
        rating: it.rating,
        color: it.color,
    }
}

/// `items` with the first item of id `id` flipped (unchanged without one).
pub open spec fn toggled(items: Seq<Item>, id: u32) -> Seq<Item> {
    match position_first(items, id) {
        Some(i) => items.update(i, flipped(items[i])),
        None => items,
    }
}

/// Flips whether the item with id `id` is finished (the first, if several
/// carry it).
pub fn toggle_done(items: &mut Vec<Item>, id: u32)
    ensures
        final(items)@ == toggled(old(items)@, id),
{
    match position_of(items, id as u64) {
        Some(i) => {
            proof {
                lemma_position_first(old(items)@, id, i as int);
            }
            let mut it = items.remove(i);
            it.done = !it.done;
            items.insert(i, it);
        },
        None => {
            proof {
                lemma_position_none(old(items)@, id);
            }
        },
    }
}

/// The position of the first item with id `id`.
pub open spec fn position_first(items: Seq<Item>, id: u32) -> Option<int>
    decreases items.len(),
{
    if items.len() == 0 {
        None
    } else if items.last().id == id && position_first(items.drop_last(), id) is None {
        Some(items.len() - 1)
    } else {
        position_first(items.drop_last(), id)
    }
}

proof fn lemma_position_first(items: Seq<Item>, id: u32, i: int)
    requires
        0 <= i < items.len(),
        items[i].id == id,
        forall|j: int| 0 <= j < i ==> items[j].id != id,
    ensures
        position_first(items, id) == Some(i),
    decreases items.len(),
{
    if i < items.len() - 1 {
        lemma_position_first(items.drop_last(), id, i);
    } else {
        lemma_position_none(items.drop_last(), id);
    }
}

proof fn lemma_position_none(items: Seq<Item>, id: u32)
    requires
        forall|j: int| 0 <= j < items.len() ==> items[j].id != id,
    ensures
        position_first(items, id) is None,
    decreases items.len(),
{
    if items.len() > 0 {
        lemma_position_none(items.drop_last(), id);
    }
}

proof fn lemma_position_first_found(items: Seq<Item>, id: u32)
    ensures
        position_first(items, id) matches Some(i) ==> 0 <= i < items.len() && items[i].id == id
            && forall|j: int| 0 <= j < i ==> items[j].id != id,
        position_first(items, id) is None ==> forall|j: int| 0 <= j < items.len() ==> items[j].id != id,
    decreases items.len(),
{
    if items.len() > 0 {
        let d = items.drop_last();
        lemma_position_first_found(d, id);
        if items.last().id == id && position_first(d, id) is None {
            assert forall|j: int| 0 <= j < items.len() - 1 implies items[j].id != id by {
                assert(items[j] == d[j]);
            }
        } else {
            match position_first(d, id) {
                Some(i) => {
                    assert(items[i] == d[i]);
                    assert forall|j: int| 0 <= j < i implies items[j].id != id by {
                        assert(items[j] == d[j]);
                    }
                },
                None => {
                    assert forall|j: int| 0 <= j < items.len() implies items[j].id != id by {
                        if j < items.len() - 1 {
                            assert(items[j] == d[j]);
                        }
                    }
                },
            }
        }
    }
}

/// Finishing an item twice leaves the list as it was.
pub proof fn law_toggle_twice_restores(items: Seq<Item>, id: u32)
    ensures
        toggled(toggled(items, id), id) == items,
{
    lemma_position_first_found(items, id);
    match position_first(items, id) {
        Some(i) => {
            let once = items.update(i, flipped(items[i]));
            assert forall|j: int| 0 <= j < i implies once[j].id != id by {
                assert(once[j] == items[j]);
            }
            lemma_position_first(once, id, i);
            assert(flipped(flipped(items[i])) == items[i]);
            assert(once.update(i, flipped(once[i])) =~= items);
        },
        None => {},
    }
}

/// `items` with the element at position `i` moved to position `j`.
pub open spec fn moved_item(items: Seq<Item>, i: int, j: int) -> Seq<Item> {
    items.remove(i).insert(j, items[i])
}

/// Moves display row `from` to display row `to`: the item shown at `from`
/// is moved in the list to the position of the item shown at `to`; nothing
/// else changes. The list is left as it is when either row does not exist.
pub fn move_row(items: &mut Vec<Item>, show_done: bool, from: usize, to: usize)
    ensures
        ({
            let shown = display_order(old(items)@, show_done);
            let found = from < shown.len() && to < shown.len() && (exists|x: int|
                0 <= x < old(items)@.len() && old(items)@[x].id as u64 == shown[from as int]) && (
            exists|x: int| 0 <= x < old(items)@.len() && old(items)@[x].id as u64 == shown[to as int]);
            &&& found ==> exists|i: int, j: int| {
                &&& 0 <= i < old(items)@.len() && 0 <= j < old(items)@.len()
                &&& old(items)@[i].id as u64 == shown[from as int]
                &&& forall|x: int| 0 <= x < i ==> old(items)@[x].id as u64 != shown[from as int]
                &&& old(items)@[j].id as u64 == shown[to as int]
                &&& forall|x: int| 0 <= x < j ==> old(items)@[x].id as u64 != shown[to as int]
                &&& final(items)@ == moved_item(old(items)@, i, j)
            }
            &&& !found ==> final(items)@ == old(items)@
        }),
{
    match move_positions(items, show_done, from, to) {
        Some((i, j)) => {
            let ghost before = items@;
            let it = items.remove(i);
            items.insert(j, it);
            assert(items@ == moved_item(before, i as int, j as int));
        },
        None => {},
    }
}

// ── the editor ───────────────────────────────────────────────────────────

/// Which item the editor shows, whether it is open, and which display row
/// the list should scroll to.
#[derive(Debug, Clone, Copy, PartialEq, Eq, Structural)]
pub struct Editor {
    pub selected: Option<u32>,
    pub detail_open: bool,
    pub scroll_to: Option<usize>,
}

proof fn lemma_shown_ids_below(items: Seq<Item>, show_done: bool, bound: u32)
    requires
        forall|i: int| 0 <= i < items.len() ==> items[i].id < bound,
    ensures
        forall|j: int| 0 <= j < display_order(items, show_done).len() ==> #[trigger] display_order(items, show_done)[j] < bound,
{
    let a = if show_done {
        items.filter(|x: Item| x.done == true)
    } else {
        Seq::<Item>::empty()
    };
    let b = items.filter(|x: Item| x.done == false);
    let d = display_order(items, show_done);
    assert(d == a.map_values(|it: Item| it.id as u64) + b.map_values(|it: Item| it.id as u64));
    assert forall|j: int| 0 <= j < d.len() implies #[trigger] d[j] < bound by {
        let la = a.len() as int;
        if j < la {
            assert(d[j] == a[j].id as u64);
            assert(a.contains(a[j]));
            if show_done {
                items.lemma_filter_contains_rev(|x: Item| x.done == true, a[j]);
            }
        } else {
            assert(d[j] == b[j - la].id as u64);
            assert(b.contains(b[j - la]));
            items.lemma_filter_contains_rev(|x: Item| x.done == false, b[j - la]);
        }
    }
}

/// Creates an item and opens it: the new item (as `new_item` makes it) is
/// appended, becomes the selected one with the editor open, and the list
/// scrolls to its display row, the last one (an unfinished item shows after
/// every other).
pub fn add_item(items: &mut Vec<Item>, show_done: bool, date: String) -> (opened: Editor)
    requires
        forall|i: int| 0 <= i < old(items)@.len() ==> old(items)@[i].id < u32::MAX,
    ensures
        final(items)@.len() == old(items)@.len() + 1,
        final(items)@.drop_last() == old(items)@,
        ({
            let it = final(items)@.last();
            &&& forall|i: int| 0 <= i < old(items)@.len() ==> old(items)@[i].id < it.id
            &&& old(items)@.len() == 0 ==> it.id == 1
            &&& old(items)@.len() > 0 ==> exists|i: int| 0 <= i < old(items)@.len() && it.id == old(items)@[i].id + 1
            &&& it.name@ == Seq::<char>::empty() && it.count == 1 && it.date@ == date@ && it.kind == 0
            &&& !it.done && it.notes@ == Seq::<char>::empty() && it.rating == 0 && it.color@ == "#3B82F6"@
            &&& opened.selected == Some(it.id)
            &&& opened.detail_open
            &&& opened.scroll_to matches Some(p) && {
                let shown = display_order(final(items)@, show_done);
                &&& p == shown.len() - 1
                &&& shown[p as int] == it.id as u64
                &&& forall|j: int| 0 <= j < p ==> shown[j] != it.id as u64
            }
        }),
{
    let it = new_item(items, date);
    let id = it.id;
    let ghost before = items@;
    proof {
        lemma_filter_push_item(before, it, true);
        lemma_filter_push_item(before, it, false);
        lemma_shown_ids_below(before, show_done, id);
    }
    items.push(it);
    assert(items@.drop_last() =~= before);
    let keys = ordered_keys(items, show_done);
    proof {
        assert(display_order(items@, show_done) =~= display_order(before, show_done).push(id as u64));
    }
    let p = keys.len() - 1;
    Editor { selected: Some(id), detail_open: true, scroll_to: Some(p) }
}

} // verus!
