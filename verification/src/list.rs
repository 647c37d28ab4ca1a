//! The operations on one list of items and its cursor.
//!
//! A cursor is an `i32`. It points at an item while it lies in `0..len`.
//! Taking an item out can leave it at `-1` or at `len`; every operation
//! accepts such a cursor, and the next step of navigation brings it back.

use vstd::prelude::*;

verus! {

/// The cursor one step up: never above the first item.
pub open spec fn cursor_up(cursor: int) -> int {
    if cursor - 1 >= 0 {
        cursor - 1
    } else {
        0
    }
}

/// The cursor one step down: never below the last of `len` items.
pub open spec fn cursor_down(cursor: int, len: int) -> int {
    if cursor + 1 <= len - 1 {
        cursor + 1
    } else {
        len - 1
    }
}

/// Whether the cursor points at one of `len` items.
pub open spec fn on_item(cursor: int, len: int) -> bool {
    0 <= cursor < len
}

/// The list with the items at `i` and `j` exchanged.
pub open spec fn swapped<A>(list: Seq<A>, i: int, j: int) -> Seq<A> {
    list.update(i, list[j]).update(j, list[i])
}

/// List and cursor after the item at the cursor was dragged one place up.
/// Nothing changes where the cursor is on the first item or on none.
pub open spec fn dragged_up<A>(list: Seq<A>, cursor: int) -> (Seq<A>, int) {
    if 0 < cursor < list.len() {
        (swapped(list, cursor - 1, cursor), cursor - 1)
    } else {
        (list, cursor)
    }
}

/// List and cursor after the item at the cursor was dragged one place
/// down. Nothing changes where the cursor is on the last item or on none.
pub open spec fn dragged_down<A>(list: Seq<A>, cursor: int) -> (Seq<A>, int) {
    if 0 <= cursor && cursor + 1 < list.len() {
        (swapped(list, cursor, cursor + 1), cursor + 1)
    } else {
        (list, cursor)
    }
}

/// Destination, source and the source's cursor after the item at the cursor
/// was moved to the end of the destination. The cursor steps back by one.
/// Nothing changes where the cursor is on no item.
pub open spec fn transferred<A>(dest: Seq<A>, src: Seq<A>, cursor: int) -> (Seq<A>, Seq<A>, int) {
    if on_item(cursor, src.len() as int) {
        (dest.push(src[cursor]), src.remove(cursor), cursor - 1)
    } else {
        (dest, src, cursor)
    }
}

/// Where a new item goes: right behind the cursor, and at the nearest end
/// of the list where that is no place in it.
pub open spec fn insert_index(cursor: int, len: int) -> int {
    if cursor + 1 < 0 {
        0
    } else if cursor + 1 > len {
        len
    } else {
        cursor + 1
    }
}

/// List and cursor after an empty item was put in behind the cursor. The
/// cursor ends on the new item.
pub open spec fn inserted(list: Seq<Seq<char>>, cursor: int) -> (Seq<Seq<char>>, int) {
    let at = insert_index(cursor, list.len() as int);
    (list.insert(at, Seq::<char>::empty()), at)
}

/// The list after the item at the cursor was deleted. Nothing changes where
/// the cursor is on no item.
pub open spec fn deleted<A>(list: Seq<A>, cursor: int) -> Seq<A> {
    if on_item(cursor, list.len() as int) {
        list.remove(cursor)
    } else {
        list
    }
}

/// One step of navigation.
pub enum Step {
    Up,
    Down,
}

/// The cursor after one step of navigation in a list of `len` items.
pub open spec fn stepped(cursor: int, len: int, step: Step) -> int {
    match step {
        Step::Up => cursor_up(cursor),
        Step::Down => cursor_down(cursor, len),
    }
}

/// The cursor after the steps `steps`, taken in order.
pub open spec fn navigated(cursor: int, len: int, steps: Seq<Step>) -> int
    decreases steps.len(),
{
    if steps.len() == 0 {
        cursor
    } else {
        stepped(navigated(cursor, len, steps.drop_last()), len, steps.last())
    }
}

/// In a list that has items, a step from a cursor that is on an item, or
/// that a removal left one place off either end, ends on an item. A step
/// up from the first item and a step down from the last one change
/// nothing.
pub proof fn lemma_step_stays_on_items(cursor: int, len: int, step: Step)
    requires
        len > 0,
        -1 <= cursor <= len,
    ensures
        on_item(stepped(cursor, len, step), len),
        stepped(0, len, Step::Up) == 0,
        stepped(len - 1, len, Step::Down) == len - 1,
{
}

/// In a list that has items, whatever steps of navigation are taken, the
/// cursor is on an item after each of them. That holds from a cursor that
/// is on an item, and from one that a removal left one place off either
/// end.
pub proof fn lemma_navigation_stays_on_items(cursor: int, len: int, steps: Seq<Step>)
    requires
        len > 0,
        -1 <= cursor <= len,
    ensures
        forall|k: int|
            0 <= k <= steps.len() && (k > 0 || on_item(cursor, len)) ==> on_item(
                navigated(cursor, len, #[trigger] steps.take(k)),
                len,
            ),
        -1 <= navigated(cursor, len, steps) <= len,
    decreases steps.len(),
{
    assert(steps.take(steps.len() as int) =~= steps);
    if steps.len() > 0 {
        let front = steps.drop_last();
        lemma_navigation_stays_on_items(cursor, len, front);
        lemma_step_stays_on_items(navigated(cursor, len, front), len, steps.last());
        assert forall|k: int|
            0 <= k <= steps.len() && (k > 0 || on_item(cursor, len)) implies on_item(
            navigated(cursor, len, #[trigger] steps.take(k)),
            len,
        ) by {
            if k < steps.len() {
                assert(steps.take(k) =~= front.take(k));
            }
        }
    }
}

/// Dragging up from a cursor `c > 0` that is on an item exchanges the items
/// at `c - 1` and `c` and leaves the cursor at `c - 1`; dragging down right
/// after gives back the list and the cursor as they were.
pub proof fn lemma_drag_up_then_down_restores<A>(list: Seq<A>, cursor: int)
    requires
        0 < cursor < list.len(),
    ensures
        dragged_up(list, cursor) == (swapped(list, cursor - 1, cursor), cursor - 1),
        dragged_up(list, cursor).0[cursor - 1] == list[cursor],
        dragged_up(list, cursor).0[cursor] == list[cursor - 1],
        dragged_down(dragged_up(list, cursor).0, dragged_up(list, cursor).1) == (list, cursor),
{
}

/// An item moved from list `a` to the end of list `b`, and moved back from
/// there, is the last item of `a`: `a` has its length again and holds the
/// same items, the moved one with its text unchanged but at the end, and
/// `b` is as it was.
pub proof fn lemma_transfer_there_and_back<A>(a: Seq<A>, b: Seq<A>, cursor: int)
    requires
        on_item(cursor, a.len() as int),
    ensures
        ({
            let (b1, a1, _) = transferred(b, a, cursor);
            let (a2, b2, back) = transferred(a1, b1, b1.len() - 1);
            &&& b1.last() == a[cursor]
            &&& a2.len() == a.len()
            &&& a2 == a.remove(cursor).push(a[cursor])
            &&& a2.last() == a[cursor]
            &&& b2 == b
            &&& back == b.len() - 1
        }),
{
}

/// Moves the cursor one item up.
pub fn list_up(_list: &[String], list_curr: &mut i32)
    ensures
        *final(list_curr) == cursor_up(*old(list_curr) as int),
{
    if *list_curr > 0 {
        *list_curr -= 1;
    } else {
        *list_curr = 0;
    }
}

/// Moves the cursor one item down.
pub fn list_down(list: &[String], list_curr: &mut i32)
    requires
        cursor_down(*old(list_curr) as int, list@.len() as int) <= i32::MAX,
    ensures
        *final(list_curr) == cursor_down(*old(list_curr) as int, list@.len() as int),
{
    let n = list.len();
    if *list_curr < 0 {
        if n > 0 || *list_curr < -1 {
            *list_curr += 1;
        }
    } else if (*list_curr as usize) + 1 < n {
        *list_curr += 1;
    } else if n == 0 {
        *list_curr = -1;
    } else {
        *list_curr = (n - 1) as i32;
    }
}

/// Exchanges the item at the cursor with the one above it, and follows it
/// with the cursor.
pub fn list_drag_up(list: &mut Vec<String>, list_curr: &mut i32)
    ensures
        (final(list).deep_view(), *final(list_curr) as int) == dragged_up(
            old(list).deep_view(),
            *old(list_curr) as int,
        ),
{
    if *list_curr > 0 && (*list_curr as usize) < list.len() {
        let at = *list_curr as usize;
        let item = list.remove(at);
        list.insert(at - 1, item);
        *list_curr -= 1;
    }
}

/// Exchanges the item at the cursor with the one below it, and follows it
/// with the cursor.
pub fn list_drag_down(list: &mut Vec<String>, list_curr: &mut i32)
    requires
        dragged_down(old(list).deep_view(), *old(list_curr) as int).1 <= i32::MAX,
    ensures
        (final(list).deep_view(), *final(list_curr) as int) == dragged_down(
            old(list).deep_view(),
            *old(list_curr) as int,
        ),
{
    if *list_curr >= 0 && (*list_curr as usize) + 1 < list.len() {
        let at = *list_curr as usize;
        let item = list.remove(at);
        list.insert(at + 1, item);
        *list_curr += 1;
    }
}

/// Moves the item at the cursor of `list_src` to the end of `list_dest`.
pub fn list_transfer(
    list_dest: &mut Vec<String>,
    list_src: &mut Vec<String>,
    list_src_curr: &mut i32,
)
    ensures
        (final(list_dest).deep_view(), final(list_src).deep_view(), *final(list_src_curr) as int)
            == transferred(
            old(list_dest).deep_view(),
            old(list_src).deep_view(),
            *old(list_src_curr) as int,
        ),
{
    if *list_src_curr >= 0 && (*list_src_curr as usize) < list_src.len() {
        let at = *list_src_curr as usize;
        list_dest.push(list_src.remove(at));
        *list_src_curr -= 1;
    }
}

/// Puts an empty item in behind the cursor and moves the cursor onto it.
pub fn list_insert(list: &mut Vec<String>, list_curr: &mut i32)
    requires
        insert_index(*old(list_curr) as int, old(list)@.len() as int) <= i32::MAX,
    ensures
        (final(list).deep_view(), *final(list_curr) as int) == inserted(
            old(list).deep_view(),
            *old(list_curr) as int,
        ),
{
    let n = list.len();
    let at: usize = if *list_curr < 0 {
        0
    } else if (*list_curr as usize) >= n {
        n
    } else {
        *list_curr as usize + 1
    };
    list.insert(at, String::new());
    *list_curr = at as i32;
}

/// Deletes the item at the cursor. The cursor stays where it is.
pub fn list_delete(list: &mut Vec<String>, list_curr: i32)
    ensures
        final(list).deep_view() == deleted(old(list).deep_view(), list_curr as int),
{
    if list_curr >= 0 && (list_curr as usize) < list.len() {
        list.remove(list_curr as usize);
    }
}

} // verus!
