//! Rows in the order of their time stamps, newest first, and pages of them.

use vstd::prelude::*;
use vstd::seq_lib::to_multiset_insert;

use crate::server::chat::{MessageInfo, ThreadInfo};
use crate::server::clock::Timestamp;

verus! {

/// A row that carries the time by which it is ordered.
pub trait Stamped {
    /// The time by which the row is ordered.
    spec fn stamp_spec(&self) -> Timestamp;

    /// The time by which the row is ordered.
    fn stamp(&self) -> (t: Timestamp)
        ensures
            t == self.stamp_spec(),
    ;
}

impl Stamped for ThreadInfo {
    /// A thread is ordered by its last activity.
    open spec fn stamp_spec(&self) -> Timestamp {
        self.updated_at
    }

    fn stamp(&self) -> (t: Timestamp) {
        self.updated_at
    }
}

impl Stamped for MessageInfo {
    /// A message is ordered by the time it was sent.
    open spec fn stamp_spec(&self) -> Timestamp {
        self.sent_at
    }

    fn stamp(&self) -> (t: Timestamp) {
        self.sent_at
    }
}

/// Whether each row is at least as new as every row behind it.
pub open spec fn is_newest_first<T: Stamped>(rows: Seq<T>) -> bool {
    forall|i: int, j: int|
        0 <= i < j < rows.len() ==> (#[trigger] rows[i]).stamp_spec() >= (
        #[trigger] rows[j]).stamp_spec()
}

/// The place of a row of time `t` among rows that are newest first: before
/// the first row that is not newer than it.
pub open spec fn slot_for<T: Stamped>(rows: Seq<T>, t: Timestamp) -> int
    decreases rows.len(),
{
    if rows.len() == 0 {
        0
    } else if rows[0].stamp_spec() <= t {
        0
    } else {
        1 + slot_for(rows.drop_first(), t)
    }
}

/// The rows with `row` put in its place.
pub open spec fn placed<T: Stamped>(rows: Seq<T>, row: T) -> Seq<T> {
    rows.insert(slot_for(rows, row.stamp_spec()), row)
}

/// The rows newest first. Of two rows of the same time the one that stood
/// later in `rows` comes first.
pub open spec fn newest_first<T: Stamped>(rows: Seq<T>) -> Seq<T>
    decreases rows.len(),
{
    if rows.len() == 0 {
        Seq::empty()
    } else {
        placed(newest_first(rows.drop_last()), rows.last())
    }
}

/// The place of a row lies within the rows; every row before it is newer,
/// and the row at it, if there is one, is not.
pub proof fn slot_for_bounds<T: Stamped>(rows: Seq<T>, t: Timestamp)
    ensures
        0 <= slot_for(rows, t) <= rows.len(),
        forall|i: int| 0 <= i < slot_for(rows, t) ==> (#[trigger] rows[i]).stamp_spec() > t,
        slot_for(rows, t) < rows.len() ==> rows[slot_for(rows, t)].stamp_spec() <= t,
    decreases rows.len(),
{
    if rows.len() > 0 && rows[0].stamp_spec() > t {
        let rest = rows.drop_first();
        slot_for_bounds(rest, t);
        assert forall|i: int| 0 <= i < slot_for(rows, t) implies (#[trigger] rows[i]).stamp_spec()
            > t by {
            if i > 0 {
                assert(rows[i] == rest[i - 1]);
            }
        }
        if slot_for(rows, t) < rows.len() {
            assert(rows[slot_for(rows, t)] == rest[slot_for(rest, t)]);
        }
    }
}

/// Putting a row in its place keeps the rows newest first, adds exactly
/// that row, and changes nothing else.
pub proof fn placed_keeps_order<T: Stamped>(rows: Seq<T>, row: T)
    requires
        is_newest_first(rows),
    ensures
        is_newest_first(placed(rows, row)),
        placed(rows, row).len() == rows.len() + 1,
        placed(rows, row).to_multiset() == rows.to_multiset().insert(row),
{
    let t = row.stamp_spec();
    let at = slot_for(rows, t);
    slot_for_bounds(rows, t);
    let out = placed(rows, row);
    to_multiset_insert(rows, at, row);
    assert forall|i: int, j: int| 0 <= i < j < out.len() implies (#[trigger] out[i]).stamp_spec()
        >= (#[trigger] out[j]).stamp_spec() by {
        if j < at {
            assert(out[i] == rows[i] && out[j] == rows[j]);
        } else if j == at {
            assert(out[i] == rows[i]);
        } else if i < at {
            assert(out[i] == rows[i] && out[j] == rows[j - 1]);
        } else if i == at {
            assert(out[j] == rows[j - 1]);
            assert(rows[at].stamp_spec() <= t);
            if j - 1 > at {
                assert(rows[at].stamp_spec() >= rows[j - 1].stamp_spec());
            }
        } else {
            assert(out[i] == rows[i - 1] && out[j] == rows[j - 1]);
        }
    }
}

/// The ordered rows are newest first and hold the same rows as before, each
/// as often as before.
pub proof fn newest_first_is_ordered<T: Stamped>(rows: Seq<T>)
    ensures
        is_newest_first(newest_first(rows)),
        newest_first(rows).len() == rows.len(),
        newest_first(rows).to_multiset() == rows.to_multiset(),
    decreases rows.len(),
{
    broadcast use vstd::seq_lib::group_to_multiset_ensures;

    if rows.len() > 0 {
        let front = rows.drop_last();
        newest_first_is_ordered(front);
        placed_keeps_order(newest_first(front), rows.last());
        assert(rows == front.push(rows.last()));
    }
}

/// The place of a row of time `t` among `rows`.
fn find_slot<T: Stamped>(rows: &Vec<T>, t: Timestamp) -> (at: usize)
    ensures
        at == slot_for(rows@, t),
        at <= rows@.len(),
{
    let mut at: usize = 0;
    proof {
        assert(rows@.skip(0) == rows@);
    }
    while at < rows.len() && rows[at].stamp() > t
        invariant
            at <= rows.len(),
            slot_for(rows@, t) == at + slot_for(rows@.skip(at as int), t),
        decreases rows.len() - at,
    {
        proof {
            let tail = rows@.skip(at as int);
            assert(tail[0] == rows@[at as int]);
            assert(tail.drop_first() == rows@.skip(at + 1));
        }
        at += 1;
    }
    proof {
        let tail = rows@.skip(at as int);
        if at < rows.len() {
            assert(tail[0] == rows@[at as int]);
        }
    }
    at
}

/// Orders rows newest first.
pub fn sort_newest_first<T: Stamped>(rows: Vec<T>) -> (sorted: Vec<T>)
    ensures
        sorted@ == newest_first(rows@),
        is_newest_first(sorted@),
        sorted@.len() == rows@.len(),
        sorted@.to_multiset() == rows@.to_multiset(),
{
    let ghost all = rows@;
    let mut sorted: Vec<T> = Vec::new();
    for row in it: rows
        invariant
            it.seq() == all,
            sorted@ == newest_first(all.take(it.index() as int)),
    {
        proof {
            let i = it.index() as int;
            assert(all.take(i + 1).drop_last() == all.take(i));
            assert(all.take(i + 1).last() == row);
        }
        let at = find_slot(&sorted, row.stamp());
        sorted.insert(at, row);
    }
    proof {
        assert(all.take(all.len() as int) == all);
        newest_first_is_ordered(all);
    }
    sorted
}

/// How many rows a page skips: `offset`, or all of them where there are
/// fewer.
pub open spec fn skipped(len: nat, offset: int) -> int {
    if offset <= 0 {
        0
    } else if offset >= len {
        len as int
    } else {
        offset
    }
}

/// The page of `rows` that begins behind the first `offset` rows and holds
/// at most `limit` rows.
pub open spec fn page_of<T>(rows: Seq<T>, limit: int, offset: int) -> Seq<T> {
    let rest = rows.skip(skipped(rows.len(), offset));
    rest.take(skipped(rest.len(), limit))
}

/// A page is a stretch of the rows it is cut from: row `i` of the page is
/// row `offset + i` of the rows, so a page of ordered rows is ordered.
pub proof fn page_is_a_stretch<T>(rows: Seq<T>, limit: int, offset: int)
    requires
        0 <= offset,
        0 <= limit,
    ensures
        page_of(rows, limit, offset).len() <= limit,
        page_of(rows, limit, offset).len() + skipped(rows.len(), offset) <= rows.len(),
        forall|i: int|
            0 <= i < page_of(rows, limit, offset).len() ==> #[trigger] page_of(rows, limit, offset)[i]
                == rows[offset + i],
{
}

/// A page of rows that are newest first is newest first.
pub proof fn page_keeps_order<T: Stamped>(rows: Seq<T>, limit: int, offset: int)
    requires
        is_newest_first(rows),
        0 <= offset,
        0 <= limit,
    ensures
        is_newest_first(page_of(rows, limit, offset)),
{
    page_is_a_stretch(rows, limit, offset);
    let page = page_of(rows, limit, offset);
    assert forall|i: int, j: int| 0 <= i < j < page.len() implies (#[trigger] page[i]).stamp_spec()
        >= (#[trigger] page[j]).stamp_spec() by {
        assert(page[i] == rows[offset + i]);
        assert(page[j] == rows[offset + j]);
    }
}

/// Cuts the page out of `rows`.
pub fn take_page<T>(rows: Vec<T>, limit: usize, offset: usize) -> (page: Vec<T>)
    ensures
        page@ == page_of(rows@, limit as int, offset as int),
{
    let ghost all = rows@;
    let total = rows.len();
    let mut page: Vec<T> = Vec::new();
    let mut index: usize = 0;
    for row in it: rows
        invariant
            it.seq() == all,
            all.len() == total,
            index == it.index(),
            page@ == page_of(all.take(index as int), limit as int, offset as int),
    {
        proof {
            let i = index as int;
            let before = all.take(i);
            let after = all.take(i + 1);
            assert(after == before.push(row));
            let rest_before = before.skip(skipped(before.len(), offset as int));
            let rest_after = after.skip(skipped(after.len(), offset as int));
            if i >= offset {
                assert(rest_after == rest_before.push(row));
                if page@.len() < limit {
                    assert(page_of(after, limit as int, offset as int) == page@.push(row));
                } else {
                    assert(page_of(after, limit as int, offset as int) == page@);
                }
            } else {
                assert(rest_before.len() == 0);
                assert(rest_after.len() == 0);
                assert(page_of(after, limit as int, offset as int) == page@);
            }
        }
        if index >= offset && page.len() < limit {
            page.push(row);
        }
        index += 1;
    }
    assert(all.take(all.len() as int) == all);
    page
}

} // verus!
