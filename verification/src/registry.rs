//! Queries over the stored attendees, in the order in which the store returns them.

use vstd::prelude::*;
use crate::model::Attendee;

verus! {

/// The column a lookup compares.
#[derive(Clone, Copy, PartialEq, Eq, Structural, Debug)]
pub enum Key {
    Preimage,
    Email,
}

/// The row has `value` in the `key` column, and is paid when `paid_only`.
pub open spec fn row_matches(a: Attendee, key: Key, value: Seq<char>, paid_only: bool) -> bool {
    &&& match key {
        Key::Preimage => a.preimage@ == value,
        Key::Email => a.email@ == value,
    }
    &&& (paid_only ==> a.paid)
}

/// The position of the first matching row, if any.
pub open spec fn first_match(rows: Seq<Attendee>, key: Key, value: Seq<char>, paid_only: bool) -> Option<int>
    decreases rows.len(),
{
    if rows.len() == 0 {
        None
    } else {
        match first_match(rows.drop_last(), key, value, paid_only) {
            Some(i) => Some(i),
            None => if row_matches(rows.last(), key, value, paid_only) {
                Some(rows.len() - 1)
            } else {
                None
            },
        }
    }
}

/// The number of paid rows.
pub open spec fn paid_count(rows: Seq<Attendee>) -> nat
    decreases rows.len(),
{
    if rows.len() == 0 {
        0
    } else {
        paid_count(rows.drop_last()) + if rows.last().paid {
            1nat
        } else {
            0nat
        }
    }
}

/// The rows after a settlement of payment hash `hash` is recorded: every row stored under
/// that hash becomes paid and carries the settlement's preimage.
pub open spec fn settle_rows(rows: Seq<Attendee>, hash: Seq<char>, preimage: String) -> Seq<Attendee> {
    rows.map_values(
        |a: Attendee|
            if a.hash@ == hash {
                Attendee { preimage: preimage, paid: true, ..a }
            } else {
                a
            },
    )
}

/// What `first_match` says, as a property of positions.
pub proof fn first_match_facts(rows: Seq<Attendee>, key: Key, value: Seq<char>, paid_only: bool)
    ensures
        match first_match(rows, key, value, paid_only) {
            Some(i) => {
                &&& 0 <= i < rows.len()
                &&& row_matches(rows[i], key, value, paid_only)
                &&& forall|j: int| 0 <= j < i ==> !row_matches(#[trigger] rows[j], key, value, paid_only)
            },
            None => forall|j: int| 0 <= j < rows.len() ==> !row_matches(#[trigger] rows[j], key, value, paid_only),
        },
    decreases rows.len(),
{
    if rows.len() > 0 {
        let init = rows.drop_last();
        first_match_facts(init, key, value, paid_only);
        assert forall|j: int| 0 <= j < init.len() implies #[trigger] init[j] == rows[j] by {}
        match first_match(init, key, value, paid_only) {
            Some(i) => {
                assert(init[i] == rows[i]);
                assert forall|j: int| 0 <= j < i implies !row_matches(#[trigger] rows[j], key, value, paid_only) by {
                    assert(init[j] == rows[j]);
                }
            },
            None => {
                assert forall|j: int| 0 <= j < rows.len() - 1 implies !row_matches(#[trigger] rows[j], key, value, paid_only) by {
                    assert(init[j] == rows[j]);
                }
            },
        }
    }
}

/// A row that matches, with no match before it, is the first match.
pub proof fn first_match_at(rows: Seq<Attendee>, key: Key, value: Seq<char>, paid_only: bool, i: int)
    requires
        0 <= i < rows.len(),
        row_matches(rows[i], key, value, paid_only),
        forall|j: int| 0 <= j < i ==> !row_matches(#[trigger] rows[j], key, value, paid_only),
    ensures
        first_match(rows, key, value, paid_only) == Some(i),
{
    first_match_facts(rows, key, value, paid_only);
    match first_match(rows, key, value, paid_only) {
        Some(k) => {
            if k < i {
                assert(!row_matches(rows[k], key, value, paid_only));
            } else if k > i {
                assert(!row_matches(rows[i], key, value, paid_only));
            }
        },
        None => {
            assert(!row_matches(rows[i], key, value, paid_only));
        },
    }
}

/// `str::to_lowercase` of std: the Unicode lower case of the text (by the Unicode
/// `Lowercase` property, with a final capital sigma lowered by its context).
pub uninterp spec fn lowercase(s: Seq<char>) -> Seq<char>;

/// `str::to_lowercase` of std.  Only names its result: the Unicode case tables are not restated.
#[verifier::external_body]
pub(crate) fn to_lowercase(s: &str) -> (r: String)
    ensures
        r@ == lowercase(s@),
{
    s.to_lowercase()
}

/// The first row (in store order) whose `key` column equals `value`, restricted to paid rows
/// when `paid_only`.
pub fn find_first(rows: &Vec<Attendee>, key: Key, value: &String, paid_only: bool) -> (r: Option<usize>)
    ensures
        match r {
            Some(i) => i < rows.len() && first_match(rows@, key, value@, paid_only) == Some(i as int),
            None => first_match(rows@, key, value@, paid_only) is None,
        },
{
    let n = rows.len();
    let mut i: usize = 0;
    while i < n
        invariant
            n == rows@.len(),
            i <= n,
            first_match(rows@.take(i as int), key, value@, paid_only) is None,
        decreases n - i,
    {
        let a = &rows[i];
        let hit = match key {
            Key::Preimage => a.preimage == *value,
            Key::Email => a.email == *value,
        } && (!paid_only || a.paid);
        assert(rows@.take(i + 1).drop_last() =~= rows@.take(i as int));
        assert(rows@.take(i + 1).last() == rows@[i as int]);
        if hit {
            proof {
                first_match_facts(rows@.take(i as int), key, value@, paid_only);
                assert forall|j: int| 0 <= j < i implies !row_matches(#[trigger] rows@[j], key, value@, paid_only) by {
                    assert(rows@.take(i as int)[j] == rows@[j]);
                }
                first_match_at(rows@, key, value@, paid_only, i as int);
            }
            return Some(i);
        }
        i = i + 1;
    }
    assert(rows@.take(n as int) =~= rows@);
    None
}

/// How many rows are paid.
pub fn count_paid(rows: &Vec<Attendee>) -> (r: usize)
    ensures
        r == paid_count(rows@),
{
    let n = rows.len();
    let mut count: usize = 0;
    let mut i: usize = 0;
    while i < n
        invariant
            n == rows@.len(),
            i <= n,
            count == paid_count(rows@.take(i as int)),
            count <= i,
        decreases n - i,
    {
        assert(rows@.take(i + 1).drop_last() =~= rows@.take(i as int));
        assert(rows@.take(i + 1).last() == rows@[i as int]);
        if rows[i].paid {
            count = count + 1;
        }
        i = i + 1;
    }
    assert(rows@.take(n as int) =~= rows@);
    count
}

} // verus!
