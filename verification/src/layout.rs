//! The shape of a header that the walk accepts, and what the walk does with
//! headers that have it, almost have it, or are cut short.

use crate::cursor::{after_bytes, after_delimiter};
use crate::error::{block_tail, Marker};
use crate::find::{equal_to, lemma_find_from, lemma_find_from_unique};
use crate::scanner::{locate, scan, BLOCK_START, BYTE_ORDER, DATE_LEN, GAP, MAGIC, SEPARATOR};
use vstd::prelude::*;

verus! {

/// `h` follows the marker trail, with its first `I` at `i`, the first `%`
/// behind `II*` at `j`, and the first `H` behind that at `k`: the block tail
/// follows `k` at once, and twenty-six bytes past `k` the date ends.
pub open spec fn has_layout(h: Seq<u8>, i: int, j: int, k: int) -> bool {
    &&& 0 <= i
    &&& i + 3 <= j < k
    &&& k + 1 + block_tail().len() + GAP + DATE_LEN <= h.len()
    &&& forall|x: int| 0 <= x < i ==> h[x] != BYTE_ORDER
    &&& h[i] == BYTE_ORDER
    &&& h[i + 1] == BYTE_ORDER
    &&& h[i + 2] == MAGIC
    &&& forall|x: int| i + 3 <= x < j ==> h[x] != SEPARATOR
    &&& h[j] == SEPARATOR
    &&& forall|x: int| j < x < k ==> h[x] != BLOCK_START
    &&& h[k] == BLOCK_START
    &&& h.subrange(k + 1, k + 9) == block_tail()
}

/// Where the date starts in a header whose first `H` behind the `%` is at `k`.
pub open spec fn date_offset(k: int) -> int {
    k + 1 + block_tail().len() + GAP
}

/// A reader that meets `delim` first at `at` stops just behind it.
pub proof fn lemma_stops_behind(h: Seq<u8>, from: int, delim: u8, at: int)
    requires
        0 <= from <= at < h.len(),
        forall|x: int| from <= x < at ==> h[x] != delim,
        h[at] == delim,
    ensures
        after_delimiter(h, from, delim) == at + 1,
{
    assert forall|x: int| from <= x < at implies !equal_to(delim)(#[trigger] h[x]) by {}
    lemma_find_from_unique(h, from, equal_to(delim), at);
}

/// A reader that meets no `delim` runs to the end.
pub proof fn lemma_runs_out(h: Seq<u8>, from: int, delim: u8)
    requires
        0 <= from <= h.len(),
        forall|x: int| from <= x < h.len() ==> h[x] != delim,
    ensures
        after_delimiter(h, from, delim) == h.len(),
{
    assert forall|x: int| from <= x < h.len() implies !equal_to(delim)(#[trigger] h[x]) by {}
    lemma_find_from_unique(h, from, equal_to(delim), h.len() as int);
}

/// A reader moves forward and stays within the bytes; where it stops short
/// of the end, or on a last byte equal to `delim`, it has passed no other
/// `delim` on the way.
pub proof fn lemma_passes_none(h: Seq<u8>, from: int, delim: u8)
    requires
        0 <= from <= h.len(),
    ensures
        from <= after_delimiter(h, from, delim) <= h.len(),
        from < h.len() ==> from < after_delimiter(h, from, delim),
        forall|x: int| from <= x < after_delimiter(h, from, delim) - 1 ==> h[x] != delim,
        after_delimiter(h, from, delim) < h.len() ==> h[after_delimiter(h, from, delim) - 1]
            == delim,
{
    lemma_find_from(h, from, equal_to(delim));
    assert forall|x: int| from <= x < after_delimiter(h, from, delim) - 1 implies h[x]
        != delim by {
        assert(!equal_to(delim)(h[x]));
    }
}

/// Every header with the layout is accepted, and its date is the ten bytes
/// at the fixed distance behind the markers, however long the prefix in
/// front of the first `I` is.
pub proof fn lemma_layout_is_scanned(h: Seq<u8>, i: int, j: int, k: int)
    requires
        has_layout(h, i, j, k),
    ensures
        locate(h) == Ok::<int, (Marker, Seq<u8>)>(date_offset(k)),
        scan(h) == Ok::<Seq<u8>, (Marker, Seq<u8>)>(
            h.subrange(date_offset(k), date_offset(k) + DATE_LEN),
        ),
{
    lemma_stops_behind(h, 0, BYTE_ORDER, i);
    lemma_stops_behind(h, i + 1, BYTE_ORDER, i + 1);
    lemma_stops_behind(h, i + 2, MAGIC, i + 2);
    lemma_stops_behind(h, i + 3, SEPARATOR, j);
    lemma_stops_behind(h, j + 1, BLOCK_START, k);
    let tail = h.subrange(k + 1, k + 9);
    assert forall|x: int| k + 1 <= x < k + 8 implies h[x] != BLOCK_START by {
        assert(h[x] == tail[x - (k + 1)]);
    }
    assert(h[k + 8] == tail[7]);
    lemma_stops_behind(h, k + 1, BLOCK_START, k + 8);
    assert(h.subrange(i + 1, i + 2) =~= Marker::ByteOrder.bytes());
    assert(h.subrange(i + 2, i + 3) =~= Marker::Magic.bytes());
}

/// Only a header with the layout is accepted: the first `I`, the first `%`
/// behind `II*` and the first `H` behind that are where the layout wants them.
pub proof fn lemma_scanned_has_layout(h: Seq<u8>) -> (marks: (int, int, int))
    requires
        scan(h) is Ok,
    ensures
        has_layout(h, marks.0, marks.1, marks.2),
        locate(h) == Ok::<int, (Marker, Seq<u8>)>(date_offset(marks.2)),
{
    let past_prefix = after_delimiter(h, 0, BYTE_ORDER);
    lemma_passes_none(h, 0, BYTE_ORDER);
    let past_order = after_delimiter(h, past_prefix, BYTE_ORDER);
    lemma_passes_none(h, past_prefix, BYTE_ORDER);
    let past_magic = after_delimiter(h, past_order, MAGIC);
    lemma_passes_none(h, past_order, MAGIC);
    let past_separator = after_delimiter(h, past_magic, SEPARATOR);
    lemma_passes_none(h, past_magic, SEPARATOR);
    let past_block = after_delimiter(h, past_separator, BLOCK_START);
    lemma_passes_none(h, past_separator, BLOCK_START);
    let past_tail = after_delimiter(h, past_block, BLOCK_START);
    lemma_passes_none(h, past_block, BLOCK_START);
    let date_start = after_bytes(h, past_tail, GAP as int);
    let date_end = after_bytes(h, date_start, DATE_LEN as int);
    assert(h.subrange(past_prefix, past_order) == Marker::ByteOrder.bytes());
    assert(h.subrange(past_order, past_magic) == Marker::Magic.bytes());
    assert(h.subrange(past_block, past_tail) == Marker::Pattern.bytes());
    assert(h.subrange(past_prefix, past_order).len() == 1);
    assert(h.subrange(past_order, past_magic).len() == 1);
    assert(h.subrange(past_block, past_tail).len() == 8);
    assert(h[past_prefix] == h.subrange(past_prefix, past_order)[0]);
    assert(h[past_order] == h.subrange(past_order, past_magic)[0]);
    assert(h.subrange(past_block - 1 + 1, past_block - 1 + 9) == block_tail());
    (past_prefix - 1, past_separator - 1, past_block - 1)
}

/// A header is accepted exactly when it has the layout.
pub proof fn lemma_accepts_exactly_the_layout(h: Seq<u8>)
    ensures
        scan(h) is Ok <==> exists|i: int, j: int, k: int| has_layout(h, i, j, k),
{
    if scan(h) is Ok {
        let marks = lemma_scanned_has_layout(h);
        assert(has_layout(h, marks.0, marks.1, marks.2));
    }
    if exists|i: int, j: int, k: int| has_layout(h, i, j, k) {
        let (i, j, k) = choose|i: int, j: int, k: int| has_layout(h, i, j, k);
        lemma_layout_is_scanned(h, i, j, k);
    }
}

/// The step that a turned-down header is reported with.
pub open spec fn named_marker(h: Seq<u8>) -> Option<Marker> {
    match scan(h) {
        Ok(_) => None,
        Err((marker, _)) => Some(marker),
    }
}

/// Changing one marker byte of a header with the layout gets the header
/// turned down, and the report names the marker that the byte belongs to:
/// the byte-order mark for either `I`, the magic byte for the `*`, the
/// pattern for any byte of the block tail.
pub proof fn lemma_altered_marker_is_named(h: Seq<u8>, i: int, j: int, k: int, at: int, b: u8)
    requires
        has_layout(h, i, j, k),
        0 <= at < h.len(),
        b != h[at],
    ensures
        at == i || at == i + 1 ==> named_marker(h.update(at, b)) == Some(Marker::ByteOrder),
        at == i + 2 ==> named_marker(h.update(at, b)) == Some(Marker::Magic),
        k < at <= k + block_tail().len() ==> named_marker(h.update(at, b)) == Some(
            Marker::Pattern,
        ),
{
    let g = h.update(at, b);
    if at == i {
        lemma_stops_behind(g, 0, BYTE_ORDER, i + 1);
        lemma_passes_none(g, i + 2, BYTE_ORDER);
        let past_order = after_delimiter(g, i + 2, BYTE_ORDER);
        assert(g.subrange(i + 2, past_order)[0] == MAGIC);
        assert(Marker::ByteOrder.bytes()[0] == BYTE_ORDER);
    } else if at == i + 1 {
        lemma_stops_behind(g, 0, BYTE_ORDER, i);
        lemma_passes_none(g, i + 1, BYTE_ORDER);
        let past_order = after_delimiter(g, i + 1, BYTE_ORDER);
        assert(g.subrange(i + 1, past_order)[0] == b);
        assert(Marker::ByteOrder.bytes()[0] == BYTE_ORDER);
    } else if at == i + 2 {
        lemma_stops_behind(g, 0, BYTE_ORDER, i);
        lemma_stops_behind(g, i + 1, BYTE_ORDER, i + 1);
        assert(g.subrange(i + 1, i + 2) =~= Marker::ByteOrder.bytes());
        lemma_passes_none(g, i + 2, MAGIC);
        let past_magic = after_delimiter(g, i + 2, MAGIC);
        assert(g.subrange(i + 2, past_magic)[0] == b);
        assert(Marker::Magic.bytes()[0] == MAGIC);
    } else if k < at <= k + 8 {
        lemma_stops_behind(g, 0, BYTE_ORDER, i);
        lemma_stops_behind(g, i + 1, BYTE_ORDER, i + 1);
        lemma_stops_behind(g, i + 2, MAGIC, i + 2);
        lemma_stops_behind(g, i + 3, SEPARATOR, j);
        lemma_stops_behind(g, j + 1, BLOCK_START, k);
        assert(g.subrange(i + 1, i + 2) =~= Marker::ByteOrder.bytes());
        assert(g.subrange(i + 2, i + 3) =~= Marker::Magic.bytes());
        let past_tail = after_delimiter(g, k + 1, BLOCK_START);
        lemma_passes_none(g, k + 1, BLOCK_START);
        if g.subrange(k + 1, past_tail) == block_tail() {
            assert(past_tail == k + 9);
            assert(g.subrange(k + 1, past_tail)[at - (k + 1)] == b);
            assert(h.subrange(k + 1, k + 9)[at - (k + 1)] == h[at]);
        }
    }
}

/// Cutting a header with the layout short anywhere before the end of its
/// date gets it turned down. The report names the first step that the bytes
/// no longer reach; where only the date is cut, it carries what is left of
/// the date.
pub proof fn lemma_truncated_is_named(h: Seq<u8>, i: int, j: int, k: int, n: int)
    requires
        has_layout(h, i, j, k),
        0 <= n < date_offset(k) + DATE_LEN,
    ensures
        n <= i + 1 ==> named_marker(h.take(n)) == Some(Marker::ByteOrder),
        n == i + 2 ==> named_marker(h.take(n)) == Some(Marker::Magic),
        i + 3 <= n <= k + block_tail().len() ==> named_marker(h.take(n)) == Some(
            Marker::Pattern,
        ),
        k + block_tail().len() < n ==> scan(h.take(n)) == Err::<Seq<u8>, (Marker, Seq<u8>)>(
            (
                Marker::DateField,
                h.subrange(if date_offset(k) <= n { date_offset(k) } else { n }, n),
            ),
        ),
{
    let g = h.take(n);
    if n <= i {
        lemma_runs_out(g, 0, BYTE_ORDER);
        lemma_runs_out(g, n, BYTE_ORDER);
        assert(g.subrange(n, n).len() == 0);
    } else {
        lemma_stops_behind(g, 0, BYTE_ORDER, i);
        if n == i + 1 {
            lemma_runs_out(g, n, BYTE_ORDER);
            assert(g.subrange(n, n).len() == 0);
        } else {
            lemma_stops_behind(g, i + 1, BYTE_ORDER, i + 1);
            assert(g.subrange(i + 1, i + 2) =~= Marker::ByteOrder.bytes());
            if n == i + 2 {
                lemma_runs_out(g, n, MAGIC);
                assert(g.subrange(n, n).len() == 0);
            } else {
                lemma_stops_behind(g, i + 2, MAGIC, i + 2);
                assert(g.subrange(i + 2, i + 3) =~= Marker::Magic.bytes());
                let past_separator = after_delimiter(g, i + 3, SEPARATOR);
                lemma_passes_none(g, i + 3, SEPARATOR);
                let past_block = after_delimiter(g, past_separator, BLOCK_START);
                lemma_passes_none(g, past_separator, BLOCK_START);
                let past_tail = after_delimiter(g, past_block, BLOCK_START);
                lemma_passes_none(g, past_block, BLOCK_START);
                if j < n {
                    lemma_stops_behind(g, i + 3, SEPARATOR, j);
                    if k < n {
                        lemma_stops_behind(g, j + 1, BLOCK_START, k);
                    } else {
                        lemma_runs_out(g, j + 1, BLOCK_START);
                    }
                } else {
                    lemma_runs_out(g, i + 3, SEPARATOR);
                }
                if n <= k + 8 {
                    assert(g.subrange(past_block, past_tail).len() < 8);
                } else {
                    let tail = h.subrange(k + 1, k + 9);
                    assert forall|x: int| k + 1 <= x < k + 8 implies g[x] != BLOCK_START by {
                        assert(g[x] == tail[x - (k + 1)]);
                    }
                    assert(g[k + 8] == tail[7]);
                    lemma_stops_behind(g, k + 1, BLOCK_START, k + 8);
                    assert(g.subrange(k + 1, k + 9) =~= block_tail());
                    let date_start = after_bytes(g, k + 9, GAP as int);
                    let date_end = after_bytes(g, date_start, DATE_LEN as int);
                    assert(date_end == n);
                    assert(g.subrange(date_start, date_end) =~= h.subrange(date_start, n));
                }
            }
        }
    }
}

} // verus!
