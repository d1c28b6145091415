//! The orders in which a listing can be shown, and the sorting itself.

use crate::drive::PitouDrive;
use crate::file::{FileModel, PitouFile, PitouFileFilter};
use crate::path::display_name;
use vstd::multiset::Multiset;
use vstd::prelude::*;
use vstd::utf8::encode_utf8;

verus! {

#[derive(Clone, Copy, Debug, PartialEq, Eq, Structural)]
pub enum PitouFileSortOrder {
    Increasing,
    Decreasing,
}

#[derive(Clone, Copy, Debug, PartialEq, Eq, Structural)]
pub enum PitouFileSort {
    DateCreated(PitouFileSortOrder),
    DateModified(PitouFileSortOrder),
    DateAccessed(PitouFileSortOrder),
    Name(PitouFileSortOrder),
}

/// The order of a dictionary on bytes: the first byte that differs decides,
/// and a text comes before every text that it begins.
pub open spec fn bytes_le(a: Seq<u8>, b: Seq<u8>) -> bool
    decreases a.len(),
{
    if a.len() == 0 {
        true
    } else if b.len() == 0 {
        false
    } else if a[0] != b[0] {
        a[0] < b[0]
    } else {
        bytes_le(a.drop_first(), b.drop_first())
    }
}

/// Of two texts one comes first.
pub proof fn lemma_bytes_le_total(a: Seq<u8>, b: Seq<u8>)
    ensures
        bytes_le(a, b) || bytes_le(b, a),
    decreases a.len(),
{
    if a.len() > 0 && b.len() > 0 && a[0] == b[0] {
        lemma_bytes_le_total(a.drop_first(), b.drop_first());
    }
}

/// What comes before a text comes before all that the text comes before.
pub proof fn lemma_bytes_le_transitive(a: Seq<u8>, b: Seq<u8>, c: Seq<u8>)
    requires
        bytes_le(a, b),
        bytes_le(b, c),
    ensures
        bytes_le(a, c),
    decreases a.len(),
{
    if a.len() > 0 && b.len() > 0 && c.len() > 0 && a[0] == b[0] && b[0] == c[0] {
        lemma_bytes_le_transitive(a.drop_first(), b.drop_first(), c.drop_first());
    }
}

/// Compares two texts byte by byte.
pub fn bytes_precede(a: &[u8], b: &[u8]) -> (r: bool)
    ensures
        r == bytes_le(a@, b@),
{
    let mut i: usize = 0;
    assert(a@.skip(0) =~= a@ && b@.skip(0) =~= b@);
    while i < a.len() && i < b.len()
        invariant
            i <= a@.len(),
            i <= b@.len(),
            bytes_le(a@, b@) == bytes_le(a@.skip(i as int), b@.skip(i as int)),
        decreases a@.len() - i,
    {
        let ghost ra = a@.skip(i as int);
        let ghost rb = b@.skip(i as int);
        assert(ra[0] == a@[i as int] && rb[0] == b@[i as int]);
        assert(ra.drop_first() =~= a@.skip(i + 1) && rb.drop_first() =~= b@.skip(i + 1));
        if a[i] < b[i] {
            return true;
        }
        if a[i] > b[i] {
            return false;
        }
        i += 1;
    }
    assert(a@.skip(i as int).len() == a@.len() - i);
    assert(b@.skip(i as int).len() == b@.len() - i);
    i >= a.len()
}

impl PitouFileSort {
    /// The time that the order goes by, where the file has metadata.
    pub open spec fn stamp(self, file: FileModel) -> Option<i64> {
        match file.metadata {
            None => None,
            Some(metadata) => Some(
                match self {
                    PitouFileSort::DateCreated(_) => metadata.created.datetime,
                    PitouFileSort::DateModified(_) => metadata.modified.datetime,
                    PitouFileSort::DateAccessed(_) => metadata.accessed.datetime,
                    PitouFileSort::Name(_) => 0,
                },
            ),
        }
    }

    pub open spec fn direction(self) -> PitouFileSortOrder {
        match self {
            PitouFileSort::DateCreated(order) => order,
            PitouFileSort::DateModified(order) => order,
            PitouFileSort::DateAccessed(order) => order,
            PitouFileSort::Name(order) => order,
        }
    }

    /// Whether `a` may stand before `b`. Names go by the order of a
    /// dictionary on their bytes. Times go by the clock, and a file without
    /// metadata stands before all that have some, in either direction.
    pub open spec fn le(self, a: FileModel, b: FileModel) -> bool {
        if self is Name {
            if self.direction() == PitouFileSortOrder::Increasing {
                bytes_le(encode_utf8(a.name()), encode_utf8(b.name()))
            } else {
                bytes_le(encode_utf8(b.name()), encode_utf8(a.name()))
            }
        } else {
            match (self.stamp(a), self.stamp(b)) {
                (None, _) => true,
                (Some(_), None) => false,
                (Some(x), Some(y)) => if self.direction() == PitouFileSortOrder::Increasing {
                    x <= y
                } else {
                    y <= x
                },
            }
        }
    }

    /// Every file stands in its place: none stands before one that must
    /// stand before it.
    pub open spec fn in_order(self, files: Seq<PitouFile>) -> bool {
        forall|i: int, j: int| 0 <= i < j < files.len() ==> self.le(files[i]@, files[j]@)
    }

    pub proof fn lemma_le_total(self, a: FileModel, b: FileModel)
        ensures
            self.le(a, b) || self.le(b, a),
    {
        lemma_bytes_le_total(encode_utf8(a.name()), encode_utf8(b.name()));
    }

    pub proof fn lemma_le_transitive(self, a: FileModel, b: FileModel, c: FileModel)
        requires
            self.le(a, b),
            self.le(b, c),
        ensures
            self.le(a, c),
    {
        if self is Name {
            if self.direction() == PitouFileSortOrder::Increasing {
                lemma_bytes_le_transitive(
                    encode_utf8(a.name()),
                    encode_utf8(b.name()),
                    encode_utf8(c.name()),
                );
            } else {
                lemma_bytes_le_transitive(
                    encode_utf8(c.name()),
                    encode_utf8(b.name()),
                    encode_utf8(a.name()),
                );
            }
        }
    }

    fn stamp_of(self, file: &PitouFile) -> (r: Option<i64>)
        ensures
            r == self.stamp(file@),
    {
        match &file.metadata {
            None => None,
            Some(metadata) => Some(
                match self {
                    PitouFileSort::DateCreated(_) => metadata.created.datetime,
                    PitouFileSort::DateModified(_) => metadata.modified.datetime,
                    PitouFileSort::DateAccessed(_) => metadata.accessed.datetime,
                    PitouFileSort::Name(_) => 0,
                },
            ),
        }
    }

    fn increasing(self) -> (r: bool)
        ensures
            r == (self.direction() == PitouFileSortOrder::Increasing),
    {
        match self {
            PitouFileSort::DateCreated(order) => matches!(order, PitouFileSortOrder::Increasing),
            PitouFileSort::DateModified(order) => matches!(order, PitouFileSortOrder::Increasing),
            PitouFileSort::DateAccessed(order) => matches!(order, PitouFileSortOrder::Increasing),
            PitouFileSort::Name(order) => matches!(order, PitouFileSortOrder::Increasing),
        }
    }

    /// Decides whether `a` may stand before `b`.
    pub fn precedes(self, a: &PitouFile, b: &PitouFile) -> (r: bool)
        ensures
            r == self.le(a@, b@),
    {
        if matches!(self, PitouFileSort::Name(_)) {
            if self.increasing() {
                bytes_precede(a.name().as_bytes(), b.name().as_bytes())
            } else {
                bytes_precede(b.name().as_bytes(), a.name().as_bytes())
            }
        } else {
            match (self.stamp_of(a), self.stamp_of(b)) {
                (None, _) => true,
                (Some(_), None) => false,
                (Some(x), Some(y)) => if self.increasing() {
                    x <= y
                } else {
                    y <= x
                },
            }
        }
    }

    /// Puts the files in order. The result holds the same files, each as
    /// often as it was given, and every one of them stands in its place.
    /// Which of two files comes first that may stand either way is open.
    pub fn sorted(self, items: Vec<PitouFile>) -> (r: Vec<PitouFile>)
        ensures
            r@.to_multiset() == items@.to_multiset(),
            self.in_order(r@),
    {
        broadcast use vstd::seq_lib::group_to_multiset_ensures;

        let mut rest = items;
        let mut out: Vec<PitouFile> = Vec::new();
        assert(out@.to_multiset().add(rest@.to_multiset()) =~= items@.to_multiset());
        while rest.len() > 0
            invariant
                out@.to_multiset().add(rest@.to_multiset()) == items@.to_multiset(),
                self.in_order(out@),
            decreases rest@.len(),
        {
            let ghost rest_before = rest@;
            let ghost out_before = out@;
            let next = rest.pop().unwrap();
            assert(rest_before =~= rest@.push(next));
            let mut at: usize = 0;
            loop
                invariant
                    at <= out@.len(),
                    out@ == out_before,
                    forall|k: int| 0 <= k < at ==> self.le(#[trigger] out@[k]@, next@),
                ensures
                    at == out@.len() || !self.le(out@[at as int]@, next@),
                decreases out@.len() - at,
            {
                if at >= out.len() {
                    break ;
                }
                if !self.precedes(&out[at], &next) {
                    break ;
                }
                at += 1;
            }
            proof {
                assert forall|k: int| at <= k < out@.len() implies self.le(next@, #[trigger] out@[k]@) by {
                    self.lemma_le_total(out@[at as int]@, next@);
                    if at < k {
                        self.lemma_le_transitive(next@, out@[at as int]@, out@[k]@);
                    }
                }
                vstd::seq_lib::to_multiset_insert(out_before, at as int, next);
            }
            out.insert(at, next);
            proof {
                assert(out@ == out_before.insert(at as int, next));
                vstd::seq_lib::to_multiset_build(rest@, next);
                assert(rest_before == rest@.push(next));
                vstd::seq_lib::to_multiset_build(rest@, next);
            assert(rest_before == rest@.push(next));
            assert(rest_before.to_multiset() =~= rest@.to_multiset().insert(next));
                assert(out_before.to_multiset().insert(next).add(rest@.to_multiset())
                    =~= out_before.to_multiset().add(rest@.to_multiset().insert(next)));
            }
            assert forall|i: int, j: int| 0 <= i < j < out@.len() implies self.le(
                out@[i]@,
                out@[j]@,
            ) by {
                let from = |k: int| if k < at { k } else { k - 1 };
                if i == at {
                    assert(out@[j] == out_before[j - 1]);
                } else if j == at {
                    assert(out@[i] == out_before[i]);
                } else {
                    assert(out@[i] == out_before[from(i)]);
                    assert(out@[j] == out_before[from(j)]);
                }
            }
        }
        assert(rest@.to_multiset() =~= Multiset::<PitouFile>::empty());
        assert(out@.to_multiset().add(rest@.to_multiset()) =~= out@.to_multiset());
        out
    }
}

/// Tells the files that a filter lets through.
pub open spec fn lets_through(filter: PitouFileFilter) -> spec_fn(PitouFile) -> bool {
    |file: PitouFile| filter.admits(file@)
}

/// The entries of a directory as a listing shows them: those that the filter
/// lets through, in the order asked for, or as they came where none is.
pub fn children(entries: Vec<PitouFile>, filter: PitouFileFilter, sort: Option<PitouFileSort>) -> (r:
    Vec<PitouFile>)
    ensures
        match sort {
            None => r@ == entries@.filter(lets_through(filter)),
            Some(sort) => r@.to_multiset() == entries@.filter(lets_through(filter)).to_multiset()
                && sort.in_order(r@),
        },
{
    let mut entries = entries;
    let ghost all = entries@;
    let mut kept_last_first: Vec<PitouFile> = Vec::new();
    assert(all.skip(all.len() as int).filter(lets_through(filter)) =~= Seq::<PitouFile>::empty())
        by {
        reveal(Seq::filter);
    }
    while entries.len() > 0
        invariant
            entries@.len() <= all.len(),
            entries@ == all.take(entries@.len() as int),
            kept_last_first@.reverse() == all.skip(entries@.len() as int).filter(
                lets_through(filter),
            ),
        decreases entries@.len(),
    {
        let ghost n = entries@.len() as int;
        let ghost before = kept_last_first@;
        let entry = entries.pop().unwrap();
        proof {
            let tail = all.skip(n);
            let longer = all.skip(n - 1);
            assert(longer =~= seq![entry] + tail);
            tail.lemma_filter_prepend(entry, lets_through(filter));
            assert(entries@ =~= all.take(n - 1));
        }
        match filter.map(entry) {
            Some(file) => {
                kept_last_first.push(file);
                assert(kept_last_first@.reverse() =~= seq![file] + before.reverse());
            },
            None => {},
        }
    }
    assert(all.skip(0) =~= all);
    let mut kept: Vec<PitouFile> = Vec::new();
    let ghost last_first = kept_last_first@;
    while kept_last_first.len() > 0
        invariant
            kept_last_first@.len() <= last_first.len(),
            kept_last_first@ == last_first.take(kept_last_first@.len() as int),
            kept@ == last_first.reverse().take(last_first.len() - kept_last_first@.len()),
        decreases kept_last_first@.len(),
    {
        let ghost n = kept_last_first@.len() as int;
        let file = kept_last_first.pop().unwrap();
        kept.push(file);
        assert(kept_last_first@ =~= last_first.take(n - 1));
        assert(kept@ =~= last_first.reverse().take(last_first.len() - (n - 1)));
    }
    assert(kept@ =~= last_first.reverse());
    match sort {
        Some(sort) => sort.sorted(kept),
        None => kept,
    }
}

/// Whether drive `a` may stand before drive `b`: by the order of a
/// dictionary on the names of their mount points.
pub open spec fn drive_le(a: PitouDrive, b: PitouDrive) -> bool {
    bytes_le(drive_key(a), drive_key(b))
}

/// The bytes that a drive is ordered by: the name of its mount point.
pub open spec fn drive_key(drive: PitouDrive) -> Seq<u8> {
    encode_utf8(display_name(drive.mount_point@))
}

/// The drives in the order in which they are shown: by the name of their
/// mount point. The result holds the same drives, none before one that must
/// stand before it.
pub fn drives(list: Vec<PitouDrive>) -> (r: Vec<PitouDrive>)
    ensures
        r@.to_multiset() == list@.to_multiset(),
        forall|i: int, j: int| 0 <= i < j < r@.len() ==> drive_le(r@[i], r@[j]),
{
    broadcast use vstd::seq_lib::group_to_multiset_ensures;

    let mut rest = list;
    let mut out: Vec<PitouDrive> = Vec::new();
    assert(out@.to_multiset().add(rest@.to_multiset()) =~= list@.to_multiset());
    while rest.len() > 0
        invariant
            out@.to_multiset().add(rest@.to_multiset()) == list@.to_multiset(),
            forall|i: int, j: int| 0 <= i < j < out@.len() ==> drive_le(out@[i], out@[j]),
        decreases rest@.len(),
    {
        let ghost rest_before = rest@;
        let ghost out_before = out@;
        let next = rest.pop().unwrap();
        assert(rest_before =~= rest@.push(next));
        let mut at: usize = 0;
        loop
            invariant
                at <= out@.len(),
                out@ == out_before,
                forall|k: int| 0 <= k < at ==> drive_le(#[trigger] out@[k], next),
            ensures
                at == out@.len() || !drive_le(out@[at as int], next),
            decreases out@.len() - at,
        {
            if at >= out.len() {
                break ;
            }
            if !bytes_precede(
                out[at].mount_point.name().as_bytes(),
                next.mount_point.name().as_bytes(),
            ) {
                break ;
            }
            at += 1;
        }
        proof {
            assert forall|k: int| at <= k < out@.len() implies drive_le(next, #[trigger] out@[k]) by {
                lemma_bytes_le_total(drive_key(out@[at as int]), drive_key(next));
                if at < k {
                    assert(drive_le(out@[at as int], out@[k]));
                    lemma_bytes_le_transitive(
                        drive_key(next),
                        drive_key(out@[at as int]),
                        drive_key(out@[k]),
                    );
                }
            }
            vstd::seq_lib::to_multiset_insert(out_before, at as int, next);
        }
        out.insert(at, next);
        proof {
            assert(out@ == out_before.insert(at as int, next));
            vstd::seq_lib::to_multiset_build(rest@, next);
            assert(rest_before == rest@.push(next));
            assert(rest_before.to_multiset() =~= rest@.to_multiset().insert(next));
            assert(out_before.to_multiset().insert(next).add(rest@.to_multiset())
                =~= out_before.to_multiset().add(rest@.to_multiset().insert(next)));
        }
        assert forall|i: int, j: int| 0 <= i < j < out@.len() implies drive_le(out@[i], out@[j]) by {
            let from = |k: int| if k < at { k } else { k - 1 };
            if i == at {
                assert(out@[j] == out_before[j - 1]);
            } else if j == at {
                assert(out@[i] == out_before[i]);
            } else {
                assert(out@[i] == out_before[from(i)]);
                assert(out@[j] == out_before[from(j)]);
            }
        }
    }
    assert(rest@.to_multiset() =~= Multiset::<PitouDrive>::empty());
    assert(out@.to_multiset().add(rest@.to_multiset()) =~= out@.to_multiset());
    out
}

} // verus!
