//! The storage diff engine: structural differences between two decoded
//! state snapshots.
//!
//! A snapshot is an ordered list of pallets, each with an ordered list of
//! storage entries. The diff first classifies pallet names present on one
//! side only, in the iteration order each snapshot provides, then compares
//! the entries of every pallet common to both sides; pallets with no
//! entry-level difference are omitted entirely.

use vstd::prelude::*;
use vstd::assert_seqs_equal;
use crate::bytes::{bytes_eq, slice_to_vec};

verus! {

/// One named storage entry with its raw encoded value.
#[derive(Clone, Debug)]
pub struct StorageEntry {
    pub name: Vec<u8>,
    pub value: Vec<u8>,
}

/// The mathematical value of a [`StorageEntry`].
#[verifier::ext_equal]
pub struct StorageEntryView {
    pub name: Seq<u8>,
    pub value: Seq<u8>,
}

impl View for StorageEntry {
    type V = StorageEntryView;

    open spec fn view(&self) -> StorageEntryView {
        StorageEntryView { name: self.name@, value: self.value@ }
    }
}

/// One pallet of a snapshot: its name and its storage entries, in the
/// order the decoder exposes them.
#[derive(Clone, Debug)]
pub struct PalletStorage {
    pub name: Vec<u8>,
    pub entries: Vec<StorageEntry>,
}

/// The mathematical value of a [`PalletStorage`].
#[verifier::ext_equal]
pub struct PalletStorageView {
    pub name: Seq<u8>,
    pub entries: Seq<StorageEntryView>,
}

/// The mathematical values of a list of entries.
pub open spec fn entries_view(es: Seq<StorageEntry>) -> Seq<StorageEntryView> {
    es.map_values(|e: StorageEntry| e@)
}

impl View for PalletStorage {
    type V = PalletStorageView;

    open spec fn view(&self) -> PalletStorageView {
        PalletStorageView { name: self.name@, entries: entries_view(self.entries@) }
    }
}

/// A decoded state snapshot: pallets in the decoder's enumeration order.
#[derive(Clone, Debug)]
pub struct StorageSnapshot {
    pub pallets: Vec<PalletStorage>,
}

/// The mathematical values of a list of pallets.
pub open spec fn pallets_view(ps: Seq<PalletStorage>) -> Seq<PalletStorageView> {
    ps.map_values(|p: PalletStorage| p@)
}

impl View for StorageSnapshot {
    type V = Seq<PalletStorageView>;

    open spec fn view(&self) -> Seq<PalletStorageView> {
        pallets_view(self.pallets@)
    }
}

/// A pallet name present on one side only: `Removed` when only the left
/// snapshot has it, `Added` when only the right one does.
#[derive(Clone, Debug)]
pub enum PalletDiff {
    Removed(Vec<u8>),
    Added(Vec<u8>),
}

/// The mathematical value of a [`PalletDiff`].
#[verifier::ext_equal]
pub enum PalletDiffView {
    Removed(Seq<u8>),
    Added(Seq<u8>),
}

impl View for PalletDiff {
    type V = PalletDiffView;

    open spec fn view(&self) -> PalletDiffView {
        match self {
            PalletDiff::Removed(n) => PalletDiffView::Removed(n@),
            PalletDiff::Added(n) => PalletDiffView::Added(n@),
        }
    }
}

/// One entry-level difference within a pallet common to both snapshots.
#[derive(Clone, Debug)]
pub enum EntryDiff {
    ValueDiffers { name: Vec<u8>, left: Vec<u8>, right: Vec<u8> },
    OnlyInLeft { name: Vec<u8>, value: Vec<u8> },
    OnlyInRight { name: Vec<u8>, value: Vec<u8> },
}

/// The mathematical value of an [`EntryDiff`].
#[verifier::ext_equal]
pub enum EntryDiffView {
    ValueDiffers { name: Seq<u8>, left: Seq<u8>, right: Seq<u8> },
    OnlyInLeft { name: Seq<u8>, value: Seq<u8> },
    OnlyInRight { name: Seq<u8>, value: Seq<u8> },
}

impl View for EntryDiff {
    type V = EntryDiffView;

    open spec fn view(&self) -> EntryDiffView {
        match self {
            EntryDiff::ValueDiffers { name, left, right } => EntryDiffView::ValueDiffers {
                name: name@,
                left: left@,
                right: right@,
            },
            EntryDiff::OnlyInLeft { name, value } => EntryDiffView::OnlyInLeft {
                name: name@,
                value: value@,
            },
            EntryDiff::OnlyInRight { name, value } => EntryDiffView::OnlyInRight {
                name: name@,
                value: value@,
            },
        }
    }
}

/// The entry-level differences of one common pallet.
#[derive(Clone, Debug)]
pub struct PalletEntryDiffs {
    pub pallet: Vec<u8>,
    pub diffs: Vec<EntryDiff>,
}

/// The mathematical value of a [`PalletEntryDiffs`].
#[verifier::ext_equal]
pub struct PalletEntryDiffsView {
    pub pallet: Seq<u8>,
    pub diffs: Seq<EntryDiffView>,
}

impl View for PalletEntryDiffs {
    type V = PalletEntryDiffsView;

    open spec fn view(&self) -> PalletEntryDiffsView {
        PalletEntryDiffsView { pallet: self.pallet@, diffs: self.diffs@.map_values(|d: EntryDiff| d@) }
    }
}

/// The mathematical values of a list of pallet diffs.
pub open spec fn pallet_diffs_view(ds: Seq<PalletDiff>) -> Seq<PalletDiffView> {
    ds.map_values(|d: PalletDiff| d@)
}

/// The mathematical values of a list of entry diffs.
pub open spec fn entry_diffs_view(ds: Seq<EntryDiff>) -> Seq<EntryDiffView> {
    ds.map_values(|d: EntryDiff| d@)
}

/// The mathematical values of a list of per-pallet entry diffs.
pub open spec fn pallet_entry_diffs_view(ds: Seq<PalletEntryDiffs>) -> Seq<PalletEntryDiffsView> {
    ds.map_values(|d: PalletEntryDiffs| d@)
}

/// The first pallet of the snapshot bearing the name, when any does.
pub open spec fn find_pallet(s: Seq<PalletStorageView>, n: Seq<u8>) -> Option<PalletStorageView>
    decreases s.len(),
{
    if s.len() == 0 {
        None
    } else if s[0].name == n {
        Some(s[0])
    } else {
        find_pallet(s.drop_first(), n)
    }
}

/// The first entry of the list bearing the name, when any does.
pub open spec fn find_entry(es: Seq<StorageEntryView>, n: Seq<u8>) -> Option<StorageEntryView>
    decreases es.len(),
{
    if es.len() == 0 {
        None
    } else if es[0].name == n {
        Some(es[0])
    } else {
        find_entry(es.drop_first(), n)
    }
}

/// The pallets of the left snapshot absent from the right one, in left
/// order, each reported as removed.
pub open spec fn removed_pallets(a: Seq<PalletStorageView>, b: Seq<PalletStorageView>) -> Seq<
    PalletDiffView,
>
    decreases a.len(),
{
    if a.len() == 0 {
        Seq::empty()
    } else {
        removed_pallets(a.drop_last(), b) + (if find_pallet(b, a.last().name) is None {
            seq![PalletDiffView::Removed(a.last().name)]
        } else {
            Seq::empty()
        })
    }
}

/// The pallets of the right snapshot absent from the left one, in right
/// order, each reported as added.
pub open spec fn added_pallets(a: Seq<PalletStorageView>, b: Seq<PalletStorageView>) -> Seq<
    PalletDiffView,
>
    decreases b.len(),
{
    if b.len() == 0 {
        Seq::empty()
    } else {
        added_pallets(a, b.drop_last()) + (if find_pallet(a, b.last().name) is None {
            seq![PalletDiffView::Added(b.last().name)]
        } else {
            Seq::empty()
        })
    }
}

/// Entry diffs driven by the left entry list: a value mismatch for an entry
/// both sides hold with different values, a left-only presence mismatch for
/// one the right side lacks.
pub open spec fn entry_diffs_left(ea: Seq<StorageEntryView>, eb: Seq<StorageEntryView>) -> Seq<
    EntryDiffView,
>
    decreases ea.len(),
{
    if ea.len() == 0 {
        Seq::empty()
    } else {
        entry_diffs_left(ea.drop_last(), eb) + (match find_entry(eb, ea.last().name) {
            Option::None => seq![
                EntryDiffView::OnlyInLeft { name: ea.last().name, value: ea.last().value },
            ],
            Option::Some(e) => if e.value != ea.last().value {
                seq![
                    EntryDiffView::ValueDiffers {
                        name: ea.last().name,
                        left: ea.last().value,
                        right: e.value,
                    },
                ]
            } else {
                Seq::empty()
            },
        })
    }
}

/// Entry diffs driven by the right entry list: a right-only presence
/// mismatch for every entry the left side lacks.
pub open spec fn entry_diffs_right(ea: Seq<StorageEntryView>, eb: Seq<StorageEntryView>) -> Seq<
    EntryDiffView,
>
    decreases eb.len(),
{
    if eb.len() == 0 {
        Seq::empty()
    } else {
        entry_diffs_right(ea, eb.drop_last()) + (if find_entry(ea, eb.last().name) is None {
            seq![EntryDiffView::OnlyInRight { name: eb.last().name, value: eb.last().value }]
        } else {
            Seq::empty()
        })
    }
}

/// All entry diffs of one common pallet: the left-driven ones first, then
/// the right-only ones.
pub open spec fn entry_diffs(pa: PalletStorageView, pb: PalletStorageView) -> Seq<EntryDiffView> {
    entry_diffs_left(pa.entries, pb.entries) + entry_diffs_right(pa.entries, pb.entries)
}

/// The per-pallet entry diffs of all pallets common to both snapshots, in
/// left order, omitting pallets with no entry-level difference.
pub open spec fn pallet_entry_diffs(a: Seq<PalletStorageView>, b: Seq<PalletStorageView>) -> Seq<
    PalletEntryDiffsView,
>
    decreases a.len(),
{
    if a.len() == 0 {
        Seq::empty()
    } else {
        pallet_entry_diffs(a.drop_last(), b) + (match find_pallet(b, a.last().name) {
            Option::Some(pb) => if entry_diffs(a.last(), pb).len() > 0 {
                seq![
                    PalletEntryDiffsView {
                        pallet: a.last().name,
                        diffs: entry_diffs(a.last(), pb),
                    },
                ]
            } else {
                Seq::empty()
            },
            Option::None => Seq::empty(),
        })
    }
}

/// Index of the first pallet bearing the name, mirroring [`find_pallet`].
fn find_pallet_idx(s: &Vec<PalletStorage>, n: &[u8]) -> (r: Option<usize>)
    ensures
        r matches Some(i) ==> i < s@.len()
            && find_pallet(pallets_view(s@), n@) == Some(s@[i as int]@),
        r is None ==> find_pallet(pallets_view(s@), n@) is None,
{
    let ghost sv = pallets_view(s@);
    proof {
        assert(sv.skip(0) =~= sv);
    }
    let mut i: usize = 0;
    while i < s.len()
        invariant
            i <= s@.len(),
            sv == pallets_view(s@),
            find_pallet(sv, n@) == find_pallet(sv.skip(i as int), n@),
        decreases s@.len() - i,
    {
        if bytes_eq(s[i].name.as_slice(), n) {
            proof {
                assert(sv.skip(i as int)[0] == sv[i as int]);
            }
            return Some(i);
        }
        proof {
            assert(sv.skip(i as int).drop_first() =~= sv.skip(i + 1));
        }
        i = i + 1;
    }
    proof {
        assert(sv.skip(i as int).len() == 0);
    }
    None
}

/// Index of the first entry bearing the name, mirroring [`find_entry`].
fn find_entry_idx(es: &Vec<StorageEntry>, n: &[u8]) -> (r: Option<usize>)
    ensures
        r matches Some(i) ==> i < es@.len()
            && find_entry(entries_view(es@), n@) == Some(es@[i as int]@),
        r is None ==> find_entry(entries_view(es@), n@) is None,
{
    let ghost ev = entries_view(es@);
    proof {
        assert(ev.skip(0) =~= ev);
    }
    let mut i: usize = 0;
    while i < es.len()
        invariant
            i <= es@.len(),
            ev == entries_view(es@),
            find_entry(ev, n@) == find_entry(ev.skip(i as int), n@),
        decreases es@.len() - i,
    {
        if bytes_eq(es[i].name.as_slice(), n) {
            proof {
                assert(ev.skip(i as int)[0] == ev[i as int]);
            }
            return Some(i);
        }
        proof {
            assert(ev.skip(i as int).drop_first() =~= ev.skip(i + 1));
        }
        i = i + 1;
    }
    proof {
        assert(ev.skip(i as int).len() == 0);
    }
    None
}

/// The entry diffs of one common pallet, in specification order.
fn diff_entries(pa: &PalletStorage, pb: &PalletStorage) -> (r: Vec<EntryDiff>)
    ensures
        entry_diffs_view(r@) == entry_diffs(pa@, pb@),
{
    let mut diffs: Vec<EntryDiff> = Vec::new();
    let ghost eav = pa@.entries;
    let ghost ebv = pb@.entries;
    proof {
        assert_seqs_equal!(entry_diffs_view(diffs@), entry_diffs_left(eav.subrange(0, 0), ebv));
    }
    let mut i: usize = 0;
    while i < pa.entries.len()
        invariant
            i <= pa.entries@.len(),
            eav == pa@.entries,
            ebv == pb@.entries,
            eav.len() == pa.entries@.len(),
            entry_diffs_view(diffs@) == entry_diffs_left(eav.subrange(0, i as int), ebv),
        decreases pa.entries@.len() - i,
    {
        let e = &pa.entries[i];
        proof {
            assert(eav[i as int] == pa.entries@[i as int]@);
        }
        match find_entry_idx(&pb.entries, e.name.as_slice()) {
            Option::None => {
                diffs.push(EntryDiff::OnlyInLeft {
                    name: slice_to_vec(e.name.as_slice()),
                    value: slice_to_vec(e.value.as_slice()),
                });
            },
            Option::Some(j) => {
                if !bytes_eq(e.value.as_slice(), pb.entries[j].value.as_slice()) {
                    diffs.push(EntryDiff::ValueDiffers {
                        name: slice_to_vec(e.name.as_slice()),
                        left: slice_to_vec(e.value.as_slice()),
                        right: slice_to_vec(pb.entries[j].value.as_slice()),
                    });
                }
            },
        }
        proof {
            let pre = eav.subrange(0, i as int);
            let post = eav.subrange(0, i + 1 as int);
            assert(post.drop_last() =~= pre);
            assert(post.last() == eav[i as int]);
            assert_seqs_equal!(entry_diffs_view(diffs@), entry_diffs_left(post, ebv));
        }
        i = i + 1;
    }
    proof {
        assert(eav.subrange(0, eav.len() as int) =~= eav);
        assert_seqs_equal!(
            entry_diffs_view(diffs@),
            entry_diffs_left(eav, ebv) + entry_diffs_right(eav, ebv.subrange(0, 0))
        );
    }
    let mut k: usize = 0;
    while k < pb.entries.len()
        invariant
            k <= pb.entries@.len(),
            eav == pa@.entries,
            ebv == pb@.entries,
            ebv.len() == pb.entries@.len(),
            entry_diffs_view(diffs@) == entry_diffs_left(eav, ebv)
                + entry_diffs_right(eav, ebv.subrange(0, k as int)),
        decreases pb.entries@.len() - k,
    {
        let e = &pb.entries[k];
        proof {
            assert(ebv[k as int] == pb.entries@[k as int]@);
        }
        match find_entry_idx(&pa.entries, e.name.as_slice()) {
            Option::None => {
                diffs.push(EntryDiff::OnlyInRight {
                    name: slice_to_vec(e.name.as_slice()),
                    value: slice_to_vec(e.value.as_slice()),
                });
            },
            Option::Some(_) => {},
        }
        proof {
            let pre = ebv.subrange(0, k as int);
            let post = ebv.subrange(0, k + 1 as int);
            assert(post.drop_last() =~= pre);
            assert(post.last() == ebv[k as int]);
            let seg = (if find_entry(eav, ebv[k as int].name) is None {
                seq![
                    EntryDiffView::OnlyInRight {
                        name: ebv[k as int].name,
                        value: ebv[k as int].value,
                    },
                ]
            } else {
                Seq::<EntryDiffView>::empty()
            });
            assert(entry_diffs_right(eav, post) == entry_diffs_right(eav, pre) + seg);
            assert_seqs_equal!(
                entry_diffs_left(eav, ebv) + (entry_diffs_right(eav, pre) + seg),
                (entry_diffs_left(eav, ebv) + entry_diffs_right(eav, pre)) + seg
            );
            assert_seqs_equal!(
                entry_diffs_view(diffs@),
                (entry_diffs_left(eav, ebv) + entry_diffs_right(eav, pre)) + seg
            );
            assert(entry_diffs_view(diffs@) == entry_diffs_left(eav, ebv)
                + entry_diffs_right(eav, post));
        }
        k = k + 1;
    }
    proof {
        assert(ebv.subrange(0, ebv.len() as int) =~= ebv);
    }
    diffs
}

/// Compute the structural difference of two snapshots.
///
/// The first component classifies the pallet names present on one side
/// only: the left snapshot's absentees as removed, in left order, then the
/// right snapshot's as added, in right order. The second component holds,
/// for every pallet common to both sides and in left order, the entry-level
/// differences of that pallet; pallets whose entries agree are omitted.
pub fn diff_storage(a: &StorageSnapshot, b: &StorageSnapshot) -> (r: (
    Vec<PalletDiff>,
    Vec<PalletEntryDiffs>,
))
    ensures
        pallet_diffs_view(r.0@) == removed_pallets(a@, b@) + added_pallets(a@, b@),
        pallet_entry_diffs_view(r.1@) == pallet_entry_diffs(a@, b@),
{
    let ghost av = a@;
    let ghost bv = b@;
    let mut pallets_diff: Vec<PalletDiff> = Vec::new();
    proof {
        assert_seqs_equal!(
            pallet_diffs_view(pallets_diff@),
            removed_pallets(av.subrange(0, 0), bv)
        );
    }
    let mut i: usize = 0;
    while i < a.pallets.len()
        invariant
            i <= a.pallets@.len(),
            av == a@,
            bv == b@,
            av.len() == a.pallets@.len(),
            pallet_diffs_view(pallets_diff@) == removed_pallets(av.subrange(0, i as int), bv),
        decreases a.pallets@.len() - i,
    {
        proof {
            assert(av[i as int] == a.pallets@[i as int]@);
        }
        match find_pallet_idx(&b.pallets, a.pallets[i].name.as_slice()) {
            Option::None => {
                pallets_diff.push(PalletDiff::Removed(slice_to_vec(a.pallets[i].name.as_slice())));
            },
            Option::Some(_) => {},
        }
        proof {
            let pre = av.subrange(0, i as int);
            let post = av.subrange(0, i + 1 as int);
            assert(post.drop_last() =~= pre);
            assert(post.last() == av[i as int]);
            assert_seqs_equal!(pallet_diffs_view(pallets_diff@), removed_pallets(post, bv));
        }
        i = i + 1;
    }
    proof {
        assert(av.subrange(0, av.len() as int) =~= av);
        assert_seqs_equal!(
            pallet_diffs_view(pallets_diff@),
            removed_pallets(av, bv) + added_pallets(av, bv.subrange(0, 0))
        );
    }
    let mut j: usize = 0;
    while j < b.pallets.len()
        invariant
            j <= b.pallets@.len(),
            av == a@,
            bv == b@,
            bv.len() == b.pallets@.len(),
            pallet_diffs_view(pallets_diff@) == removed_pallets(av, bv)
                + added_pallets(av, bv.subrange(0, j as int)),
        decreases b.pallets@.len() - j,
    {
        proof {
            assert(bv[j as int] == b.pallets@[j as int]@);
        }
        match find_pallet_idx(&a.pallets, b.pallets[j].name.as_slice()) {
            Option::None => {
                pallets_diff.push(PalletDiff::Added(slice_to_vec(b.pallets[j].name.as_slice())));
            },
            Option::Some(_) => {},
        }
        proof {
            let pre = bv.subrange(0, j as int);
            let post = bv.subrange(0, j + 1 as int);
            assert(post.drop_last() =~= pre);
            assert(post.last() == bv[j as int]);
            let seg = (if find_pallet(av, bv[j as int].name) is None {
                seq![PalletDiffView::Added(bv[j as int].name)]
            } else {
                Seq::<PalletDiffView>::empty()
            });
            assert(added_pallets(av, post) == added_pallets(av, pre) + seg);
            assert_seqs_equal!(
                removed_pallets(av, bv) + (added_pallets(av, pre) + seg),
                (removed_pallets(av, bv) + added_pallets(av, pre)) + seg
            );
            assert_seqs_equal!(
                pallet_diffs_view(pallets_diff@),
                (removed_pallets(av, bv) + added_pallets(av, pre)) + seg
            );
            assert(pallet_diffs_view(pallets_diff@) == removed_pallets(av, bv)
                + added_pallets(av, post));
        }
        j = j + 1;
    }
    proof {
        assert(bv.subrange(0, bv.len() as int) =~= bv);
    }

    let mut entries_diffs: Vec<PalletEntryDiffs> = Vec::new();
    proof {
        assert_seqs_equal!(
            pallet_entry_diffs_view(entries_diffs@),
            pallet_entry_diffs(av.subrange(0, 0), bv)
        );
    }
    let mut k: usize = 0;
    while k < a.pallets.len()
        invariant
            k <= a.pallets@.len(),
            av == a@,
            bv == b@,
            av.len() == a.pallets@.len(),
            pallet_diffs_view(pallets_diff@) == removed_pallets(av, bv) + added_pallets(av, bv),
            pallet_entry_diffs_view(entries_diffs@) == pallet_entry_diffs(
                av.subrange(0, k as int),
                bv,
            ),
        decreases a.pallets@.len() - k,
    {
        proof {
            assert(av[k as int] == a.pallets@[k as int]@);
        }
        match find_pallet_idx(&b.pallets, a.pallets[k].name.as_slice()) {
            Option::Some(bj) => {
                let diffs = diff_entries(&a.pallets[k], &b.pallets[bj]);
                if diffs.len() > 0 {
                    entries_diffs.push(PalletEntryDiffs {
                        pallet: slice_to_vec(a.pallets[k].name.as_slice()),
                        diffs,
                    });
                }
            },
            Option::None => {},
        }
        proof {
            let pre = av.subrange(0, k as int);
            let post = av.subrange(0, k + 1 as int);
            assert(post.drop_last() =~= pre);
            assert(post.last() == av[k as int]);
            assert_seqs_equal!(
                pallet_entry_diffs_view(entries_diffs@),
                pallet_entry_diffs(post, bv)
            );
        }
        k = k + 1;
    }
    proof {
        assert(av.subrange(0, av.len() as int) =~= av);
    }
    (pallets_diff, entries_diffs)
}


/// No two pallets of the snapshot share a name.
pub open spec fn distinct_pallet_names(s: Seq<PalletStorageView>) -> bool {
    forall|i: int, j: int| 0 <= i < j < s.len() ==> s[i].name != s[j].name
}

/// No two entries of the list share a name.
pub open spec fn distinct_entry_names(es: Seq<StorageEntryView>) -> bool {
    forall|i: int, j: int| 0 <= i < j < es.len() ==> es[i].name != es[j].name
}

/// A decoder-shaped snapshot: pallet names unique, and entry names unique
/// within each pallet.
pub open spec fn wf_snapshot(s: Seq<PalletStorageView>) -> bool {
    distinct_pallet_names(s) && (forall|i: int|
        0 <= i < s.len() ==> distinct_entry_names(s[i].entries))
}

/// With unique pallet names, looking a pallet's own name up finds exactly
/// that pallet.
proof fn lemma_find_pallet_is(s: Seq<PalletStorageView>, i: int)
    requires
        distinct_pallet_names(s),
        0 <= i < s.len(),
    ensures
        find_pallet(s, s[i].name) == Some(s[i]),
    decreases s.len(),
{
    if i == 0 {
    } else {
        assert(s[0].name != s[i].name);
        let t = s.drop_first();
        assert(forall|m: int, n: int| 0 <= m < n < t.len() ==> t[m].name != t[n].name);
        lemma_find_pallet_is(t, i - 1);
        assert(t[i - 1] == s[i]);
    }
}

/// With unique entry names, looking an entry's own name up finds exactly
/// that entry.
proof fn lemma_find_entry_is(es: Seq<StorageEntryView>, i: int)
    requires
        distinct_entry_names(es),
        0 <= i < es.len(),
    ensures
        find_entry(es, es[i].name) == Some(es[i]),
    decreases es.len(),
{
    if i == 0 {
    } else {
        assert(es[0].name != es[i].name);
        let t = es.drop_first();
        assert(forall|m: int, n: int| 0 <= m < n < t.len() ==> t[m].name != t[n].name);
        lemma_find_entry_is(t, i - 1);
        assert(t[i - 1] == es[i]);
    }
}

/// When every left pallet name occurs on the right, nothing is removed.
proof fn lemma_removed_empty(a: Seq<PalletStorageView>, b: Seq<PalletStorageView>)
    requires
        forall|i: int| 0 <= i < a.len() ==> find_pallet(b, a[i].name) is Some,
    ensures
        removed_pallets(a, b).len() == 0,
    decreases a.len(),
{
    if a.len() > 0 {
        let pre = a.drop_last();
        assert(forall|i: int| 0 <= i < pre.len() ==> pre[i] == a[i]);
        lemma_removed_empty(pre, b);
        assert(a.last() == a[a.len() - 1]);
    }
}

/// When every right pallet name occurs on the left, nothing is added.
proof fn lemma_added_empty(a: Seq<PalletStorageView>, b: Seq<PalletStorageView>)
    requires
        forall|j: int| 0 <= j < b.len() ==> find_pallet(a, b[j].name) is Some,
    ensures
        added_pallets(a, b).len() == 0,
    decreases b.len(),
{
    if b.len() > 0 {
        let pre = b.drop_last();
        assert(forall|j: int| 0 <= j < pre.len() ==> pre[j] == b[j]);
        lemma_added_empty(a, pre);
        assert(b.last() == b[b.len() - 1]);
    }
}

/// When every left entry is found on the right bearing the same value, the
/// left-driven pass reports nothing.
proof fn lemma_entry_left_empty(ea: Seq<StorageEntryView>, eb: Seq<StorageEntryView>)
    requires
        forall|k: int| 0 <= k < ea.len() ==> find_entry(eb, ea[k].name) is Some
            && find_entry(eb, ea[k].name)->Some_0.value == ea[k].value,
    ensures
        entry_diffs_left(ea, eb).len() == 0,
    decreases ea.len(),
{
    if ea.len() > 0 {
        let pre = ea.drop_last();
        assert(forall|k: int| 0 <= k < pre.len() ==> pre[k] == ea[k]);
        lemma_entry_left_empty(pre, eb);
        assert(ea.last() == ea[ea.len() - 1]);
    }
}

/// When every right entry name occurs on the left, the right-driven pass
/// reports nothing.
proof fn lemma_entry_right_empty(ea: Seq<StorageEntryView>, eb: Seq<StorageEntryView>)
    requires
        forall|k: int| 0 <= k < eb.len() ==> find_entry(ea, eb[k].name) is Some,
    ensures
        entry_diffs_right(ea, eb).len() == 0,
    decreases eb.len(),
{
    if eb.len() > 0 {
        let pre = eb.drop_last();
        assert(forall|k: int| 0 <= k < pre.len() ==> pre[k] == eb[k]);
        lemma_entry_right_empty(ea, pre);
        assert(eb.last() == eb[eb.len() - 1]);
    }
}

/// A pallet with unique entry names has no entry-level difference with
/// itself.
pub proof fn lemma_entry_diffs_self(es: Seq<StorageEntryView>)
    requires
        distinct_entry_names(es),
    ensures
        entry_diffs_left(es, es).len() == 0,
        entry_diffs_right(es, es).len() == 0,
    decreases es.len(),
{
    assert forall|k: int| 0 <= k < es.len() implies find_entry(es, es[k].name) is Some
        && find_entry(es, es[k].name)->Some_0.value == es[k].value by {
        lemma_find_entry_is(es, k);
    }
    lemma_entry_left_empty(es, es);
    lemma_entry_right_empty(es, es);
}

/// When every left pallet is found on the right with no entry-level
/// difference, the per-pallet mapping is empty.
proof fn lemma_ped_empty(a: Seq<PalletStorageView>, b: Seq<PalletStorageView>)
    requires
        forall|i: int| 0 <= i < a.len() ==> find_pallet(b, a[i].name) is Some
            && entry_diffs(a[i], find_pallet(b, a[i].name)->Some_0).len() == 0,
    ensures
        pallet_entry_diffs(a, b).len() == 0,
    decreases a.len(),
{
    if a.len() > 0 {
        let pre = a.drop_last();
        assert(forall|i: int| 0 <= i < pre.len() ==> pre[i] == a[i]);
        lemma_ped_empty(pre, b);
        assert(a.last() == a[a.len() - 1]);
    }
}

/// Two identical well-formed snapshots diff to nothing: no removed or
/// added pallet, and an empty per-pallet entry mapping.
pub proof fn lemma_diff_storage_identical(s: Seq<PalletStorageView>)
    requires
        wf_snapshot(s),
    ensures
        removed_pallets(s, s).len() == 0,
        added_pallets(s, s).len() == 0,
        pallet_entry_diffs(s, s).len() == 0,
{
    assert forall|i: int| 0 <= i < s.len() implies find_pallet(s, s[i].name) is Some
        && entry_diffs(s[i], find_pallet(s, s[i].name)->Some_0).len() == 0 by {
        lemma_find_pallet_is(s, i);
        lemma_entry_diffs_self(s[i].entries);
    }
    lemma_removed_empty(s, s);
    lemma_added_empty(s, s);
    lemma_ped_empty(s, s);
}

/// A pallet the left snapshot holds and the right one lacks is reported
/// as removed.
proof fn lemma_removed_contains(a: Seq<PalletStorageView>, b: Seq<PalletStorageView>, n: Seq<u8>)
    requires
        exists|i: int| 0 <= i < a.len() && a[i].name == n,
        find_pallet(b, n) is None,
    ensures
        exists|k: int| 0 <= k < removed_pallets(a, b).len()
            && removed_pallets(a, b)[k] == PalletDiffView::Removed(n),
    decreases a.len(),
{
    let i = choose|i: int| 0 <= i < a.len() && a[i].name == n;
    let pre = a.drop_last();
    if a.last().name == n {
        let k = removed_pallets(pre, b).len() as int;
        assert(removed_pallets(a, b)[k] == PalletDiffView::Removed(n));
    } else {
        assert(i < a.len() - 1);
        assert(pre[i] == a[i]);
        lemma_removed_contains(pre, b, n);
        let k = choose|k: int| 0 <= k < removed_pallets(pre, b).len()
            && removed_pallets(pre, b)[k] == PalletDiffView::Removed(n);
        assert(removed_pallets(a, b)[k] == PalletDiffView::Removed(n));
    }
}

/// No per-pallet entry diffs are emitted under the name of a pallet the
/// right snapshot lacks.
proof fn lemma_ped_no_absent(a: Seq<PalletStorageView>, b: Seq<PalletStorageView>, n: Seq<u8>)
    requires
        find_pallet(b, n) is None,
    ensures
        forall|k: int| 0 <= k < pallet_entry_diffs(a, b).len()
            ==> pallet_entry_diffs(a, b)[k].pallet != n,
    decreases a.len(),
{
    if a.len() > 0 {
        let pre = a.drop_last();
        lemma_ped_no_absent(pre, b, n);
        if find_pallet(b, a.last().name) is Some {
            assert(a.last().name != n);
        }
        assert(forall|k: int| 0 <= k < pallet_entry_diffs(pre, b).len()
            ==> pallet_entry_diffs(a, b)[k] == pallet_entry_diffs(pre, b)[k]);
    }
}

/// A pallet present in the left snapshot and missing from the right one is
/// reported as removed, and no entry diffs are emitted under its name.
pub proof fn lemma_missing_pallet_reported(
    a: Seq<PalletStorageView>,
    b: Seq<PalletStorageView>,
    n: Seq<u8>,
)
    requires
        exists|i: int| 0 <= i < a.len() && a[i].name == n,
        find_pallet(b, n) is None,
    ensures
        exists|k: int| 0 <= k < removed_pallets(a, b).len()
            && removed_pallets(a, b)[k] == PalletDiffView::Removed(n),
        forall|k: int| 0 <= k < pallet_entry_diffs(a, b).len()
            ==> pallet_entry_diffs(a, b)[k].pallet != n,
{
    lemma_removed_contains(a, b, n);
    lemma_ped_no_absent(a, b, n);
}

} // verus!
