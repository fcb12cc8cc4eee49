//! Choosing the patch to apply among the directories under `<cache_dir>/patches`.

use vstd::prelude::*;
use crate::order::{name_lt, name_less, lemma_bytes_lt_irreflexive, lemma_bytes_lt_transitive, lemma_bytes_lt_total};

verus! {

/// A directory under the patches directory, with what it holds.
#[derive(Debug)]
pub struct PatchDirInfo {
    /// The directory's name, which is also the patch number.
    pub name: String,
    /// The directory holds a `patch.bin`.
    pub has_bsdiff: bool,
    /// The directory holds a full `libapp.so`.
    pub has_full: bool,
}

/// A directory counts as a patch when it holds a bsdiff patch or a full library.
pub open spec fn is_patch(e: PatchDirInfo) -> bool {
    e.has_bsdiff || e.has_full
}

/// Among directories with the given names, of which those marked in `patch` are
/// patches, `i` is the one to apply: a patch, no patch has a greater name, and every
/// patch before it has a smaller one (of equal names the first is taken).
pub open spec fn latest_among(names: Seq<Seq<char>>, patch: Seq<bool>, i: int) -> bool {
    &&& 0 <= i < names.len()
    &&& names.len() == patch.len()
    &&& patch[i]
    &&& forall|j: int| 0 <= j < names.len() && #[trigger] patch[j] ==> !name_lt(names[i], names[j])
    &&& forall|j: int| 0 <= j < i && #[trigger] patch[j] ==> name_lt(names[j], names[i])
}

/// The names of the entries.
pub open spec fn entry_names(entries: Seq<PatchDirInfo>) -> Seq<Seq<char>> {
    entries.map_values(|e: PatchDirInfo| e.name@)
}

/// Which entries are patches.
pub open spec fn entry_patches(entries: Seq<PatchDirInfo>) -> Seq<bool> {
    entries.map_values(|e: PatchDirInfo| is_patch(e))
}

/// Entry `i` is the patch to apply (see [`latest_among`]).
pub open spec fn is_latest_patch(entries: Seq<PatchDirInfo>, i: int) -> bool {
    latest_among(entry_names(entries), entry_patches(entries), i)
}

/// Some entry is a patch.
pub open spec fn has_patch(entries: Seq<PatchDirInfo>) -> bool {
    exists|j: int| 0 <= j < entries.len() && is_patch(#[trigger] entries[j])
}

/// Finds the patch with the lexicographically greatest directory name.
pub fn find_latest_patch(entries: &Vec<PatchDirInfo>) -> (r: Option<usize>)
    ensures
        r is None <==> !has_patch(entries@),
        r matches Some(i) ==> is_latest_patch(entries@, i as int),
{
    let mut best: Option<usize> = None;
    let mut i: usize = 0;
    while i < entries.len()
        invariant
            i <= entries@.len(),
            best is None <==> forall|j: int| 0 <= j < i ==> !is_patch(#[trigger] entries@[j]),
            best matches Some(b) ==> {
                &&& b < i
                &&& is_patch(entries@[b as int])
                &&& forall|j: int|
                    0 <= j < i && is_patch(#[trigger] entries@[j])
                        ==> !name_lt(entries@[b as int].name@, entries@[j].name@)
                &&& forall|j: int|
                    0 <= j < b && is_patch(#[trigger] entries@[j])
                        ==> name_lt(entries@[j].name@, entries@[b as int].name@)
            },
        decreases entries@.len() - i,
    {
        let e = &entries[i];
        if e.has_bsdiff || e.has_full {
            match best {
                None => {
                    proof {
                        lemma_bytes_lt_irreflexive(vstd::utf8::encode_utf8(e.name@));
                    }
                    best = Some(i);
                }
                Some(b) => {
                    if name_less(entries[b].name.as_str(), e.name.as_str()) {
                        proof {
                            let old_name = entries@[b as int].name@;
                            let new_name = e.name@;
                            assert forall|j: int|
                                0 <= j < i + 1 && is_patch(#[trigger] entries@[j]) implies
                                !name_lt(new_name, entries@[j].name@) by {
                                let nj = entries@[j].name@;
                                if j == i {
                                    lemma_bytes_lt_irreflexive(
                                        vstd::utf8::encode_utf8(new_name),
                                    );
                                } else if name_lt(new_name, nj) {
                                    lemma_bytes_lt_transitive(
                                        vstd::utf8::encode_utf8(old_name),
                                        vstd::utf8::encode_utf8(new_name),
                                        vstd::utf8::encode_utf8(nj),
                                    );
                                }
                            }
                            assert forall|j: int|
                                0 <= j < i && is_patch(#[trigger] entries@[j]) implies
                                name_lt(entries@[j].name@, new_name) by {
                                let nj = entries@[j].name@;
                                lemma_bytes_lt_total(
                                    vstd::utf8::encode_utf8(nj),
                                    vstd::utf8::encode_utf8(old_name),
                                );
                                if name_lt(nj, old_name) {
                                    lemma_bytes_lt_transitive(
                                        vstd::utf8::encode_utf8(nj),
                                        vstd::utf8::encode_utf8(old_name),
                                        vstd::utf8::encode_utf8(new_name),
                                    );
                                } else {
                                    assert(vstd::utf8::encode_utf8(nj)
                                        =~= vstd::utf8::encode_utf8(old_name));
                                }
                            }
                        }
                        best = Some(i);
                    }
                }
            }
        }
        i = i + 1;
    }
    proof {
        if best is Some {
            let b = best->0 as int;
            let names = entry_names(entries@);
            let pats = entry_patches(entries@);
            assert forall|j: int| 0 <= j < names.len() && #[trigger] pats[j] implies
                !name_lt(names[b], names[j]) by {
                assert(is_patch(entries@[j]));
            }
            assert forall|j: int| 0 <= j < b && #[trigger] pats[j] implies
                name_lt(names[j], names[b]) by {
                assert(is_patch(entries@[j]));
            }
        }
    }
    best
}

} // verus!
