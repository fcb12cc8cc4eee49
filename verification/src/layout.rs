//! The files an update looks at: the probes of the patch directories and the places
//! where the app's own `libapp.so` may lie. Listed names and probed paths are held
//! as bytes, as Unix file names are.

use vstd::prelude::*;
use vstd::utf8::{decode_utf8, encode_utf8, valid_utf8};
use crate::paths::{join_path, join_path_bytes, libapp_of, libapp_path, patch_file, patch_file_of, path_join, path_join_bytes};
use crate::state::utf8_to_string;

verus! {

/// An entry of a directory listing.
#[derive(Debug)]
pub struct DirEntryInfo {
    /// The entry's file name, as bytes.
    pub name: Vec<u8>,
    /// The entry is a directory.
    pub is_dir: bool,
}

/// The texts of a sequence of strings.
pub open spec fn views(v: Seq<String>) -> Seq<Seq<char>> {
    v.map_values(|s: String| s@)
}

/// The contents of a sequence of byte strings.
pub open spec fn bviews(v: Seq<Vec<u8>>) -> Seq<Seq<u8>> {
    v.map_values(|b: Vec<u8>| b@)
}

/// The UTF-8 encodings of a sequence of texts.
pub open spec fn encoded(v: Seq<Seq<char>>) -> Seq<Seq<u8>> {
    v.map_values(|t: Seq<char>| encode_utf8(t))
}

/// The names, as text, of the listed directories whose names are valid UTF-8, in
/// listing order: the candidate patch directories.
pub open spec fn dir_names(listing: Seq<DirEntryInfo>) -> Seq<Seq<char>>
    decreases listing.len(),
{
    if listing.len() == 0 {
        seq![]
    } else {
        let e = listing.last();
        dir_names(listing.drop_last()) + if e.is_dir && valid_utf8(e.name@) {
            seq![decode_utf8(e.name@)]
        } else {
            seq![]
        }
    }
}

/// The names of all listed directories, in listing order.
pub open spec fn subdir_names(listing: Seq<DirEntryInfo>) -> Seq<Seq<u8>>
    decreases listing.len(),
{
    if listing.len() == 0 {
        seq![]
    } else {
        let e = listing.last();
        subdir_names(listing.drop_last()) + if e.is_dir {
            seq![e.name@]
        } else {
            seq![]
        }
    }
}

/// For each patch directory in turn, its `patch.bin` and then its `libapp.so`.
pub open spec fn patch_probe_paths(patches_dir: Seq<char>, names: Seq<Seq<char>>) -> Seq<Seq<char>> {
    Seq::new(
        2 * names.len(),
        |k: int|
            if k % 2 == 0 {
                patch_file_of(path_join(patches_dir, names[k / 2]))
            } else {
                libapp_of(path_join(patches_dir, names[k / 2]))
            },
    )
}

/// From the answers to [`patch_probe_paths`]: which directories are patches.
pub open spec fn probed_patches(flags: Seq<bool>) -> Seq<bool> {
    Seq::new(flags.len() / 2, |k: int| flags[2 * k] || flags[2 * k + 1])
}

/// `<dir>/libapp.so`, as bytes.
pub open spec fn libapp_of_bytes(dir: Seq<u8>) -> Seq<u8> {
    path_join_bytes(dir, encode_utf8("libapp.so"@))
}

/// `libapp.so` in each ABI directory under `dir`.
pub open spec fn abi_paths(dir: Seq<u8>) -> Seq<Seq<u8>> {
    seq![
        libapp_of_bytes(path_join_bytes(dir, encode_utf8("arm64-v8a"@))),
        libapp_of_bytes(path_join_bytes(dir, encode_utf8("arm64"@))),
        libapp_of_bytes(path_join_bytes(dir, encode_utf8("x86_64"@))),
        libapp_of_bytes(path_join_bytes(dir, encode_utf8("x86"@))),
        libapp_of_bytes(path_join_bytes(dir, encode_utf8("armeabi-v7a"@))),
    ]
}

/// Where the app's own `libapp.so` is looked for, in order: in the library directory,
/// in each of its subdirectories, in its ABI directories, and in the ABI directories
/// of its parent.
pub open spec fn base_candidates(
    libapp_dir: Seq<u8>,
    subdirs: Seq<Seq<u8>>,
    parent: Option<Seq<u8>>,
) -> Seq<Seq<u8>> {
    seq![libapp_of_bytes(libapp_dir)] + subdirs.map_values(
        |d: Seq<u8>| libapp_of_bytes(path_join_bytes(libapp_dir, d)),
    ) + abi_paths(libapp_dir) + match parent {
        Some(q) => abi_paths(q),
        None => seq![],
    }
}

/// `i` is the first index whose flag is set.
pub open spec fn first_true(flags: Seq<bool>, i: int) -> bool {
    &&& 0 <= i < flags.len()
    &&& flags[i]
    &&& forall|j: int| 0 <= j < i ==> !flags[j]
}

/// The text of an optional string.
pub open spec fn opt_view(o: Option<String>) -> Option<Seq<char>> {
    match o {
        Some(s) => Some(s@),
        None => None,
    }
}

/// The contents of an optional byte string.
pub open spec fn opt_bview(o: Option<Vec<u8>>) -> Option<Seq<u8>> {
    match o {
        Some(b) => Some(b@),
        None => None,
    }
}

/// What `std::path::Path::parent` gives for a path, as text.
pub uninterp spec fn parent_of(path: Seq<char>) -> Option<Seq<char>>;

/// The parent of a path, from `std::path::Path::parent`. Trusted: the result is
/// `parent_of(path)`.
#[verifier::external_body]
pub(crate) fn path_parent(path: &str) -> (r: Option<String>)
    ensures
        opt_view(r) == parent_of(path@),
{
    std::path::Path::new(path).parent().and_then(|q| q.to_str()).map(|q| q.to_owned())
}

/// The names of the candidate patch directories (see [`dir_names`]).
pub fn dir_names_of(listing: &Vec<DirEntryInfo>) -> (r: Vec<String>)
    ensures
        views(r@) == dir_names(listing@),
{
    let mut r: Vec<String> = Vec::new();
    let mut i: usize = 0;
    assert(listing@.take(0) =~= Seq::<DirEntryInfo>::empty());
    assert(views(r@) =~= Seq::<Seq<char>>::empty());
    while i < listing.len()
        invariant
            i <= listing@.len(),
            views(r@) == dir_names(listing@.take(i as int)),
        decreases listing@.len() - i,
    {
        let e = &listing[i];
        proof {
            assert(listing@.take(i + 1).drop_last() =~= listing@.take(i as int));
            assert(listing@.take(i + 1).last() == listing@[i as int]);
        }
        let decoded = if e.is_dir {
            utf8_to_string(e.name.as_slice())
        } else {
            None
        };
        match decoded {
            Some(n) => {
                let ghost before = r@;
                r.push(n);
                assert(views(r@) =~= views(before) + seq![decode_utf8(e.name@)]);
            },
            None => {
                assert(views(r@) =~= views(r@) + Seq::<Seq<char>>::empty());
            },
        }
        i = i + 1;
    }
    assert(listing@.take(listing@.len() as int) =~= listing@);
    r
}

/// The names of the listed directories (see [`subdir_names`]).
pub fn subdir_names_of(listing: &Vec<DirEntryInfo>) -> (r: Vec<Vec<u8>>)
    ensures
        bviews(r@) == subdir_names(listing@),
{
    let mut r: Vec<Vec<u8>> = Vec::new();
    let mut i: usize = 0;
    assert(listing@.take(0) =~= Seq::<DirEntryInfo>::empty());
    assert(bviews(r@) =~= Seq::<Seq<u8>>::empty());
    while i < listing.len()
        invariant
            i <= listing@.len(),
            bviews(r@) == subdir_names(listing@.take(i as int)),
        decreases listing@.len() - i,
    {
        let e = &listing[i];
        proof {
            assert(listing@.take(i + 1).drop_last() =~= listing@.take(i as int));
            assert(listing@.take(i + 1).last() == listing@[i as int]);
        }
        if e.is_dir {
            let ghost before = r@;
            r.push(vstd::slice::slice_to_vec(e.name.as_slice()));
            assert(bviews(r@) =~= bviews(before) + seq![e.name@]);
        } else {
            assert(bviews(r@) =~= bviews(r@) + Seq::<Seq<u8>>::empty());
        }
        i = i + 1;
    }
    assert(listing@.take(listing@.len() as int) =~= listing@);
    r
}

/// The bytes of a path.
pub fn path_bytes(path: &str) -> (r: Vec<u8>)
    ensures
        r@ == encode_utf8(path@),
{
    path.as_bytes_vec()
}

/// The probes of the patch directories (see [`patch_probe_paths`]), as bytes.
pub fn patch_probes(patches_dir: &str, names: &Vec<String>) -> (r: Vec<Vec<u8>>)
    ensures
        bviews(r@) == encoded(patch_probe_paths(patches_dir@, views(names@))),
{
    let mut r: Vec<Vec<u8>> = Vec::new();
    let mut i: usize = 0;
    while i < names.len()
        invariant
            i <= names@.len(),
            r@.len() == 2 * i,
            forall|k: int|
                0 <= k < 2 * i ==> #[trigger] r@[k]@ == encode_utf8(
                    patch_probe_paths(patches_dir@, views(names@))[k],
                ),
        decreases names@.len() - i,
    {
        let dir = join_path(patches_dir, names[i].as_str());
        r.push(path_bytes(patch_file(dir.as_str()).as_str()));
        r.push(path_bytes(libapp_path(dir.as_str()).as_str()));
        i = i + 1;
    }
    assert(bviews(r@) =~= encoded(patch_probe_paths(patches_dir@, views(names@))));
    r
}

/// `<dir>/libapp.so`, as bytes.
fn libapp_path_bytes(dir: &[u8]) -> (r: Vec<u8>)
    ensures
        r@ == libapp_of_bytes(dir@),
{
    join_path_bytes(dir, "libapp.so".as_bytes())
}

/// `libapp.so` in the ABI directory `abi` under `dir`.
fn abi_path(dir: &[u8], abi: &str) -> (r: Vec<u8>)
    ensures
        r@ == libapp_of_bytes(path_join_bytes(dir@, encode_utf8(abi@))),
{
    libapp_path_bytes(join_path_bytes(dir, abi.as_bytes()).as_slice())
}

/// Appends `libapp.so` in each ABI directory under `dir` (see [`abi_paths`]).
fn push_abi_paths(dir: &[u8], out: &mut Vec<Vec<u8>>)
    ensures
        bviews(final(out)@) == bviews(old(out)@) + abi_paths(dir@),
{
    out.push(abi_path(dir, "arm64-v8a"));
    out.push(abi_path(dir, "arm64"));
    out.push(abi_path(dir, "x86_64"));
    out.push(abi_path(dir, "x86"));
    out.push(abi_path(dir, "armeabi-v7a"));
    assert(bviews(out@) =~= bviews(old(out)@) + abi_paths(dir@));
}

/// Where the app's own library is looked for (see [`base_candidates`]).
pub fn base_candidate_paths(
    libapp_dir: &[u8],
    subdirs: &Vec<Vec<u8>>,
    parent: &Option<Vec<u8>>,
) -> (r: Vec<Vec<u8>>)
    ensures
        bviews(r@) == base_candidates(libapp_dir@, bviews(subdirs@), opt_bview(*parent)),
{
    let mut r: Vec<Vec<u8>> = Vec::new();
    r.push(libapp_path_bytes(libapp_dir));
    let mut i: usize = 0;
    while i < subdirs.len()
        invariant
            i <= subdirs@.len(),
            bviews(r@) == seq![libapp_of_bytes(libapp_dir@)] + bviews(subdirs@).take(
                i as int,
            ).map_values(|d: Seq<u8>| libapp_of_bytes(path_join_bytes(libapp_dir@, d))),
        decreases subdirs@.len() - i,
    {
        let ghost before = r@;
        let sub = join_path_bytes(libapp_dir, subdirs[i].as_slice());
        r.push(libapp_path_bytes(sub.as_slice()));
        assert(bviews(subdirs@).take(i + 1) =~= bviews(subdirs@).take(i as int) + seq![
            subdirs@[i as int]@,
        ]);
        assert(bviews(r@) =~= bviews(before) + seq![
            libapp_of_bytes(path_join_bytes(libapp_dir@, subdirs@[i as int]@)),
        ]);
        assert(bviews(r@) =~= seq![libapp_of_bytes(libapp_dir@)] + bviews(subdirs@).take(
            i + 1,
        ).map_values(|d: Seq<u8>| libapp_of_bytes(path_join_bytes(libapp_dir@, d))));
        i = i + 1;
    }
    assert(bviews(subdirs@).take(subdirs@.len() as int) =~= bviews(subdirs@));
    push_abi_paths(libapp_dir, &mut r);
    match parent {
        Some(q) => {
            push_abi_paths(q.as_slice(), &mut r);
        },
        None => {
            assert(bviews(r@) =~= bviews(r@) + Seq::<Seq<u8>>::empty());
        },
    }
    r
}

/// The first index whose flag is set.
pub fn first_true_index(flags: &Vec<bool>) -> (r: Option<usize>)
    ensures
        r is None <==> forall|j: int| 0 <= j < flags@.len() ==> !flags@[j],
        r matches Some(i) ==> first_true(flags@, i as int),
{
    let mut i: usize = 0;
    while i < flags.len()
        invariant
            i <= flags@.len(),
            forall|j: int| 0 <= j < i ==> !flags@[j],
        decreases flags@.len() - i,
    {
        if flags[i] {
            return Some(i);
        }
        i = i + 1;
    }
    None
}

} // verus!
