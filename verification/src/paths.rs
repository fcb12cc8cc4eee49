//! Paths as strings, joined the way `std::path::PathBuf::push` joins them on Unix,
//! and the layout of the patch cache.

use vstd::prelude::*;

verus! {

/// `base` joined with `name`: an absolute `name` replaces `base`; otherwise a `/`
/// separates the two unless `base` is empty or already ends in one.
pub open spec fn path_join(base: Seq<char>, name: Seq<char>) -> Seq<char> {
    if name.len() > 0 && name[0] == '/' {
        name
    } else if base.len() == 0 || base.last() == '/' {
        base + name
    } else {
        base + seq!['/'] + name
    }
}

/// Joins `name` onto `base` (see [`path_join`]).
pub fn join_path(base: &str, name: &str) -> (r: String)
    ensures
        r@ == path_join(base@, name@),
{
    let name_len = name.unicode_len();
    if name_len > 0 && name.get_char(0) == '/' {
        return name.to_owned();
    }
    let base_len = base.unicode_len();
    let mut r = base.to_owned();
    if base_len > 0 && base.get_char(base_len - 1) != '/' {
        let sep = "/";
        proof {
            reveal_strlit("/");
        }
        r.append(sep);
    }
    r.append(name);
    r
}

/// [`path_join`] on paths held as bytes, as Unix file names are.
pub open spec fn path_join_bytes(base: Seq<u8>, name: Seq<u8>) -> Seq<u8> {
    if name.len() > 0 && name[0] == 0x2f {
        name
    } else if base.len() == 0 || base.last() == 0x2f {
        base + name
    } else {
        base + seq![0x2fu8] + name
    }
}

/// Joins `name` onto `base`, both held as bytes (see [`path_join_bytes`]).
pub fn join_path_bytes(base: &[u8], name: &[u8]) -> (r: Vec<u8>)
    ensures
        r@ == path_join_bytes(base@, name@),
{
    if name.len() > 0 && name[0] == 0x2f {
        return vstd::slice::slice_to_vec(name);
    }
    let mut r = vstd::slice::slice_to_vec(base);
    if base.len() > 0 && base[base.len() - 1] != 0x2f {
        r.push(0x2f);
    }
    let ghost start = r@;
    let mut i: usize = 0;
    while i < name.len()
        invariant
            i <= name@.len(),
            r@ == start + name@.take(i as int),
        decreases name@.len() - i,
    {
        r.push(name[i]);
        i = i + 1;
        assert(r@ =~= start + name@.take(i as int));
    }
    assert(name@.take(name@.len() as int) =~= name@);
    proof {
        if base@.len() > 0 && base@.last() != 0x2f {
            assert(start =~= base@ + seq![0x2fu8]);
            assert(r@ =~= base@ + seq![0x2fu8] + name@);
        }
    }
    r
}

/// `<cache_dir>/patches`: where the patches wait, one directory each.
pub open spec fn patches_dir_of(cache_dir: Seq<char>) -> Seq<char> {
    path_join(cache_dir, "patches"@)
}

/// `<patch_dir>/patch.bin`: a patch in bsdiff 4.x format.
pub open spec fn patch_file_of(patch_dir: Seq<char>) -> Seq<char> {
    path_join(patch_dir, "patch.bin"@)
}

/// `<dir>/libapp.so`: a complete library, in a patch directory or where the app keeps its own.
pub open spec fn libapp_of(dir: Seq<char>) -> Seq<char> {
    path_join(dir, "libapp.so"@)
}

/// `<patch_dir>/libapp.so.tmp`: the library being written, before it is renamed.
pub open spec fn tmp_output_of(patch_dir: Seq<char>) -> Seq<char> {
    path_join(patch_dir, "libapp.so.tmp"@)
}

/// The patches directory under a cache directory.
pub fn patches_dir(cache_dir: &str) -> (r: String)
    ensures
        r@ == patches_dir_of(cache_dir@),
{
    join_path(cache_dir, "patches")
}

/// The bsdiff patch file in a patch directory.
pub fn patch_file(patch_dir: &str) -> (r: String)
    ensures
        r@ == patch_file_of(patch_dir@),
{
    join_path(patch_dir, "patch.bin")
}

/// The library file in a directory.
pub fn libapp_path(dir: &str) -> (r: String)
    ensures
        r@ == libapp_of(dir@),
{
    join_path(dir, "libapp.so")
}

/// The temporary output file in a patch directory.
pub fn tmp_output(patch_dir: &str) -> (r: String)
    ensures
        r@ == tmp_output_of(patch_dir@),
{
    join_path(patch_dir, "libapp.so.tmp")
}

} // verus!
