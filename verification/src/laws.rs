//! Properties of the library that span its functions.

use vstd::prelude::*;
use vstd::utf8::{decode_utf8, encode_utf8, valid_utf8};
use crate::elf::{elf_check, ElfError};
use crate::layout::{base_candidates, dir_names, patch_probe_paths, probed_patches, subdir_names, DirEntryInfo};
use crate::order::{bytes_lt, lemma_bytes_lt_asymmetric, lemma_bytes_lt_total, name_lt};
use crate::patch::{bspatch_output, header_field, header_overflows, header_valid, le_value, made_from};
use crate::select::latest_among;
use crate::paths::{libapp_of, patch_file_of, patches_dir_of, path_join, path_join_bytes, tmp_output_of};
use crate::state::{nul_free, UpdaterState};
use crate::update::{
    full_of, outcome_code, phase_sel, state_after, tmp_of, Action, Event, Phase, UpdateError,
    UpdateMachine, UpdateOutcome,
};

verus! {

/// A patch made from `source` and `target` applies to `source` and gives `target`:
/// its header passes the check before applying, and the patcher's output is `target`.
pub proof fn law_patch_round_trip(source: Seq<u8>, target: Seq<u8>, patch: Seq<u8>)
    requires
        made_from(source, target, patch),
        patch.len() <= usize::MAX,
    ensures
        !header_overflows(patch),
        header_valid(patch),
        bspatch_output(source, patch) == Some(target),
{
}

/// A failed update leaves the updater's state as it was and returns 1.
pub proof fn law_failed_update_changes_nothing(s: UpdaterState, s2: UpdaterState, error: UpdateError)
    requires
        state_after(s, s2, UpdateOutcome::Failed(error)),
    ensures
        s2 == s,
        outcome_code(UpdateOutcome::Failed(error)) == 1,
{
}

/// Without a patches directory an update ends at once, returns 0 and leaves the
/// state as it was.
pub proof fn law_no_patches_dir_changes_nothing(
    m: UpdateMachine,
    p2: Phase,
    a: Action,
    s: UpdaterState,
    s2: UpdaterState,
)
    requires
        m.phase is PatchesDir,
        m.next(Event::Flag(false), p2, a),
        a matches Action::Finish(o) && state_after(s, s2, o),
    ensures
        a matches Action::Finish(o) && o is NoPatch && outcome_code(o) == 0,
        s2 == s,
{
}

/// The patch an update applies is the one with the greatest name among the patch
/// directories it found, and the library then to load is that patch's `libapp.so`.
pub proof fn law_applied_patch_is_latest(m: UpdateMachine, e: Event, p2: Phase, a: Action)
    requires
        m.wf(),
        m.next(e, p2, a),
        a matches Action::Finish(UpdateOutcome::Applied { .. }),
    ensures
        a matches Action::Finish(UpdateOutcome::Applied { patch_number, active_path }) && {
            &&& active_path@ == full_of(patches_dir_of(m.cache_dir@), patch_number@)
            &&& m.selected(patch_number@)
        },
{
}

/// The library that an update installs is never written in place: data is only
/// written or copied to the temporary file, which a rename then moves to
/// `libapp.so`.
pub proof fn law_library_installed_by_rename(m: UpdateMachine, e: Event, p2: Phase, a: Action)
    requires
        m.wf(),
        m.next(e, p2, a),
    ensures
        a matches Action::WriteFile { path, .. } ==> {
            &&& phase_sel(m.phase) is Some
            &&& path@ == tmp_of(m.patches_dir@, phase_sel(m.phase).unwrap())
        },
        a matches Action::CopyFile { to, .. } ==> {
            &&& phase_sel(m.phase) is Some
            &&& to@ == tmp_of(m.patches_dir@, phase_sel(m.phase).unwrap())
        },
        a matches Action::Rename { from, to } ==> {
            &&& phase_sel(m.phase) is Some
            &&& from@ == tmp_of(m.patches_dir@, phase_sel(m.phase).unwrap())
            &&& to@ == full_of(m.patches_dir@, phase_sel(m.phase).unwrap())
        },
{
}

/// A patch whose header is not that of a bsdiff file makes the update fail: the
/// temporary file is removed, and the update then ends with the failure.
pub proof fn law_corrupt_patch_fails(m: UpdateMachine, patch: Vec<u8>, p2: Phase, a: Action)
    requires
        m.phase is PatchRead,
        !header_valid(patch@),
        m.next(Event::Read(Ok(patch)), p2, a),
    ensures
        p2 matches Phase::RemoveTmp { error, .. } && (error is PatchCorrupt || (error matches UpdateError::Patch(pe) && pe is Parse)),
        a matches Action::RemoveFile(t) && t@ == tmp_of(m.patches_dir@, phase_sel(m.phase).unwrap()),
{
}

/// The machine `m` in phase `p`.
pub open spec fn with_phase(m: UpdateMachine, p: Phase) -> UpdateMachine {
    UpdateMachine {
        cache_dir: m.cache_dir,
        libapp_dir: m.libapp_dir,
        patches_dir: m.patches_dir,
        phase: p,
        seen_names: m.seen_names,
        seen_patches: m.seen_patches,
    }
}

/// The files after copying `from` to `to`.
pub open spec fn copy_file(files: Map<Seq<char>, Seq<u8>>, from: Seq<char>, to: Seq<char>) -> Map<
    Seq<char>,
    Seq<u8>,
> {
    files.insert(to, files[from])
}

/// The files after renaming `from` to `to`, replacing `to`.
pub open spec fn rename_file(files: Map<Seq<char>, Seq<u8>>, from: Seq<char>, to: Seq<char>) -> Map<
    Seq<char>,
    Seq<u8>,
> {
    files.remove(from).insert(to, files[from])
}

/// Of the patch directories found, only one is the latest.
pub proof fn law_latest_patch_is_unique(names: Seq<Seq<char>>, patch: Seq<bool>, i: int, j: int)
    requires
        latest_among(names, patch, i),
        latest_among(names, patch, j),
    ensures
        i == j,
{
    if i < j {
        assert(name_lt(names[i], names[j]));
        assert(!name_lt(names[i], names[j]));
    } else if j < i {
        assert(name_lt(names[j], names[i]));
        assert(!name_lt(names[j], names[i]));
    }
}

/// Probing the same patch directories with the same answers chooses the same patch.
pub proof fn law_same_answers_choose_same_patch(
    m: UpdateMachine,
    flags: Vec<bool>,
    p2: Phase,
    a2: Action,
    q2: Phase,
    b2: Action,
)
    requires
        m.phase is PatchesProbe,
        m.next(Event::Probed(flags), p2, a2),
        m.next(Event::Probed(flags), q2, b2),
    ensures
        phase_sel(p2) == phase_sel(q2),
{
    match m.phase {
        Phase::PatchesProbe { names } => {
            let vn = crate::layout::views(names@);
            let vp = crate::layout::probed_patches(flags@);
            if p2 is FullExists && q2 is FullExists {
                let i = choose|i: int|
                    #![trigger vn[i]]
                    {
                        &&& latest_among(vn, vp, i)
                        &&& p2 matches Phase::FullExists { sel } && sel@ == vn[i]
                        &&& a2 matches Action::Exists(q) && q@ == full_of(m.patches_dir@, vn[i])
                    };
                let j = choose|j: int|
                    #![trigger vn[j]]
                    {
                        &&& latest_among(vn, vp, j)
                        &&& q2 matches Phase::FullExists { sel } && sel@ == vn[j]
                        &&& b2 matches Action::Exists(q) && q@ == full_of(m.patches_dir@, vn[j])
                    };
                law_latest_patch_is_unique(vn, vp, i, j);
            }
        },
        _ => {},
    }
}

/// Updating again to a patch whose full library is already installed and active
/// changes nothing: the library is read and checked, copied to `libapp.so.tmp` and
/// renamed back, which leaves the files as they were and no temporary file; the
/// update returns 0 and the state keeps its active path and patch number.
pub proof fn law_reinstalling_full_library_changes_nothing(
    m: UpdateMachine,
    sel: Seq<char>,
    p1: Phase,
    a1: Action,
    b: Vec<u8>,
    p2: Phase,
    a2: Action,
    p3: Phase,
    a3: Action,
    p4: Phase,
    a4: Action,
    files: Map<Seq<char>, Seq<u8>>,
    s: UpdaterState,
    s2: UpdaterState,
)
    requires
        m.phase matches Phase::FullExists { sel: s0 } && s0@ == sel,
        m.next(Event::Flag(true), p1, a1),
        with_phase(m, p1).next(Event::Read(Ok(b)), p2, a2),
        elf_check(b@) is Ok,
        with_phase(m, p2).next(Event::Done(Ok(())), p3, a3),
        with_phase(m, p3).next(Event::Done(Ok(())), p4, a4),
        files.contains_key(full_of(m.patches_dir@, sel)),
        !files.contains_key(tmp_of(m.patches_dir@, sel)),
        s.active_path@ == full_of(m.patches_dir@, sel),
        s.active_patch_number matches Some(n) && n@ == sel,
        a4 matches Action::Finish(o) && state_after(s, s2, o),
    ensures
        a2 matches Action::CopyFile { from, to } && from@ == full_of(m.patches_dir@, sel) && to@
            == tmp_of(m.patches_dir@, sel),
        a3 matches Action::Rename { from, to } && from@ == tmp_of(m.patches_dir@, sel) && to@
            == full_of(m.patches_dir@, sel),
        rename_file(
            copy_file(files, full_of(m.patches_dir@, sel), tmp_of(m.patches_dir@, sel)),
            tmp_of(m.patches_dir@, sel),
            full_of(m.patches_dir@, sel),
        ) == files,
        a4 matches Action::Finish(o) && outcome_code(o) == 0,
        s2.active_path@ == s.active_path@,
        s2.active_patch_number matches Some(n) && n@ == sel,
        s2.cache_dir == s.cache_dir,
        s2.libapp_dir == s.libapp_dir,
        s2.release_version == s.release_version,
{
    let full = full_of(m.patches_dir@, sel);
    let tmp = tmp_of(m.patches_dir@, sel);
    reveal_strlit("libapp.so");
    reveal_strlit("libapp.so.tmp");
    let d = crate::update::dir_of(m.patches_dir@, sel);
    assert(full != tmp) by {
        if d.len() == 0 || d.last() == '/' {
            assert(full.len() == d.len() + 9);
            assert(tmp.len() == d.len() + 13);
        } else {
            assert(full.len() == d.len() + 10);
            assert(tmp.len() == d.len() + 14);
        }
    }
    assert(rename_file(copy_file(files, full, tmp), tmp, full) =~= files);
}

/// Two byte strings that agree on their first `i` bytes and differ at byte `i` are
/// ordered as those two bytes are, compared as numbers.
pub proof fn law_byte_order_at_first_difference(a: Seq<u8>, b: Seq<u8>, i: int)
    requires
        0 <= i < a.len(),
        i < b.len(),
        a.take(i) == b.take(i),
        a[i] != b[i],
    ensures
        bytes_lt(a, b) <==> a[i] < b[i],
    decreases i,
{
    if i > 0 {
        assert(a[0] == a.take(i)[0]);
        assert(b[0] == b.take(i)[0]);
        assert(a.drop_first().take(i - 1) =~= a.take(i).drop_first());
        assert(b.drop_first().take(i - 1) =~= b.take(i).drop_first());
        law_byte_order_at_first_difference(a.drop_first(), b.drop_first(), i - 1);
    }
}

/// A string sorts before every longer string that it begins, and never after a
/// string that begins it.
pub proof fn law_byte_order_prefix(a: Seq<u8>, b: Seq<u8>)
    requires
        a.len() <= b.len(),
        b.take(a.len() as int) == a,
    ensures
        bytes_lt(a, b) <==> a.len() < b.len(),
        !bytes_lt(b, a),
    decreases a.len(),
{
    if a.len() > 0 {
        assert(b[0] == b.take(a.len() as int)[0]);
        assert(b.drop_first().take(a.len() - 1) =~= b.take(a.len() as int).drop_first());
        law_byte_order_prefix(a.drop_first(), b.drop_first());
    }
}

/// Names compare as Rust compares strings: by their UTF-8 bytes, at the first byte
/// where they differ.
pub proof fn law_name_order_is_string_order(a: Seq<char>, b: Seq<char>, i: int)
    requires
        0 <= i < encode_utf8(a).len(),
        i < encode_utf8(b).len(),
        encode_utf8(a).take(i) == encode_utf8(b).take(i),
        encode_utf8(a)[i] != encode_utf8(b)[i],
    ensures
        name_lt(a, b) <==> encode_utf8(a)[i] < encode_utf8(b)[i],
{
    law_byte_order_at_first_difference(encode_utf8(a), encode_utf8(b), i);
}

/// A file passes the ELF check exactly when it has at least four bytes and they
/// begin `0x7f 'E' 'L' 'F'`; it is then accepted with its length, whatever follows
/// the magic. Fewer than four bytes are too small; otherwise the magic is wrong.
pub proof fn law_elf_check_is_the_magic(b: Seq<u8>)
    requires
        b.len() <= u64::MAX,
    ensures
        elf_check(b) is Ok <==> (b.len() >= 4 && b[0] == 0x7f && b[1] == 0x45 && b[2] == 0x4c
            && b[3] == 0x46),
        elf_check(b) matches Ok(n) ==> n == b.len(),
        elf_check(b) == Err::<u64, ElfError>(ElfError::TooSmall) <==> b.len() < 4,
{
}

/// Only the first four bytes decide the ELF check: files with the same first four
/// bytes are accepted or refused alike.
pub proof fn law_elf_check_ignores_the_rest(head: Seq<u8>, rest1: Seq<u8>, rest2: Seq<u8>)
    requires
        head.len() == 4,
    ensures
        (elf_check(head + rest1) is Ok) == (elf_check(head + rest2) is Ok),
{
    assert((head + rest1)[0] == head[0] && (head + rest2)[0] == head[0]);
    assert((head + rest1)[1] == head[1] && (head + rest2)[1] == head[1]);
    assert((head + rest1)[2] == head[2] && (head + rest2)[2] == head[2]);
    assert((head + rest1)[3] == head[3] && (head + rest2)[3] == head[3]);
}

/// A text can be handed out as a C string exactly when no byte of its UTF-8
/// encoding is 0.
pub proof fn law_nul_free_is_no_zero_byte(s: Seq<char>)
    ensures
        nul_free(s) <==> forall|i: int| 0 <= i < encode_utf8(s).len() ==> encode_utf8(s)[i] != 0u8,
{
    if !nul_free(s) {
        let i = choose|i: int| 0 <= i < encode_utf8(s).len() && encode_utf8(s)[i] == 0u8;
        assert(encode_utf8(s)[i] == 0u8);
    }
}

/// Every listed directory whose name is UTF-8 is a candidate patch directory.
pub proof fn law_every_utf8_directory_is_a_candidate(listing: Seq<DirEntryInfo>, k: int)
    requires
        0 <= k < listing.len(),
        listing[k].is_dir,
        valid_utf8(listing[k].name@),
    ensures
        dir_names(listing).contains(decode_utf8(listing[k].name@)),
    decreases listing.len(),
{
    let rest = listing.drop_last();
    let d = dir_names(rest);
    if k == listing.len() - 1 {
        assert(dir_names(listing)[d.len() as int] == decode_utf8(listing[k].name@));
    } else {
        law_every_utf8_directory_is_a_candidate(rest, k);
        let j = choose|j: int| 0 <= j < d.len() && d[j] == decode_utf8(listing[k].name@);
        assert(dir_names(listing)[j] == d[j]);
    }
}

/// The candidate patch directories are the listed directories with UTF-8 names,
/// all of them, each once, in listing order.
pub proof fn law_candidates_are_the_utf8_directories(listing: Seq<DirEntryInfo>)
    ensures
        dir_names(listing) == listing.filter(|e: DirEntryInfo| e.is_dir && valid_utf8(e.name@)).map_values(
            |e: DirEntryInfo| decode_utf8(e.name@),
        ),
    decreases listing.len(),
{
    if listing.len() > 0 {
        let rest = listing.drop_last();
        law_candidates_are_the_utf8_directories(rest);
        let p = |e: DirEntryInfo| e.is_dir && valid_utf8(e.name@);
        let g = |e: DirEntryInfo| decode_utf8(e.name@);
        let f = rest.filter(p);
        assert(dir_names(rest) == f.map_values(g));
        reveal(Seq::filter);
        assert(listing.filter(p) == if p(listing.last()) { f.push(listing.last()) } else { f });
        if p(listing.last()) {
            assert(f.push(listing.last()).map_values(g) =~= f.map_values(g) + seq![g(listing.last())]);
        } else {
            assert(f.map_values(g) =~= f.map_values(g) + Seq::<_>::empty());
        }
        assert(dir_names(listing) =~= listing.filter(p).map_values(g));
    }
}

/// The directories searched for the app's own `libapp.so` are all the listed
/// directories, whatever their names, each once, in listing order.
pub proof fn law_every_directory_is_searched(listing: Seq<DirEntryInfo>)
    ensures
        subdir_names(listing) == listing.filter(|e: DirEntryInfo| e.is_dir).map_values(
            |e: DirEntryInfo| e.name@,
        ),
    decreases listing.len(),
{
    if listing.len() > 0 {
        let rest = listing.drop_last();
        law_every_directory_is_searched(rest);
        let p = |e: DirEntryInfo| e.is_dir;
        let g = |e: DirEntryInfo| e.name@;
        let f = rest.filter(p);
        assert(subdir_names(rest) == f.map_values(g));
        reveal(Seq::filter);
        assert(listing.filter(p) == if p(listing.last()) { f.push(listing.last()) } else { f });
        if p(listing.last()) {
            assert(f.push(listing.last()).map_values(g) =~= f.map_values(g) + seq![g(listing.last())]);
        } else {
            assert(f.map_values(g) =~= f.map_values(g) + Seq::<_>::empty());
        }
        assert(subdir_names(listing) =~= listing.filter(p).map_values(g));
    }
}

/// A relative name is joined onto a base that does not end in `/` with exactly one
/// `/` between them, however long the base.
pub proof fn law_join_puts_one_separator(base: Seq<char>, name: Seq<char>)
    requires
        base.len() > 0,
        base.last() != '/',
        !(name.len() > 0 && name[0] == '/'),
    ensures
        path_join(base, name) == base + seq!['/'] + name,
        path_join(base, name).len() == base.len() + 1 + name.len(),
{
}

/// A base that is empty or ends in `/` is followed directly by the name; an absolute
/// name replaces the base.
pub proof fn law_join_without_separator(base: Seq<char>, name: Seq<char>)
    ensures
        name.len() > 0 && name[0] == '/' ==> path_join(base, name) == name,
        !(name.len() > 0 && name[0] == '/') && (base.len() == 0 || base.last() == '/')
            ==> path_join(base, name) == base + name,
{
}

/// Byte paths are joined as text paths are: one `/` byte between a base that does
/// not end in `/` and a relative name.
pub proof fn law_byte_join_puts_one_separator(base: Seq<u8>, name: Seq<u8>)
    requires
        base.len() > 0,
        base.last() != 0x2f,
        !(name.len() > 0 && name[0] == 0x2f),
    ensures
        path_join_bytes(base, name) == base + seq![0x2fu8] + name,
{
}

/// The cache layout: under a cache directory `c` that does not end in `/`, patch
/// `n` lives in `c/patches/n`, with `patch.bin`, `libapp.so` and `libapp.so.tmp`
/// inside it.
pub proof fn law_cache_layout(c: Seq<char>, n: Seq<char>)
    requires
        c.len() > 0,
        c.last() != '/',
        n.len() > 0,
        n[0] != '/',
        n.last() != '/',
    ensures
        patches_dir_of(c) == c + "/patches"@,
        path_join(patches_dir_of(c), n) == c + "/patches/"@ + n,
        patch_file_of(path_join(patches_dir_of(c), n)) == c + "/patches/"@ + n + "/patch.bin"@,
        libapp_of(path_join(patches_dir_of(c), n)) == c + "/patches/"@ + n + "/libapp.so"@,
        tmp_output_of(path_join(patches_dir_of(c), n)) == c + "/patches/"@ + n + "/libapp.so.tmp"@,
{
    reveal_strlit("patches");
    reveal_strlit("/patches");
    reveal_strlit("/patches/");
    reveal_strlit("patch.bin");
    reveal_strlit("/patch.bin");
    reveal_strlit("libapp.so");
    reveal_strlit("/libapp.so");
    reveal_strlit("libapp.so.tmp");
    reveal_strlit("/libapp.so.tmp");
    let d = c + "/patches/"@ + n;
    assert(c + seq!['/'] + "patches"@ =~= c + "/patches"@);
    assert(c + "/patches"@ + seq!['/'] + n =~= d);
    assert(d.last() == n.last());
    assert(d + seq!['/'] + "patch.bin"@ =~= d + "/patch.bin"@);
    assert(d + seq!['/'] + "libapp.so"@ =~= d + "/libapp.so"@);
    assert(d + seq!['/'] + "libapp.so.tmp"@ =~= d + "/libapp.so.tmp"@);
}

/// The patch chosen is the greatest: every other patch has a smaller name, or the
/// same name and comes after it.
pub proof fn law_chosen_patch_has_the_greatest_name(
    names: Seq<Seq<char>>,
    patch: Seq<bool>,
    i: int,
    j: int,
)
    requires
        latest_among(names, patch, i),
        0 <= j < names.len(),
        patch[j],
        j != i,
    ensures
        name_lt(names[j], names[i]) || (names[j] == names[i] && i < j),
{
    if i < j {
        lemma_bytes_lt_total(encode_utf8(names[i]), encode_utf8(names[j]));
        if encode_utf8(names[i]) =~= encode_utf8(names[j]) {
            vstd::utf8::encode_utf8_decode_utf8(names[i]);
            vstd::utf8::encode_utf8_decode_utf8(names[j]);
        }
    }
}

/// An update returns 1 exactly when it failed, and 0 when it applied a patch or
/// found none.
pub proof fn law_update_code(o: UpdateOutcome)
    ensures
        outcome_code(o) == 1 <==> o is Failed,
        outcome_code(o) == 0 <==> !(o is Failed),
{
}

/// Each patch directory is probed for its `patch.bin` and then its `libapp.so`, and
/// a directory counts as a patch when either is there.
pub proof fn law_probes_of_each_patch_directory(
    patches_dir: Seq<char>,
    names: Seq<Seq<char>>,
    flags: Seq<bool>,
    k: int,
)
    requires
        0 <= k < names.len(),
        flags.len() == 2 * names.len(),
    ensures
        patch_probe_paths(patches_dir, names).len() == 2 * names.len(),
        patch_probe_paths(patches_dir, names)[2 * k] == patch_file_of(
            path_join(patches_dir, names[k]),
        ),
        patch_probe_paths(patches_dir, names)[2 * k + 1] == libapp_of(
            path_join(patches_dir, names[k]),
        ),
        probed_patches(flags).len() == names.len(),
        probed_patches(flags)[k] == (flags[2 * k] || flags[2 * k + 1]),
{
    assert((2 * k) / 2 == k);
    assert((2 * k + 1) / 2 == k);
    assert((2 * k) % 2 == 0);
    assert((2 * k + 1) % 2 == 1);
}

/// The app's own `libapp.so` is looked for first in the library directory and then
/// in each of its subdirectories in listing order, before five ABI directories
/// under it and five under its parent, if it has one.
pub proof fn law_base_search_order(
    dir: Seq<u8>,
    subdirs: Seq<Seq<u8>>,
    parent: Option<Seq<u8>>,
    k: int,
)
    requires
        0 <= k < subdirs.len(),
    ensures
        base_candidates(dir, subdirs, parent).len() == 6 + subdirs.len() + (if parent is Some {
            5int
        } else {
            0int
        }),
        base_candidates(dir, subdirs, parent)[0] == path_join_bytes(dir, encode_utf8("libapp.so"@)),
        base_candidates(dir, subdirs, parent)[1 + k] == path_join_bytes(
            path_join_bytes(dir, subdirs[k]),
            encode_utf8("libapp.so"@),
        ),
{
}

/// A size field of a bsdiff header is read as a little-endian integer of its eight
/// bytes; with the top bit set, as the negative of the other 63 bits, wrapped to a
/// `u64` (as qbsdiff's `decode_int` and the `as u64` after it do).
pub proof fn law_header_field_is_little_endian(p: Seq<u8>, off: int)
    requires
        0 <= off,
        off + 8 <= p.len(),
    ensures
        p[off + 7] < 0x80 ==> header_field(p, off) == p[off] + 0x100 * p[off + 1] + 0x1_0000 * p[off
            + 2] + 0x100_0000 * p[off + 3] + 0x1_0000_0000 * p[off + 4] + 0x100_0000_0000 * p[off
            + 5] + 0x1_0000_0000_0000 * p[off + 6] + 0x100_0000_0000_0000 * p[off + 7],
        p[off + 7] >= 0x80 && (p[off] != 0 || p[off + 1] != 0 || p[off + 2] != 0 || p[off + 3] != 0
            || p[off + 4] != 0 || p[off + 5] != 0 || p[off + 6] != 0 || p[off + 7] != 0x80)
            ==> header_field(p, off) == 0x1_0000_0000_0000_0000 - (p[off] + 0x100 * p[off + 1]
            + 0x1_0000 * p[off + 2] + 0x100_0000 * p[off + 3] + 0x1_0000_0000 * p[off + 4]
            + 0x100_0000_0000 * p[off + 5] + 0x1_0000_0000_0000 * p[off + 6] + 0x100_0000_0000_0000
            * (p[off + 7] - 0x80)),
{
    let b = p.subrange(off, off + 8);
    let b1 = b.drop_first();
    let b2 = b1.drop_first();
    let b3 = b2.drop_first();
    let b4 = b3.drop_first();
    let b5 = b4.drop_first();
    let b6 = b5.drop_first();
    let b7 = b6.drop_first();
    let b8 = b7.drop_first();
    assert(b8.len() == 0);
    assert(le_value(b8) == 0);
    assert(le_value(b7) == p[off + 7]);
    assert(le_value(b6) == p[off + 6] + 0x100 * p[off + 7]);
    assert(le_value(b5) == p[off + 5] + 0x100 * le_value(b6));
    assert(le_value(b4) == p[off + 4] + 0x100 * le_value(b5));
    assert(le_value(b3) == p[off + 3] + 0x100 * le_value(b4));
    assert(le_value(b2) == p[off + 2] + 0x100 * le_value(b3));
    assert(le_value(b1) == p[off + 1] + 0x100 * le_value(b2));
    assert(le_value(b) == p[off] + 0x100 * le_value(b1));
}

} // verus!
