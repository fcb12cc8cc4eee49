//! The decisions of an update, as a state machine. The host performs each file
//! operation that the machine asks for and hands back what came of it; the machine
//! decides what to do next and finally how the update ended.
//!
//! An update looks for `<cache_dir>/patches`, lists it, and takes the patch
//! directory with the greatest name among those holding a `patch.bin` or a full
//! `libapp.so`. A full library is checked to be an ELF file and copied to
//! `libapp.so.tmp`; a bsdiff patch is applied to the app's own `libapp.so` and the
//! result written to `libapp.so.tmp`. The temporary file is then renamed to
//! `libapp.so` in the patch directory, which becomes the active library.

use vstd::prelude::*;
use crate::elf::{elf_check, verify_elf, ElfError};
use vstd::utf8::encode_utf8;
use crate::layout::{
    base_candidate_paths, base_candidates, bviews, dir_names, dir_names_of, encoded, first_true,
    first_true_index, parent_of, patch_probe_paths, patch_probes, path_bytes, path_parent,
    probed_patches, subdir_names, subdir_names_of, views, DirEntryInfo,
};
use crate::patch::{
    apply_bsdiff, bspatch_output, header_overflows, header_valid, patch_header_overflows,
    PatchError,
};
use crate::paths::{
    join_path, libapp_of, libapp_path, patch_file, patch_file_of, patches_dir, patches_dir_of,
    path_join, tmp_output, tmp_output_of,
};
use crate::select::{find_latest_patch, latest_among, PatchDirInfo, entry_names, entry_patches};
use crate::state::UpdaterState;

verus! {

/// Why an update failed.
#[derive(Debug)]
pub enum UpdateError {
    /// The updater was not initialized.
    NotInitialized,
    /// The full library of the patch could not be read.
    FullUnreadable(std::io::Error),
    /// The full library of the patch is not an ELF file.
    FullInvalid(ElfError),
    /// The full library could not be copied to the temporary file.
    CopyFailed(std::io::Error),
    /// The patch directory holds neither `patch.bin` nor `libapp.so` any more.
    NoPatchFile,
    /// The app's own `libapp.so` was found nowhere.
    BaseNotFound,
    /// The app's own `libapp.so` could not be read.
    BaseUnreadable(std::io::Error),
    /// `patch.bin` could not be read.
    PatchUnreadable(std::io::Error),
    /// The sizes in the patch's header overflow.
    PatchCorrupt,
    /// The patch did not apply.
    Patch(PatchError),
    /// The directory of the temporary file could not be created.
    CreateDirFailed(std::io::Error),
    /// The directory of the temporary file is not a directory.
    NotADirectory,
    /// The temporary file could not be written.
    WriteFailed(std::io::Error),
    /// The temporary file could not be renamed to `libapp.so`.
    RenameFailed(std::io::Error),
}

/// How an update ended.
#[derive(Debug)]
pub enum UpdateOutcome {
    /// There was no patch to apply.
    NoPatch,
    /// The patch with this number was applied; the library to load is at `active_path`.
    Applied { patch_number: String, active_path: String },
    /// The update failed.
    Failed(UpdateError),
}

/// A file operation that the machine asks its host to perform, with the event that
/// answers it.
#[derive(Debug)]
pub enum Action {
    /// Does the path exist? Answer: `Event::Flag`.
    Exists(String),
    /// Is the path a directory? Answer: `Event::Flag`.
    IsDir(String),
    /// List the directory. Answer: `Event::Listing`, `None` if it cannot be read.
    ListDir(String),
    /// Does each of the paths, given as bytes, exist? Answer: `Event::Probed`, one
    /// flag per path.
    ProbeFiles(Vec<Vec<u8>>),
    /// Read the file whose path is given as bytes. Answer: `Event::Read`.
    ReadFile(Vec<u8>),
    /// Copy a file. Answer: `Event::Done`.
    CopyFile { from: String, to: String },
    /// Create the directory and its parents. Answer: `Event::Done`.
    CreateDirAll(String),
    /// Write the file. Answer: `Event::Done`.
    WriteFile { path: String, data: Vec<u8> },
    /// Rename a file, replacing the target. Answer: `Event::Done`.
    Rename { from: String, to: String },
    /// Remove the file. Answer: `Event::Done`, whose result does not matter.
    RemoveFile(String),
    /// The update is over.
    Finish(UpdateOutcome),
}

/// What came of a file operation.
#[derive(Debug)]
pub enum Event {
    /// The answer to `Exists` or `IsDir`.
    Flag(bool),
    /// The entries of a listed directory, or `None` if it could not be read.
    Listing(Option<Vec<DirEntryInfo>>),
    /// One flag per probed path, in order: the path exists.
    Probed(Vec<bool>),
    /// The contents of a read file, or why it could not be read.
    Read(Result<Vec<u8>, std::io::Error>),
    /// Whether a copy, write, rename, removal or directory creation succeeded.
    Done(Result<(), std::io::Error>),
}

/// Where an update stands: the operation it waits for, and what it carries. `sel`
/// is the name of the chosen patch directory.
pub enum Phase {
    PatchesDir,
    PatchesListing,
    PatchesProbe { names: Vec<String> },
    FullExists { sel: String },
    FullRead { sel: String },
    FullCopy { sel: String },
    PatchExists { sel: String },
    BaseListing { sel: String },
    BaseProbe { sel: String, candidates: Vec<Vec<u8>> },
    BaseRead { sel: String },
    PatchRead { sel: String, base: Vec<u8> },
    ParentExists { sel: String, parent: String, data: Vec<u8> },
    ParentCreate { sel: String, data: Vec<u8> },
    ParentIsDir { sel: String, data: Vec<u8> },
    WriteOutput { sel: String },
    RemoveTmp { sel: String, error: UpdateError },
    Renaming { sel: String },
    Finished,
}

/// An update in progress.
pub struct UpdateMachine {
    pub cache_dir: String,
    pub libapp_dir: String,
    pub patches_dir: String,
    pub phase: Phase,
    /// The names of the patch directories found, once they were probed.
    pub seen_names: Ghost<Seq<Seq<char>>>,
    /// Which of them are patches.
    pub seen_patches: Ghost<Seq<bool>>,
}

/// The directory of patch `sel`.
pub open spec fn dir_of(patches_dir: Seq<char>, sel: Seq<char>) -> Seq<char> {
    path_join(patches_dir, sel)
}

/// The full library of patch `sel`, which is also where the patched library ends up.
pub open spec fn full_of(patches_dir: Seq<char>, sel: Seq<char>) -> Seq<char> {
    libapp_of(dir_of(patches_dir, sel))
}

/// The bsdiff file of patch `sel`.
pub open spec fn bsdiff_of(patches_dir: Seq<char>, sel: Seq<char>) -> Seq<char> {
    patch_file_of(dir_of(patches_dir, sel))
}

/// The temporary output of patch `sel`.
pub open spec fn tmp_of(patches_dir: Seq<char>, sel: Seq<char>) -> Seq<char> {
    tmp_output_of(dir_of(patches_dir, sel))
}

/// The chosen patch of a phase, if it has one.
pub open spec fn phase_sel(p: Phase) -> Option<Seq<char>> {
    match p {
        Phase::FullExists { sel } => Some(sel@),
        Phase::FullRead { sel } => Some(sel@),
        Phase::FullCopy { sel } => Some(sel@),
        Phase::PatchExists { sel } => Some(sel@),
        Phase::BaseListing { sel } => Some(sel@),
        Phase::BaseProbe { sel, .. } => Some(sel@),
        Phase::BaseRead { sel } => Some(sel@),
        Phase::PatchRead { sel, .. } => Some(sel@),
        Phase::ParentExists { sel, .. } => Some(sel@),
        Phase::ParentCreate { sel, .. } => Some(sel@),
        Phase::ParentIsDir { sel, .. } => Some(sel@),
        Phase::WriteOutput { sel } => Some(sel@),
        Phase::RemoveTmp { sel, .. } => Some(sel@),
        Phase::Renaming { sel } => Some(sel@),
        _ => None,
    }
}

/// How many steps an update can still take at most.
pub open spec fn phase_rank(p: Phase) -> nat {
    match p {
        Phase::PatchesDir => 14,
        Phase::PatchesListing => 13,
        Phase::PatchesProbe { .. } => 12,
        Phase::FullExists { .. } => 11,
        Phase::PatchExists { .. } => 10,
        Phase::BaseListing { .. } => 9,
        Phase::BaseProbe { .. } => 8,
        Phase::BaseRead { .. } => 7,
        Phase::PatchRead { .. } => 6,
        Phase::ParentExists { .. } => 5,
        Phase::FullRead { .. } => 4,
        Phase::ParentCreate { .. } => 4,
        Phase::ParentIsDir { .. } => 4,
        Phase::FullCopy { .. } => 3,
        Phase::WriteOutput { .. } => 3,
        Phase::Renaming { .. } => 2,
        Phase::RemoveTmp { .. } => 1,
        Phase::Finished => 0,
    }
}

impl UpdateMachine {
    /// Patch `name` is the one with the greatest name among the patch directories
    /// the update found.
    pub open spec fn selected(self, name: Seq<char>) -> bool {
        exists|i: int|
            latest_among(self.seen_names@, self.seen_patches@, i) && #[trigger] self.seen_names@[i]
                == name
    }

    /// The machine's invariant: the patches directory belongs to the cache
    /// directory, and a chosen patch is the latest one found.
    pub open spec fn wf(self) -> bool {
        &&& self.patches_dir@ == patches_dir_of(self.cache_dir@)
        &&& phase_sel(self.phase) matches Some(s) ==> self.selected(s)
    }

    /// The event answers the operation the machine waits for.
    pub open spec fn expects(self, e: Event) -> bool {
        match self.phase {
            Phase::PatchesDir => e is Flag,
            Phase::PatchesListing => e is Listing,
            Phase::PatchesProbe { names } => e matches Event::Probed(f) && f@.len() == 2
                * names@.len(),
            Phase::FullExists { .. } => e is Flag,
            Phase::FullRead { .. } => e is Read,
            Phase::FullCopy { .. } => e is Done,
            Phase::PatchExists { .. } => e is Flag,
            Phase::BaseListing { .. } => e is Listing,
            Phase::BaseProbe { candidates, .. } => e matches Event::Probed(f) && f@.len()
                == candidates@.len(),
            Phase::BaseRead { .. } => e is Read,
            Phase::PatchRead { .. } => e is Read,
            Phase::ParentExists { .. } => e is Flag,
            Phase::ParentCreate { .. } => e is Done,
            Phase::ParentIsDir { .. } => e is Flag,
            Phase::WriteOutput { .. } => e is Done,
            Phase::RemoveTmp { .. } => e is Done,
            Phase::Renaming { .. } => e is Done,
            Phase::Finished => false,
        }
    }

    /// A temporary file is cleaned up and the update fails with `err`.
    pub open spec fn cleans_up(self, sel: Seq<char>, err: UpdateError, p2: Phase, a: Action) -> bool {
        &&& p2 matches Phase::RemoveTmp { sel: s2, error } && s2@ == sel && error == err
        &&& a matches Action::RemoveFile(t) && t@ == tmp_of(self.patches_dir@, sel)
    }

    /// The patched library in `data` goes to the temporary file.
    pub open spec fn writes(self, sel: Seq<char>, data: Seq<u8>, p2: Phase, a: Action) -> bool {
        &&& p2 matches Phase::WriteOutput { sel: s2 } && s2@ == sel
        &&& a matches Action::WriteFile { path, data: d } && path@ == tmp_of(
            self.patches_dir@,
            sel,
        ) && d@ == data
    }

    /// The temporary file is renamed to the patch's `libapp.so`.
    pub open spec fn renames(self, sel: Seq<char>, p2: Phase, a: Action) -> bool {
        &&& p2 matches Phase::Renaming { sel: s2 } && s2@ == sel
        &&& a matches Action::Rename { from, to } && from@ == tmp_of(self.patches_dir@, sel)
            && to@ == full_of(self.patches_dir@, sel)
    }

    /// The update ends with `outcome`.
    pub open spec fn finishes(p2: Phase, a: Action, outcome: UpdateOutcome) -> bool {
        p2 is Finished && a == Action::Finish(outcome)
    }

    /// The next phase and the operation asked for, after event `e`.
    pub open spec fn next(self, e: Event, p2: Phase, a: Action) -> bool {
        let pd = self.patches_dir@;
        match self.phase {
            Phase::PatchesDir => match e {
                Event::Flag(true) => {
                    &&& p2 is PatchesListing
                    &&& a matches Action::ListDir(d) && d@ == pd
                },
                _ => Self::finishes(p2, a, UpdateOutcome::NoPatch),
            },
            Phase::PatchesListing => match e {
                Event::Listing(Some(l)) => {
                    &&& p2 matches Phase::PatchesProbe { names } && views(names@) == dir_names(l@)
                    &&& a matches Action::ProbeFiles(ps) && bviews(ps@) == encoded(
                        patch_probe_paths(pd, dir_names(l@)),
                    )
                },
                _ => Self::finishes(p2, a, UpdateOutcome::NoPatch),
            },
            Phase::PatchesProbe { names } => match e {
                Event::Probed(f) => {
                    let vn = views(names@);
                    let vp = probed_patches(f@);
                    if exists|k: int| 0 <= k < vp.len() && #[trigger] vp[k] {
                        exists|i: int|
                            #![trigger vn[i]]
                            {
                                &&& latest_among(vn, vp, i)
                                &&& p2 matches Phase::FullExists { sel } && sel@ == vn[i]
                                &&& a matches Action::Exists(q) && q@ == full_of(pd, vn[i])
                            }
                    } else {
                        Self::finishes(p2, a, UpdateOutcome::NoPatch)
                    }
                },
                _ => false,
            },
            Phase::FullExists { sel } => match e {
                Event::Flag(true) => {
                    &&& p2 matches Phase::FullRead { sel: s2 } && s2@ == sel@
                    &&& a matches Action::ReadFile(q) && q@ == encode_utf8(full_of(pd, sel@))
                },
                _ => {
                    &&& p2 matches Phase::PatchExists { sel: s2 } && s2@ == sel@
                    &&& a matches Action::Exists(q) && q@ == bsdiff_of(pd, sel@)
                },
            },
            Phase::FullRead { sel } => match e {
                Event::Read(Ok(b)) => match elf_check(b@) {
                    Ok(_) => {
                        &&& p2 matches Phase::FullCopy { sel: s2 } && s2@ == sel@
                        &&& a matches Action::CopyFile { from, to } && from@ == full_of(pd, sel@)
                            && to@ == tmp_of(pd, sel@)
                    },
                    Err(x) => Self::finishes(
                        p2,
                        a,
                        UpdateOutcome::Failed(UpdateError::FullInvalid(x)),
                    ),
                },
                Event::Read(Err(x)) => Self::finishes(
                    p2,
                    a,
                    UpdateOutcome::Failed(UpdateError::FullUnreadable(x)),
                ),
                _ => false,
            },
            Phase::FullCopy { sel } => match e {
                Event::Done(Ok(_)) => self.renames(sel@, p2, a),
                Event::Done(Err(x)) => Self::finishes(
                    p2,
                    a,
                    UpdateOutcome::Failed(UpdateError::CopyFailed(x)),
                ),
                _ => false,
            },
            Phase::PatchExists { sel } => match e {
                Event::Flag(true) => {
                    &&& p2 matches Phase::BaseListing { sel: s2 } && s2@ == sel@
                    &&& a matches Action::ListDir(d) && d@ == self.libapp_dir@
                },
                _ => Self::finishes(p2, a, UpdateOutcome::Failed(UpdateError::NoPatchFile)),
            },
            Phase::BaseListing { sel } => match e {
                Event::Listing(l) => {
                    let subdirs = match l {
                        Some(l) => subdir_names(l@),
                        None => seq![],
                    };
                    let parent = match parent_of(self.libapp_dir@) {
                        Some(q) => Some(encode_utf8(q)),
                        None => None,
                    };
                    let cands = base_candidates(encode_utf8(self.libapp_dir@), subdirs, parent);
                    &&& p2 matches Phase::BaseProbe { sel: s2, candidates } && s2@ == sel@
                        && bviews(candidates@) == cands
                    &&& a matches Action::ProbeFiles(ps) && bviews(ps@) == cands
                },
                _ => false,
            },
            Phase::BaseProbe { sel, candidates } => match e {
                Event::Probed(f) => if exists|i: int| first_true(f@, i) {
                    exists|i: int|
                        #![trigger first_true(f@, i)]
                        {
                            &&& first_true(f@, i)
                            &&& p2 matches Phase::BaseRead { sel: s2 } && s2@ == sel@
                            &&& a matches Action::ReadFile(q) && q@ == candidates@[i]@
                        }
                } else {
                    Self::finishes(p2, a, UpdateOutcome::Failed(UpdateError::BaseNotFound))
                },
                _ => false,
            },
            Phase::BaseRead { sel } => match e {
                Event::Read(Ok(b)) => {
                    &&& p2 matches Phase::PatchRead { sel: s2, base } && s2@ == sel@ && base@ == b@
                    &&& a matches Action::ReadFile(q) && q@ == encode_utf8(bsdiff_of(pd, sel@))
                },
                Event::Read(Err(x)) => self.cleans_up(
                    sel@,
                    UpdateError::BaseUnreadable(x),
                    p2,
                    a,
                ),
                _ => false,
            },
            Phase::PatchRead { sel, base } => match e {
                Event::Read(Ok(p)) => if header_overflows(p@) {
                    self.cleans_up(sel@, UpdateError::PatchCorrupt, p2, a)
                } else if !header_valid(p@) {
                    &&& p2 matches Phase::RemoveTmp { sel: s2, error } && s2@ == sel@
                        && (error matches UpdateError::Patch(pe) && pe is Parse)
                    &&& a matches Action::RemoveFile(t) && t@ == tmp_of(pd, sel@)
                } else {
                    match bspatch_output(base@, p@) {
                        None => {
                            &&& p2 matches Phase::RemoveTmp { sel: s2, error } && s2@ == sel@
                                && (error matches UpdateError::Patch(pe) && pe is Apply)
                            &&& a matches Action::RemoveFile(t) && t@ == tmp_of(pd, sel@)
                        },
                        Some(out) => match parent_of(tmp_of(pd, sel@)) {
                            Some(q) => {
                                &&& p2 matches Phase::ParentExists { sel: s2, parent, data }
                                    && s2@ == sel@ && parent@ == q && data@ == out
                                &&& a matches Action::Exists(d) && d@ == q
                            },
                            None => self.writes(sel@, out, p2, a),
                        },
                    }
                },
                Event::Read(Err(x)) => self.cleans_up(
                    sel@,
                    UpdateError::PatchUnreadable(x),
                    p2,
                    a,
                ),
                _ => false,
            },
            Phase::ParentExists { sel, parent, data } => match e {
                Event::Flag(true) => {
                    &&& p2 matches Phase::ParentIsDir { sel: s2, data: d2 } && s2@ == sel@ && d2@
                        == data@
                    &&& a matches Action::IsDir(q) && q@ == parent@
                },
                _ => {
                    &&& p2 matches Phase::ParentCreate { sel: s2, data: d2 } && s2@ == sel@ && d2@
                        == data@
                    &&& a matches Action::CreateDirAll(q) && q@ == parent@
                },
            },
            Phase::ParentCreate { sel, data } => match e {
                Event::Done(Ok(_)) => self.writes(sel@, data@, p2, a),
                Event::Done(Err(x)) => self.cleans_up(
                    sel@,
                    UpdateError::CreateDirFailed(x),
                    p2,
                    a,
                ),
                _ => false,
            },
            Phase::ParentIsDir { sel, data } => match e {
                Event::Flag(true) => self.writes(sel@, data@, p2, a),
                _ => self.cleans_up(sel@, UpdateError::NotADirectory, p2, a),
            },
            Phase::WriteOutput { sel } => match e {
                Event::Done(Ok(_)) => self.renames(sel@, p2, a),
                Event::Done(Err(x)) => self.cleans_up(sel@, UpdateError::WriteFailed(x), p2, a),
                _ => false,
            },
            Phase::Renaming { sel } => match e {
                Event::Done(Ok(_)) => {
                    &&& p2 is Finished
                    &&& a matches Action::Finish(UpdateOutcome::Applied { patch_number, active_path })
                        && patch_number@ == sel@ && active_path@ == full_of(pd, sel@)
                },
                Event::Done(Err(x)) => self.cleans_up(
                    sel@,
                    UpdateError::RenameFailed(x),
                    p2,
                    a,
                ),
                _ => false,
            },
            Phase::RemoveTmp { sel, error } => Self::finishes(
                p2,
                a,
                UpdateOutcome::Failed(error),
            ),
            Phase::Finished => false,
        }
    }
}

/// A copy of a list of byte strings.
fn clone_byte_strings(v: &Vec<Vec<u8>>) -> (r: Vec<Vec<u8>>)
    ensures
        bviews(r@) == bviews(v@),
{
    let mut r: Vec<Vec<u8>> = Vec::new();
    let mut i: usize = 0;
    while i < v.len()
        invariant
            i <= v@.len(),
            r@.len() == i,
            forall|k: int| 0 <= k < i ==> #[trigger] r@[k]@ == v@[k]@,
        decreases v@.len() - i,
    {
        r.push(vstd::slice::slice_to_vec(v[i].as_slice()));
        i = i + 1;
    }
    assert(bviews(r@) =~= bviews(v@));
    r
}

/// Pairs each name with the answers to its two probes.
fn patch_infos(names: &Vec<String>, flags: &Vec<bool>) -> (r: Vec<PatchDirInfo>)
    requires
        flags@.len() == 2 * names@.len(),
    ensures
        entry_names(r@) == views(names@),
        entry_patches(r@) == probed_patches(flags@),
{
    let mut r: Vec<PatchDirInfo> = Vec::new();
    let mut k: usize = 0;
    let flags_len = flags.len();
    while k < names.len()
        invariant
            k <= names@.len(),
            flags_len == flags@.len(),
            flags@.len() == 2 * names@.len(),
            r@.len() == k,
            forall|j: int|
                0 <= j < k ==> {
                    &&& (#[trigger] r@[j]).name@ == names@[j]@
                    &&& r@[j].has_bsdiff == flags@[2 * j]
                    &&& r@[j].has_full == flags@[2 * j + 1]
                },
        decreases names@.len() - k,
    {
        r.push(
            PatchDirInfo {
                name: names[k].clone(),
                has_bsdiff: flags[2 * k],
                has_full: flags[2 * k + 1],
            },
        );
        k = k + 1;
    }
    assert(entry_names(r@) =~= views(names@));
    assert(entry_patches(r@) =~= probed_patches(flags@));
    r
}

impl UpdateMachine {
    /// Starts an update for the given directories; the first operation asks whether
    /// the patches directory exists.
    pub fn new(cache_dir: &str, libapp_dir: &str) -> (r: (UpdateMachine, Action))
        ensures
            r.0.wf(),
            r.0.cache_dir@ == cache_dir@,
            r.0.libapp_dir@ == libapp_dir@,
            r.0.phase is PatchesDir,
            r.1 matches Action::Exists(d) && d@ == patches_dir_of(cache_dir@),
    {
        let pd = patches_dir(cache_dir);
        let action = Action::Exists(pd.clone());
        (
            UpdateMachine {
                cache_dir: cache_dir.to_owned(),
                libapp_dir: libapp_dir.to_owned(),
                patches_dir: pd,
                phase: Phase::PatchesDir,
                seen_names: Ghost(Seq::empty()),
                seen_patches: Ghost(Seq::empty()),
            },
            action,
        )
    }

    /// Takes in what came of the last operation, and gives the next one, or the
    /// outcome once the update is over.
    pub fn step(self, e: Event) -> (r: (UpdateMachine, Action))
        requires
            self.wf(),
            self.expects(e),
        ensures
            r.0.wf(),
            r.0.cache_dir == self.cache_dir,
            r.0.libapp_dir == self.libapp_dir,
            r.0.patches_dir == self.patches_dir,
            self.next(e, r.0.phase, r.1),
            phase_rank(r.0.phase) < phase_rank(self.phase),
            r.0.phase is Finished <==> r.1 is Finish,
            r.1 matches Action::WriteFile { path, .. } ==> {
                &&& phase_sel(self.phase) is Some
                &&& path@ == tmp_of(self.patches_dir@, phase_sel(self.phase).unwrap())
            },
            r.1 matches Action::CopyFile { to, .. } ==> {
                &&& phase_sel(self.phase) is Some
                &&& to@ == tmp_of(self.patches_dir@, phase_sel(self.phase).unwrap())
            },
            r.1 matches Action::Finish(UpdateOutcome::Applied { patch_number, active_path }) ==> {
                &&& active_path@ == full_of(patches_dir_of(self.cache_dir@), patch_number@)
                &&& r.0.selected(patch_number@)
            },
    {
        let ghost m0 = self;
        let UpdateMachine {
            cache_dir,
            libapp_dir,
            patches_dir,
            phase,
            mut seen_names,
            mut seen_patches,
        } = self;
        let ghost pd = patches_dir@;
        let ghost mut chosen: int = 0;
        let (p2, a): (Phase, Action) = match phase {
            Phase::PatchesDir => match e {
                Event::Flag(true) => (Phase::PatchesListing, Action::ListDir(patches_dir.clone())),
                _ => (Phase::Finished, Action::Finish(UpdateOutcome::NoPatch)),
            },
            Phase::PatchesListing => match e {
                Event::Listing(Some(l)) => {
                    let names = dir_names_of(&l);
                    let probes = patch_probes(patches_dir.as_str(), &names);
                    (Phase::PatchesProbe { names }, Action::ProbeFiles(probes))
                },
                _ => (Phase::Finished, Action::Finish(UpdateOutcome::NoPatch)),
            },
            Phase::PatchesProbe { names } => match e {
                Event::Probed(f) => {
                    let infos = patch_infos(&names, &f);
                    let ghost vn = views(names@);
                    let ghost vp = probed_patches(f@);
                    match find_latest_patch(&infos) {
                        None => {
                            proof {
                                assert forall|k: int| 0 <= k < vp.len() implies !#[trigger] vp[k] by {
                                    assert(vp[k] == crate::select::is_patch(infos@[k]));
                                }
                            }
                            (Phase::Finished, Action::Finish(UpdateOutcome::NoPatch))
                        },
                        Some(i) => {
                            let sel = infos[i].name.clone();
                            let full = libapp_path(join_path(patches_dir.as_str(), sel.as_str()).as_str());
                            seen_names = Ghost(vn);
                            seen_patches = Ghost(vp);
                            proof {
                                assert(vn[i as int] == sel@);
                                assert(vp[i as int]);
                                assert(latest_among(vn, vp, i as int));
                                assert(seen_names@[i as int] == sel@);
                                assert(latest_among(seen_names@, seen_patches@, i as int));
                                chosen = i as int;
                            }
                            (Phase::FullExists { sel }, Action::Exists(full))
                        },
                    }
                },
                _ => (Phase::Finished, Action::Finish(UpdateOutcome::NoPatch)),
            },
            Phase::FullExists { sel } => {
                let dir = join_path(patches_dir.as_str(), sel.as_str());
                match e {
                    Event::Flag(true) => {
                        let full = path_bytes(libapp_path(dir.as_str()).as_str());
                        (Phase::FullRead { sel }, Action::ReadFile(full))
                    },
                    _ => {
                        let bin = patch_file(dir.as_str());
                        (Phase::PatchExists { sel }, Action::Exists(bin))
                    },
                }
            },
            Phase::FullRead { sel } => match e {
                Event::Read(Ok(b)) => match verify_elf(b.as_slice()) {
                    Ok(_) => {
                        let dir = join_path(patches_dir.as_str(), sel.as_str());
                        let from = libapp_path(dir.as_str());
                        let to = tmp_output(dir.as_str());
                        (Phase::FullCopy { sel }, Action::CopyFile { from, to })
                    },
                    Err(x) => (
                        Phase::Finished,
                        Action::Finish(UpdateOutcome::Failed(UpdateError::FullInvalid(x))),
                    ),
                },
                Event::Read(Err(x)) => (
                    Phase::Finished,
                    Action::Finish(UpdateOutcome::Failed(UpdateError::FullUnreadable(x))),
                ),
                _ => (Phase::Finished, Action::Finish(UpdateOutcome::NoPatch)),
            },
            Phase::FullCopy { sel } => match e {
                Event::Done(Ok(_)) => {
                    let dir = join_path(patches_dir.as_str(), sel.as_str());
                    let from = tmp_output(dir.as_str());
                    let to = libapp_path(dir.as_str());
                    (Phase::Renaming { sel }, Action::Rename { from, to })
                },
                Event::Done(Err(x)) => (
                    Phase::Finished,
                    Action::Finish(UpdateOutcome::Failed(UpdateError::CopyFailed(x))),
                ),
                _ => (Phase::Finished, Action::Finish(UpdateOutcome::NoPatch)),
            },
            Phase::PatchExists { sel } => match e {
                Event::Flag(true) => (Phase::BaseListing { sel }, Action::ListDir(libapp_dir.clone())),
                _ => (
                    Phase::Finished,
                    Action::Finish(UpdateOutcome::Failed(UpdateError::NoPatchFile)),
                ),
            },
            Phase::BaseListing { sel } => match e {
                Event::Listing(l) => {
                    let subdirs = match l {
                        Some(l) => subdir_names_of(&l),
                        None => {
                            let v: Vec<Vec<u8>> = Vec::new();
                            assert(bviews(v@) =~= Seq::<Seq<u8>>::empty());
                            v
                        },
                    };
                    let parent = match path_parent(libapp_dir.as_str()) {
                        Some(q) => Some(path_bytes(q.as_str())),
                        None => None,
                    };
                    let lib_bytes = path_bytes(libapp_dir.as_str());
                    let candidates = base_candidate_paths(lib_bytes.as_slice(), &subdirs, &parent);
                    let probes = clone_byte_strings(&candidates);
                    (Phase::BaseProbe { sel, candidates }, Action::ProbeFiles(probes))
                },
                _ => (Phase::Finished, Action::Finish(UpdateOutcome::NoPatch)),
            },
            Phase::BaseProbe { sel, candidates } => match e {
                Event::Probed(f) => match first_true_index(&f) {
                    Some(i) => {
                        let base = vstd::slice::slice_to_vec(candidates[i].as_slice());
                        (Phase::BaseRead { sel }, Action::ReadFile(base))
                    },
                    None => (
                        Phase::Finished,
                        Action::Finish(UpdateOutcome::Failed(UpdateError::BaseNotFound)),
                    ),
                },
                _ => (Phase::Finished, Action::Finish(UpdateOutcome::NoPatch)),
            },
            Phase::BaseRead { sel } => {
                let dir = join_path(patches_dir.as_str(), sel.as_str());
                match e {
                    Event::Read(Ok(b)) => {
                        let bin = path_bytes(patch_file(dir.as_str()).as_str());
                        (Phase::PatchRead { sel, base: b }, Action::ReadFile(bin))
                    },
                    Event::Read(Err(x)) => {
                        let tmp = tmp_output(dir.as_str());
                        (
                            Phase::RemoveTmp { sel, error: UpdateError::BaseUnreadable(x) },
                            Action::RemoveFile(tmp),
                        )
                    },
                    _ => (Phase::Finished, Action::Finish(UpdateOutcome::NoPatch)),
                }
            },
            Phase::PatchRead { sel, base } => {
                let dir = join_path(patches_dir.as_str(), sel.as_str());
                let tmp = tmp_output(dir.as_str());
                match e {
                    Event::Read(Ok(p)) => {
                        if patch_header_overflows(p.as_slice()) {
                            (
                                Phase::RemoveTmp { sel, error: UpdateError::PatchCorrupt },
                                Action::RemoveFile(tmp),
                            )
                        } else {
                            match apply_bsdiff(base.as_slice(), p.as_slice()) {
                                Err(pe) => (
                                    Phase::RemoveTmp { sel, error: UpdateError::Patch(pe) },
                                    Action::RemoveFile(tmp),
                                ),
                                Ok(out) => match path_parent(tmp.as_str()) {
                                    Some(q) => {
                                        let parent = q.clone();
                                        (
                                            Phase::ParentExists { sel, parent, data: out },
                                            Action::Exists(q),
                                        )
                                    },
                                    None => (
                                        Phase::WriteOutput { sel },
                                        Action::WriteFile { path: tmp, data: out },
                                    ),
                                },
                            }
                        }
                    },
                    Event::Read(Err(x)) => (
                        Phase::RemoveTmp { sel, error: UpdateError::PatchUnreadable(x) },
                        Action::RemoveFile(tmp),
                    ),
                    _ => (Phase::Finished, Action::Finish(UpdateOutcome::NoPatch)),
                }
            },
            Phase::ParentExists { sel, parent, data } => match e {
                Event::Flag(true) => (Phase::ParentIsDir { sel, data }, Action::IsDir(parent)),
                _ => (Phase::ParentCreate { sel, data }, Action::CreateDirAll(parent)),
            },
            Phase::ParentCreate { sel, data } => {
                let dir = join_path(patches_dir.as_str(), sel.as_str());
                let tmp = tmp_output(dir.as_str());
                match e {
                    Event::Done(Ok(_)) => (
                        Phase::WriteOutput { sel },
                        Action::WriteFile { path: tmp, data },
                    ),
                    Event::Done(Err(x)) => (
                        Phase::RemoveTmp { sel, error: UpdateError::CreateDirFailed(x) },
                        Action::RemoveFile(tmp),
                    ),
                    _ => (Phase::Finished, Action::Finish(UpdateOutcome::NoPatch)),
                }
            },
            Phase::ParentIsDir { sel, data } => {
                let dir = join_path(patches_dir.as_str(), sel.as_str());
                let tmp = tmp_output(dir.as_str());
                match e {
                    Event::Flag(true) => (
                        Phase::WriteOutput { sel },
                        Action::WriteFile { path: tmp, data },
                    ),
                    _ => (
                        Phase::RemoveTmp { sel, error: UpdateError::NotADirectory },
                        Action::RemoveFile(tmp),
                    ),
                }
            },
            Phase::WriteOutput { sel } => {
                let dir = join_path(patches_dir.as_str(), sel.as_str());
                let tmp = tmp_output(dir.as_str());
                match e {
                    Event::Done(Ok(_)) => {
                        let to = libapp_path(dir.as_str());
                        (Phase::Renaming { sel }, Action::Rename { from: tmp, to })
                    },
                    Event::Done(Err(x)) => (
                        Phase::RemoveTmp { sel, error: UpdateError::WriteFailed(x) },
                        Action::RemoveFile(tmp),
                    ),
                    _ => (Phase::Finished, Action::Finish(UpdateOutcome::NoPatch)),
                }
            },
            Phase::Renaming { sel } => {
                let dir = join_path(patches_dir.as_str(), sel.as_str());
                match e {
                    Event::Done(Ok(_)) => {
                        let active_path = libapp_path(dir.as_str());
                        (
                            Phase::Finished,
                            Action::Finish(
                                UpdateOutcome::Applied { patch_number: sel, active_path },
                            ),
                        )
                    },
                    Event::Done(Err(x)) => {
                        let tmp = tmp_output(dir.as_str());
                        (
                            Phase::RemoveTmp { sel, error: UpdateError::RenameFailed(x) },
                            Action::RemoveFile(tmp),
                        )
                    },
                    _ => (Phase::Finished, Action::Finish(UpdateOutcome::NoPatch)),
                }
            },
            Phase::RemoveTmp { sel, error } => (
                Phase::Finished,
                Action::Finish(UpdateOutcome::Failed(error)),
            ),
            Phase::Finished => (Phase::Finished, Action::Finish(UpdateOutcome::NoPatch)),
        };
        let result = UpdateMachine {
            cache_dir,
            libapp_dir,
            patches_dir,
            phase: p2,
            seen_names,
            seen_patches,
        };
        proof {
            if m0.phase is PatchesProbe && phase_sel(result.phase) is Some {
                let s = phase_sel(result.phase).unwrap();
                assert(latest_among(result.seen_names@, result.seen_patches@, chosen));
                assert(result.seen_names@[chosen] == s);
            }
            if phase_sel(m0.phase) is Some {
                let s = phase_sel(m0.phase).unwrap();
                assert(m0.selected(s));
                let i = choose|i: int|
                    latest_among(m0.seen_names@, m0.seen_patches@, i) && #[trigger] m0.seen_names@[i]
                        == s;
                assert(result.seen_names@[i] == s);
                assert(result.selected(s));
                if phase_sel(result.phase) is Some {
                    assert(phase_sel(result.phase) == Some(s));
                }
            }
        }
        (result, a)
    }
}

/// Starts an update of an initialized updater; without a state the update fails at
/// once, and no machine is made.
pub fn begin_update(state: &Option<UpdaterState>) -> (r: (Option<UpdateMachine>, Action))
    ensures
        *state is None ==> r.0 is None && r.1 matches Action::Finish(
            UpdateOutcome::Failed(UpdateError::NotInitialized),
        ),
        *state matches Some(s) ==> {
            &&& r.0 matches Some(m) && m.wf() && m.phase is PatchesDir && m.cache_dir@
                == s.cache_dir@ && m.libapp_dir@ == s.libapp_dir@
            &&& r.1 matches Action::Exists(d) && d@ == patches_dir_of(s.cache_dir@)
        },
{
    match state {
        Some(s) => {
            let (m, a) = UpdateMachine::new(s.cache_dir.as_str(), s.libapp_dir.as_str());
            (Some(m), a)
        },
        None => (None, Action::Finish(UpdateOutcome::Failed(UpdateError::NotInitialized))),
    }
}

/// The state after an update with this outcome: an applied patch becomes the active
/// library; otherwise nothing changes.
pub open spec fn state_after(s: UpdaterState, s2: UpdaterState, outcome: UpdateOutcome) -> bool {
    match outcome {
        UpdateOutcome::Applied { patch_number, active_path } => {
            &&& s2.active_path@ == active_path@
            &&& s2.active_patch_number matches Some(n) && n@ == patch_number@
            &&& s2.cache_dir == s.cache_dir
            &&& s2.libapp_dir == s.libapp_dir
            &&& s2.release_version == s.release_version
        },
        _ => s2 == s,
    }
}

/// The code an update returns: 1 when it failed, 0 otherwise.
pub open spec fn outcome_code(outcome: UpdateOutcome) -> i32 {
    match outcome {
        UpdateOutcome::Failed(_) => 1,
        _ => 0,
    }
}

/// Records the outcome of an update in the state, and returns the update's code.
pub fn apply_outcome(state: &mut UpdaterState, outcome: &UpdateOutcome) -> (rc: i32)
    ensures
        state_after(*old(state), *final(state), *outcome),
        rc == outcome_code(*outcome),
{
    match outcome {
        UpdateOutcome::Applied { patch_number, active_path } => {
            state.active_path = active_path.clone();
            state.active_patch_number = Some(patch_number.clone());
            0
        },
        UpdateOutcome::NoPatch => 0,
        UpdateOutcome::Failed(_) => 1,
    }
}

/// Ends an update: records its outcome in the state, if the updater is still
/// initialized, and returns the update's code.
pub fn finish_update(state: &mut Option<UpdaterState>, outcome: &UpdateOutcome) -> (rc: i32)
    ensures
        rc == outcome_code(*outcome),
        *old(state) is None ==> *final(state) is None,
        *old(state) matches Some(s) ==> *final(state) matches Some(s2) && state_after(
            s,
            s2,
            *outcome,
        ),
{
    match state {
        Some(s) => {
            apply_outcome(s, outcome);
        },
        None => {},
    }
    match outcome {
        UpdateOutcome::Failed(_) => 1,
        _ => 0,
    }
}

} // verus!
