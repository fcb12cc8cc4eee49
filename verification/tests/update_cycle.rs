use std::collections::{BTreeMap, BTreeSet};
use std::io;

use pultflut_updater::layout::DirEntryInfo;
use pultflut_updater::patch::make_bsdiff;
use pultflut_updater::state::{
    shorebird_active_patch_number, shorebird_active_path, shorebird_init, UpdaterState,
};
use pultflut_updater::update::{
    begin_update, finish_update, Action, Event, UpdateError, UpdateOutcome,
};

/// An in-memory file system that answers the updater's operations. Paths are
/// byte strings, as on Unix, so that names that are not UTF-8 can be held.
struct FakeFs {
    files: BTreeMap<Vec<u8>, Vec<u8>>,
    dirs: BTreeSet<Vec<u8>>,
    fail_rename: bool,
    log: Vec<String>,
}

fn not_found(p: &[u8]) -> io::Error {
    io::Error::new(io::ErrorKind::NotFound, String::from_utf8_lossy(p).into_owned())
}

fn parent(p: &[u8]) -> Vec<u8> {
    match p.iter().rposition(|&c| c == b'/') {
        Some(0) => b"/".to_vec(),
        Some(i) => p[..i].to_vec(),
        None => Vec::new(),
    }
}

impl FakeFs {
    fn new() -> Self {
        FakeFs { files: BTreeMap::new(), dirs: BTreeSet::new(), fail_rename: false, log: Vec::new() }
    }

    fn mkdir_all_bytes(&mut self, p: &[u8]) {
        let mut cur = p.to_vec();
        while !cur.is_empty() && cur != b"/" {
            self.dirs.insert(cur.clone());
            cur = parent(&cur);
        }
    }

    fn mkdir_all(&mut self, p: &str) {
        self.mkdir_all_bytes(p.as_bytes());
    }

    fn write_bytes(&mut self, p: &[u8], data: &[u8]) {
        self.mkdir_all_bytes(&parent(p));
        self.files.insert(p.to_vec(), data.to_vec());
    }

    fn write(&mut self, p: &str, data: &[u8]) {
        self.write_bytes(p.as_bytes(), data);
    }

    fn file(&self, p: &str) -> Option<&Vec<u8>> {
        self.files.get(p.as_bytes())
    }

    fn has_file(&self, p: &str) -> bool {
        self.files.contains_key(p.as_bytes())
    }

    fn has_path(&self, p: &[u8]) -> bool {
        self.files.contains_key(p) || self.dirs.contains(p)
    }

    fn perform(&mut self, a: Action) -> Event {
        match a {
            Action::Exists(p) => Event::Flag(self.has_path(p.as_bytes())),
            Action::IsDir(p) => Event::Flag(self.dirs.contains(p.as_bytes())),
            Action::ListDir(p) => {
                if !self.dirs.contains(p.as_bytes()) {
                    return Event::Listing(None);
                }
                let mut prefix = p.as_bytes().to_vec();
                prefix.push(b'/');
                let mut entries = Vec::new();
                for d in &self.dirs {
                    if let Some(rest) = d.strip_prefix(prefix.as_slice()) {
                        if !rest.contains(&b'/') {
                            entries.push(DirEntryInfo { name: rest.to_vec(), is_dir: true });
                        }
                    }
                }
                for f in self.files.keys() {
                    if let Some(rest) = f.strip_prefix(prefix.as_slice()) {
                        if !rest.contains(&b'/') {
                            entries.push(DirEntryInfo { name: rest.to_vec(), is_dir: false });
                        }
                    }
                }
                Event::Listing(Some(entries))
            }
            Action::ProbeFiles(ps) => Event::Probed(ps.iter().map(|p| self.has_path(p)).collect()),
            Action::ReadFile(p) => {
                Event::Read(self.files.get(&p).cloned().ok_or_else(|| not_found(&p)))
            }
            Action::CopyFile { from, to } => match self.files.get(from.as_bytes()).cloned() {
                Some(d) => {
                    self.log.push(format!("copy {} {}", from, to));
                    self.files.insert(to.into_bytes(), d);
                    Event::Done(Ok(()))
                }
                None => Event::Done(Err(not_found(from.as_bytes()))),
            },
            Action::CreateDirAll(p) => {
                self.mkdir_all(&p);
                Event::Done(Ok(()))
            }
            Action::WriteFile { path, data } => {
                if self.dirs.contains(&parent(path.as_bytes())) {
                    self.log.push(format!("write {}", path));
                    self.files.insert(path.into_bytes(), data);
                    Event::Done(Ok(()))
                } else {
                    Event::Done(Err(not_found(path.as_bytes())))
                }
            }
            Action::Rename { from, to } => {
                if self.fail_rename {
                    return Event::Done(Err(io::Error::new(io::ErrorKind::Other, "rename refused")));
                }
                match self.files.remove(from.as_bytes()) {
                    Some(d) => {
                        self.log.push(format!("rename {} {}", from, to));
                        self.files.insert(to.into_bytes(), d);
                        Event::Done(Ok(()))
                    }
                    None => Event::Done(Err(not_found(from.as_bytes()))),
                }
            }
            Action::RemoveFile(p) => {
                self.log.push(format!("remove {}", p));
                match self.files.remove(p.as_bytes()) {
                    Some(_) => Event::Done(Ok(())),
                    None => Event::Done(Err(not_found(p.as_bytes()))),
                }
            }
            Action::Finish(_) => panic!("the update is over"),
        }
    }
}

/// Runs an update to its end against the fake file system, as the host does.
fn run_update(fs: &mut FakeFs, state: &mut Option<UpdaterState>) -> (i32, UpdateOutcome) {
    let (machine, mut action) = begin_update(state);
    let mut machine = match machine {
        Some(m) => m,
        None => match action {
            Action::Finish(o) => return (finish_update(state, &o), o),
            _ => panic!("no machine but no outcome"),
        },
    };
    let mut steps = 0;
    loop {
        if let Action::Finish(o) = action {
            return (finish_update(state, &o), o);
        }
        let event = fs.perform(action);
        let (m2, a2) = machine.step(event);
        machine = m2;
        action = a2;
        steps += 1;
        assert!(steps <= 14, "an update ends within 14 steps");
    }
}

fn init(state: &mut Option<UpdaterState>, version: &str, cache: &str, lib: &str) -> i32 {
    shorebird_init(state, version.as_bytes(), cache.as_bytes(), lib.as_bytes())
}

const CACHE: &str = "/data/app/cache";
const LIB: &str = "/data/app/cache/lib";

/// End-to-end: base, modified target, bsdiff patch, init, update, check.
#[test]
fn test_full_patch_cycle() {
    let mut fs = FakeFs::new();
    let base_data: Vec<u8> = (0..1024u32 * 1024u32).map(|i| (i.wrapping_mul(31) ^ 0xa5) as u8).collect();
    fs.write(&format!("{}/libapp.so", LIB), &base_data);

    let mut target_data = base_data.clone();
    for i in (500_000..500_100).step_by(1) {
        target_data[i] ^= 0xff;
    }
    target_data.extend_from_slice(b"NEW SECTION ADDED AT END");

    let patch_bytes = make_bsdiff(&base_data, &target_data);
    assert!(!patch_bytes.is_empty(), "bsdiff encode");
    fs.write(&format!("{}/patches/1/patch.bin", CACHE), &patch_bytes);

    let mut state = None;
    assert_eq!(init(&mut state, "1.0.0+1", CACHE, LIB), 0, "shorebird_init failed");
    let (rc, _) = run_update(&mut fs, &mut state);
    assert_eq!(rc, 0, "shorebird_update failed");

    let p = shorebird_active_path(&state);
    assert!(p.is_some(), "active_path returned NULL");
    let path_str = p.unwrap();

    let patched = fs.file(&path_str).cloned().unwrap();
    assert_eq!(patched.len(), target_data.len(), "size mismatch");
    assert_eq!(patched, target_data, "patched content differs from target");

    let pn = shorebird_active_patch_number(&state);
    assert!(pn.is_some(), "active_patch_number returned NULL");
    assert_eq!(pn.unwrap(), "1");
}

/// No patches directory: the update succeeds and the bundled library stays active.
#[test]
fn test_no_patches_dir() {
    let mut fs = FakeFs::new();
    fs.write(&format!("{}/libapp.so", LIB), b"bundled");

    let mut state = None;
    assert_eq!(init(&mut state, "1.0.0+1", CACHE, LIB), 0);
    let (rc, _) = run_update(&mut fs, &mut state);
    assert_eq!(rc, 0);

    let p = shorebird_active_path(&state);
    assert!(p.is_some());
    let s = p.unwrap();
    assert!(s.ends_with("libapp.so"), "expected libapp.so, got: {}", s);
    assert!(!s.contains("patches"), "should be bundled, got: {}", s);

    let pn = shorebird_active_patch_number(&state);
    assert!(pn.is_none());
}

/// Several patches: the lexicographically greatest is applied.
#[test]
fn test_pick_latest_of_multiple() {
    let mut fs = FakeFs::new();
    let base: Vec<u8> = (0..4096).map(|i| i as u8).collect();
    fs.write(&format!("{}/libapp.so", LIB), &base);

    for patch_num in &["1", "2"] {
        let target = format!("target-{}", patch_num);
        let patch_bytes = make_bsdiff(&base, target.as_bytes());
        assert!(!patch_bytes.is_empty(), "bsdiff encode");
        fs.write(&format!("{}/patches/{}/patch.bin", CACHE, patch_num), &patch_bytes);
    }

    let mut state = None;
    init(&mut state, "1.0.0+1", CACHE, LIB);
    run_update(&mut fs, &mut state);

    let pn = shorebird_active_patch_number(&state);
    assert!(pn.is_some());
    assert_eq!(pn.unwrap(), "2", "should pick lexicographically largest");
}

/// A garbage patch makes the update fail.
#[test]
fn test_corrupt_patch_fails() {
    let mut fs = FakeFs::new();
    fs.write(&format!("{}/libapp.so", LIB), b"some bundled content");
    fs.write(&format!("{}/patches/bad/patch.bin", CACHE), b"NOT A VALID BSDIFF");

    let mut state = None;
    init(&mut state, "1.0.0+1", CACHE, LIB);
    let (rc, _) = run_update(&mut fs, &mut state);
    assert_ne!(rc, 0, "should fail on corrupt patch");
}

fn elf_bytes(tag: &str) -> Vec<u8> {
    let mut v = vec![0x7f, b'E', b'L', b'F'];
    v.extend_from_slice(tag.as_bytes());
    v
}

#[test]
fn full_library_patch_is_installed() {
    let mut fs = FakeFs::new();
    fs.write(&format!("{}/libapp.so", LIB), b"bundled");
    let lib2 = elf_bytes("v2");
    fs.write(&format!("{}/patches/2/libapp.so", CACHE), &lib2);
    let mut state = None;
    init(&mut state, "1.0.0", CACHE, LIB);
    let (rc, outcome) = run_update(&mut fs, &mut state);
    assert_eq!(rc, 0);
    assert!(matches!(outcome, UpdateOutcome::Applied { .. }));
    let active = shorebird_active_path(&state).unwrap();
    assert_eq!(active, format!("{}/patches/2/libapp.so", CACHE));
    assert_eq!(fs.file(&active).unwrap(), &lib2);
    assert!(!fs.has_file(&format!("{}/patches/2/libapp.so.tmp", CACHE)));
    assert_eq!(
        fs.log,
        vec![
            format!("copy {c}/patches/2/libapp.so {c}/patches/2/libapp.so.tmp", c = CACHE),
            format!("rename {c}/patches/2/libapp.so.tmp {c}/patches/2/libapp.so", c = CACHE),
        ]
    );
}

#[test]
fn full_library_that_is_not_elf_fails() {
    let mut fs = FakeFs::new();
    fs.write(&format!("{}/patches/3/libapp.so", CACHE), b"not an elf");
    let mut state = None;
    init(&mut state, "1.0.0", CACHE, LIB);
    let (rc, outcome) = run_update(&mut fs, &mut state);
    assert_eq!(rc, 1);
    assert!(matches!(outcome, UpdateOutcome::Failed(UpdateError::FullInvalid(_))));
    assert_eq!(shorebird_active_path(&state).unwrap(), format!("{}/libapp.so", LIB));
    assert_eq!(shorebird_active_patch_number(&state), None);
    assert!(fs.log.is_empty());
}

#[test]
fn base_found_in_abi_directory() {
    let mut fs = FakeFs::new();
    let base: Vec<u8> = (0..3000u32).map(|i| (i * 7) as u8).collect();
    fs.write("/data/app/lib/arm64-v8a/libapp.so", &base);
    let target = b"patched library".to_vec();
    let patch = make_bsdiff(&base, &target);
    fs.write(&format!("{}/patches/5/patch.bin", CACHE), &patch);
    let mut state = None;
    init(&mut state, "1.0.0", CACHE, "/data/app/lib");
    let (rc, _) = run_update(&mut fs, &mut state);
    assert_eq!(rc, 0);
    let active = shorebird_active_path(&state).unwrap();
    assert_eq!(fs.file(&active).unwrap(), &target);
    assert_eq!(shorebird_active_patch_number(&state).unwrap(), "5");
}

#[test]
fn base_found_next_to_the_library_directory() {
    let mut fs = FakeFs::new();
    let base = b"base in a sibling ABI directory".to_vec();
    fs.write("/data/app/x86_64/libapp.so", &base);
    fs.mkdir_all("/data/app/lib");
    let target = b"new".to_vec();
    let patch = make_bsdiff(&base, &target);
    fs.write(&format!("{}/patches/1/patch.bin", CACHE), &patch);
    let mut state = None;
    init(&mut state, "1.0.0", CACHE, "/data/app/lib");
    let (rc, _) = run_update(&mut fs, &mut state);
    assert_eq!(rc, 0);
    assert_eq!(fs.file(&shorebird_active_path(&state).unwrap()).unwrap(), &target);
}

#[test]
fn missing_base_fails_without_touching_state() {
    let mut fs = FakeFs::new();
    let patch = make_bsdiff(b"abc", b"abd");
    fs.write(&format!("{}/patches/1/patch.bin", CACHE), &patch);
    let mut state = None;
    init(&mut state, "1.0.0", CACHE, LIB);
    let (rc, outcome) = run_update(&mut fs, &mut state);
    assert_eq!(rc, 1);
    assert!(matches!(outcome, UpdateOutcome::Failed(UpdateError::BaseNotFound)));
    assert_eq!(shorebird_active_patch_number(&state), None);
}

#[test]
fn corrupt_patch_removes_the_temporary_file() {
    let mut fs = FakeFs::new();
    fs.write(&format!("{}/libapp.so", LIB), b"some bundled content");
    fs.write(&format!("{}/patches/bad/patch.bin", CACHE), b"NOT A VALID BSDIFF");
    let mut state = None;
    init(&mut state, "1.0.0+1", CACHE, LIB);
    let (rc, outcome) = run_update(&mut fs, &mut state);
    assert_eq!(rc, 1);
    assert!(matches!(
        outcome,
        UpdateOutcome::Failed(UpdateError::Patch(pultflut_updater::patch::PatchError::Parse(_)))
    ));
    assert_eq!(fs.log, vec![format!("remove {}/patches/bad/libapp.so.tmp", CACHE)]);
    assert_eq!(shorebird_active_path(&state).unwrap(), format!("{}/libapp.so", LIB));
}

#[test]
fn failed_rename_keeps_the_old_library() {
    let mut fs = FakeFs::new();
    fs.fail_rename = true;
    fs.write(&format!("{}/libapp.so", LIB), b"bundled");
    let patch = make_bsdiff(b"bundled", b"patched");
    fs.write(&format!("{}/patches/1/patch.bin", CACHE), &patch);
    let mut state = None;
    init(&mut state, "1.0.0", CACHE, LIB);
    let (rc, outcome) = run_update(&mut fs, &mut state);
    assert_eq!(rc, 1);
    assert!(matches!(outcome, UpdateOutcome::Failed(UpdateError::RenameFailed(_))));
    assert_eq!(shorebird_active_path(&state).unwrap(), format!("{}/libapp.so", LIB));
    assert_eq!(
        fs.log,
        vec![
            format!("write {}/patches/1/libapp.so.tmp", CACHE),
            format!("remove {}/patches/1/libapp.so.tmp", CACHE),
        ]
    );
}

#[test]
fn update_before_init_fails() {
    let mut fs = FakeFs::new();
    let mut state: Option<UpdaterState> = None;
    let (rc, outcome) = run_update(&mut fs, &mut state);
    assert_eq!(rc, 1);
    assert!(matches!(outcome, UpdateOutcome::Failed(UpdateError::NotInitialized)));
    assert!(state.is_none());
}

#[test]
fn files_and_empty_directories_are_not_patches() {
    let mut fs = FakeFs::new();
    fs.write(&format!("{}/libapp.so", LIB), b"bundled");
    fs.write(&format!("{}/patches/9", CACHE), b"a file, not a directory");
    fs.mkdir_all(&format!("{}/patches/8", CACHE));
    let patch = make_bsdiff(b"bundled", b"one");
    fs.write(&format!("{}/patches/1/patch.bin", CACHE), &patch);
    let mut state = None;
    init(&mut state, "1.0.0", CACHE, LIB);
    let (rc, _) = run_update(&mut fs, &mut state);
    assert_eq!(rc, 0);
    assert_eq!(shorebird_active_patch_number(&state).unwrap(), "1");
}

#[test]
fn empty_patches_directory_means_no_patch() {
    let mut fs = FakeFs::new();
    fs.write(&format!("{}/libapp.so", LIB), b"bundled");
    fs.mkdir_all(&format!("{}/patches", CACHE));
    let mut state = None;
    init(&mut state, "1.0.0", CACHE, LIB);
    let (rc, outcome) = run_update(&mut fs, &mut state);
    assert_eq!(rc, 0);
    assert!(matches!(outcome, UpdateOutcome::NoPatch));
    assert_eq!(shorebird_active_patch_number(&state), None);
}

#[test]
fn base_found_in_a_directory_whose_name_is_not_utf8() {
    let mut fs = FakeFs::new();
    let base = b"base under an odd directory name".to_vec();
    let mut odd = b"/data/app/lib/".to_vec();
    odd.extend_from_slice(&[0xff, b'a', 0xfe]);
    odd.extend_from_slice(b"/libapp.so");
    fs.write_bytes(&odd, &base);
    let target = b"patched from the odd directory".to_vec();
    let patch = make_bsdiff(&base, &target);
    fs.write(&format!("{}/patches/4/patch.bin", CACHE), &patch);
    let mut state = None;
    init(&mut state, "1.0.0", CACHE, "/data/app/lib");
    let (rc, outcome) = run_update(&mut fs, &mut state);
    assert_eq!(rc, 0);
    assert!(matches!(outcome, UpdateOutcome::Applied { .. }));
    assert_eq!(fs.file(&shorebird_active_path(&state).unwrap()).unwrap(), &target);
    assert_eq!(shorebird_active_patch_number(&state).unwrap(), "4");
}

#[test]
fn updating_again_to_an_installed_full_library_changes_nothing() {
    let mut fs = FakeFs::new();
    fs.write(&format!("{}/libapp.so", LIB), b"bundled");
    let lib2 = elf_bytes("v2");
    fs.write(&format!("{}/patches/2/libapp.so", CACHE), &lib2);
    let mut state = None;
    init(&mut state, "1.0.0", CACHE, LIB);
    assert_eq!(run_update(&mut fs, &mut state).0, 0);
    let files_before = fs.files.clone();
    let path_before = shorebird_active_path(&state).unwrap();
    let (rc, outcome) = run_update(&mut fs, &mut state);
    assert_eq!(rc, 0);
    assert!(matches!(outcome, UpdateOutcome::Applied { .. }));
    assert_eq!(fs.files, files_before);
    assert_eq!(shorebird_active_path(&state).unwrap(), path_before);
    assert_eq!(shorebird_active_patch_number(&state).unwrap(), "2");
    assert!(!fs.has_file(&format!("{}/patches/2/libapp.so.tmp", CACHE)));
}
