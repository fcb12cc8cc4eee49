use pultflut_updater::elf::{verify_elf, ElfError};
use pultflut_updater::layout::{
    base_candidate_paths, dir_names_of, first_true_index, patch_probes, subdir_names_of,
    DirEntryInfo,
};
use pultflut_updater::order::{bytes_less, name_less};
use pultflut_updater::patch::{
    apply_bsdiff, make_bsdiff, patch_header_overflows, patch_percent, PatchError,
};
use pultflut_updater::paths::{join_path, libapp_path, patch_file, patches_dir, tmp_output};
use pultflut_updater::select::{find_latest_patch, PatchDirInfo};
use pultflut_updater::state::{
    is_nul_free, shorebird_active_patch_number, shorebird_active_path, shorebird_init,
    with_state_mut, UpdaterState,
};

#[test]
fn join_adds_one_separator() {
    assert_eq!(join_path("a", "b"), "a/b");
    assert_eq!(join_path("a/", "b"), "a/b");
    assert_eq!(join_path("", "b"), "b");
    assert_eq!(join_path("a", "/b"), "/b");
    assert_eq!(join_path("/data/lib", ""), "/data/lib/");
}

#[test]
fn join_agrees_with_pathbuf() {
    for (a, b) in [("x", "y"), ("x/", "y"), ("/", "y"), ("x", "/y"), ("", "y"), ("x//", "y")] {
        let expected = std::path::Path::new(a).join(b);
        assert_eq!(join_path(a, b), expected.to_str().unwrap());
    }
}

#[test]
fn cache_layout() {
    let pd = patches_dir("/c");
    assert_eq!(pd, "/c/patches");
    let dir = join_path(&pd, "7");
    assert_eq!(patch_file(&dir), "/c/patches/7/patch.bin");
    assert_eq!(libapp_path(&dir), "/c/patches/7/libapp.so");
    assert_eq!(tmp_output(&dir), "/c/patches/7/libapp.so.tmp");
}

#[test]
fn byte_order_is_string_order() {
    let words = ["", "1", "10", "2", "a", "ab", "b", "\u{e9}", "z\u{0}"];
    for a in words {
        for b in words {
            assert_eq!(name_less(a, b), a < b, "{:?} < {:?}", a, b);
            assert_eq!(bytes_less(a.as_bytes(), b.as_bytes()), a.as_bytes() < b.as_bytes());
        }
    }
}

fn info(name: &str, has_bsdiff: bool, has_full: bool) -> PatchDirInfo {
    PatchDirInfo { name: name.to_string(), has_bsdiff, has_full }
}

#[test]
fn latest_patch_is_greatest_name() {
    let entries = vec![info("1", true, false), info("3", false, true), info("2", true, true)];
    assert_eq!(find_latest_patch(&entries), Some(1));
}

#[test]
fn latest_patch_is_lexicographic_not_numeric() {
    let entries = vec![info("10", true, false), info("9", true, false)];
    assert_eq!(find_latest_patch(&entries), Some(1));
}

#[test]
fn directories_without_patch_files_are_skipped() {
    let entries = vec![info("1", true, false), info("5", false, false)];
    assert_eq!(find_latest_patch(&entries), Some(0));
    let none = vec![info("5", false, false)];
    assert_eq!(find_latest_patch(&none), None);
    assert_eq!(find_latest_patch(&Vec::new()), None);
}

#[test]
fn equal_names_keep_the_first() {
    let entries = vec![info("4", true, false), info("4", false, true)];
    assert_eq!(find_latest_patch(&entries), Some(0));
}

#[test]
fn elf_check() {
    assert_eq!(verify_elf(&[0x7f, b'E', b'L', b'F', 0, 1, 2]), Ok(7));
    assert_eq!(verify_elf(&[0x7f, b'E', b'L']), Err(ElfError::TooSmall));
    assert_eq!(verify_elf(b""), Err(ElfError::TooSmall));
    assert_eq!(verify_elf(b"MZ\x90\x00"), Err(ElfError::BadMagic));
}

#[test]
fn init_takes_utf8() {
    let mut state = None;
    assert_eq!(shorebird_init(&mut state, b"1.0.0+1", b"/c", b"/l"), 0);
    let s = state.as_ref().unwrap();
    assert_eq!(s.release_version, "1.0.0+1");
    assert_eq!(s.cache_dir, "/c");
    assert_eq!(s.libapp_dir, "/l");
    assert_eq!(shorebird_active_path(&state).unwrap(), "/l/libapp.so");
    assert_eq!(shorebird_active_patch_number(&state), None);
}

#[test]
fn init_refuses_invalid_utf8_and_keeps_state() {
    let mut state = None;
    assert_eq!(shorebird_init(&mut state, b"1.0", &[0xff, 0xfe], b"/l"), 1);
    assert!(state.is_none());
    assert_eq!(shorebird_init(&mut state, b"1.0", b"/c", b"/l"), 0);
    assert_eq!(shorebird_init(&mut state, &[0xc3], b"/d", b"/m"), 1);
    assert_eq!(state.as_ref().unwrap().cache_dir, "/c");
}

#[test]
fn init_decodes_non_ascii() {
    let mut state = None;
    assert_eq!(shorebird_init(&mut state, "v\u{e9}".as_bytes(), b"/c", "/l\u{e9}".as_bytes()), 0);
    assert_eq!(state.as_ref().unwrap().release_version, "v\u{e9}");
    assert_eq!(shorebird_active_path(&state).unwrap(), "/l\u{e9}/libapp.so");
}

#[test]
fn nothing_is_active_before_init() {
    let state: Option<UpdaterState> = None;
    assert_eq!(shorebird_active_path(&state), None);
    assert_eq!(shorebird_active_patch_number(&state), None);
}

#[test]
fn paths_with_nul_are_not_handed_out() {
    assert!(is_nul_free("abc"));
    assert!(!is_nul_free("a\u{0}c"));
    let mut state = Some(UpdaterState::new("1".to_string(), "/c".to_string(), "/l".to_string()));
    if let Some(s) = state.as_mut() {
        s.active_path = "/x\u{0}y".to_string();
        s.active_patch_number = Some("3\u{0}".to_string());
    }
    assert_eq!(shorebird_active_path(&state), None);
    assert_eq!(shorebird_active_patch_number(&state), None);
}

#[test]
fn with_state_mut_runs_only_when_initialized() {
    let mut state: Option<UpdaterState> = None;
    let r = with_state_mut(&mut state, |s| (s, 5));
    assert_eq!(r, None);
    assert!(state.is_none());

    let mut state = Some(UpdaterState::new("1".to_string(), "/c".to_string(), "/l".to_string()));
    let r = with_state_mut(&mut state, |mut s| {
        s.active_patch_number = Some("9".to_string());
        let dirs = (s.cache_dir.clone(), s.libapp_dir.clone());
        (s, dirs)
    });
    assert_eq!(r, Some(("/c".to_string(), "/l".to_string())));
    assert_eq!(state.unwrap().active_patch_number, Some("9".to_string()));
}

fn entry(name: &str, is_dir: bool) -> DirEntryInfo {
    DirEntryInfo { name: name.as_bytes().to_vec(), is_dir }
}

#[test]
fn listing_keeps_named_directories() {
    let listing = vec![
        entry("1", true),
        entry("notes.txt", false),
        DirEntryInfo { name: vec![0xff, 0xfe], is_dir: true },
        entry("2", true),
    ];
    assert_eq!(dir_names_of(&listing), vec!["1".to_string(), "2".to_string()]);
}

#[test]
fn subdirectories_keep_names_that_are_not_utf8() {
    let listing = vec![
        entry("arm64", true),
        entry("libapp.so", false),
        DirEntryInfo { name: vec![0xff, 0xfe], is_dir: true },
    ];
    assert_eq!(subdir_names_of(&listing), vec![b"arm64".to_vec(), vec![0xff, 0xfe]]);
}

#[test]
fn probes_of_patch_directories() {
    let names = vec!["1".to_string(), "b".to_string()];
    assert_eq!(
        patch_probes("/c/patches", &names),
        vec![
            b"/c/patches/1/patch.bin".to_vec(),
            b"/c/patches/1/libapp.so".to_vec(),
            b"/c/patches/b/patch.bin".to_vec(),
            b"/c/patches/b/libapp.so".to_vec(),
        ]
    );
}

#[test]
fn base_candidates_in_order() {
    let subdirs = vec![b"arm64".to_vec(), vec![0xc0, b'x']];
    let got = base_candidate_paths(b"/app/lib", &subdirs, &Some(b"/app".to_vec()));
    let mut want: Vec<Vec<u8>> = vec![b"/app/lib/libapp.so".to_vec(), b"/app/lib/arm64/libapp.so".to_vec()];
    want.push(b"/app/lib/\xc0x/libapp.so".to_vec());
    for p in [
        "/app/lib/arm64-v8a/libapp.so",
        "/app/lib/arm64/libapp.so",
        "/app/lib/x86_64/libapp.so",
        "/app/lib/x86/libapp.so",
        "/app/lib/armeabi-v7a/libapp.so",
        "/app/arm64-v8a/libapp.so",
        "/app/arm64/libapp.so",
        "/app/x86_64/libapp.so",
        "/app/x86/libapp.so",
        "/app/armeabi-v7a/libapp.so",
    ] {
        want.push(p.as_bytes().to_vec());
    }
    assert_eq!(got, want);
    let no_parent = base_candidate_paths(b"lib", &Vec::new(), &None);
    assert_eq!(no_parent.len(), 6);
}

#[test]
fn first_set_flag() {
    assert_eq!(first_true_index(&vec![false, true, true]), Some(1));
    assert_eq!(first_true_index(&vec![false, false]), None);
    assert_eq!(first_true_index(&Vec::new()), None);
}

#[test]
fn patch_round_trip() {
    let source: Vec<u8> = (0..10_000u32).map(|i| (i % 251) as u8).collect();
    let mut target = source.clone();
    target[5000] = 1;
    target.extend_from_slice(b"tail");
    let patch = make_bsdiff(&source, &target);
    assert!(!patch_header_overflows(&patch));
    assert_eq!(&patch[..8], b"BSDIFF40");
    let out = apply_bsdiff(&source, &patch).unwrap();
    assert_eq!(out, target);
    assert_ne!(out, source);
}

#[test]
fn empty_target_round_trip() {
    let source = b"something".to_vec();
    let patch = make_bsdiff(&source, b"");
    assert_eq!(apply_bsdiff(&source, &patch).unwrap(), Vec::<u8>::new());
}

#[test]
fn garbage_patch_is_a_parse_error() {
    let r = apply_bsdiff(b"base", b"NOT A VALID BSDIFF");
    assert!(matches!(r, Err(PatchError::Parse(_))));
    assert!(!patch_header_overflows(b"NOT A VALID BSDIFF"));
}

#[test]
fn short_patch_is_a_parse_error() {
    let source = b"hello world".to_vec();
    let patch = make_bsdiff(&source, b"hello there");
    let cut = &patch[..31];
    assert!(matches!(apply_bsdiff(&source, cut), Err(PatchError::Parse(_))));
}

#[test]
fn patch_for_another_base_fails_to_apply() {
    let source: Vec<u8> = (0..2000u32).map(|i| (i % 256) as u8).collect();
    let mut target = source.clone();
    target[1000] ^= 0x55;
    let patch = make_bsdiff(&source, &target);
    let r = apply_bsdiff(b"short", &patch);
    assert!(matches!(r, Err(PatchError::Apply(_))));
}

#[test]
fn oversized_header_is_detected() {
    let mut p = b"BSDIFF40".to_vec();
    p.extend_from_slice(&[0xff; 8]);
    p.extend_from_slice(&[0xff; 8]);
    p.extend_from_slice(&[0; 8]);
    assert!(patch_header_overflows(&p));
    let mut big = b"BSDIFF40".to_vec();
    big.extend_from_slice(&[100, 0, 0, 0, 0, 0, 0, 0]);
    big.extend_from_slice(&[0; 16]);
    assert!(!patch_header_overflows(&big));
    assert!(matches!(apply_bsdiff(b"", &big), Err(PatchError::Parse(_))));
    let mut q = b"BSDIFF40".to_vec();
    q.extend_from_slice(&[0x01, 0, 0, 0, 0, 0, 0, 0x80]);
    q.extend_from_slice(&[0x00, 0, 0, 0, 0, 0, 0, 0x00]);
    q.extend_from_slice(&[0; 8]);
    assert!(patch_header_overflows(&q));
}

#[test]
fn percent_of_target() {
    assert_eq!(patch_percent(50, 200), 25);
    assert_eq!(patch_percent(3, 0), 300);
    assert_eq!(patch_percent(0, 7), 0);
}
