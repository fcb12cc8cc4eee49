//! The updater's state: the directories it was given, and the library to load.

use vstd::prelude::*;
use vstd::utf8::{decode_utf8, encode_utf8, valid_utf8};
use crate::paths::{libapp_of, libapp_path};

verus! {

/// What the updater knows after it was initialized.
#[derive(Debug)]
pub struct UpdaterState {
    /// The cache directory, e.g. `/data/data/<package>/cache/shorebird_updater`.
    pub cache_dir: String,
    /// The directory of the app's native libraries, e.g. `/data/data/<package>/lib`.
    pub libapp_dir: String,
    /// The version of the app as it was shipped.
    pub release_version: String,
    /// The `libapp.so` that should be loaded: the shipped one or a patched one.
    pub active_path: String,
    /// The number of the patch in use, if any.
    pub active_patch_number: Option<String>,
}

/// `s` is the state right after initialization with the given values: the shipped
/// library is active and no patch is.
pub open spec fn is_fresh_state(
    s: UpdaterState,
    release_version: Seq<char>,
    cache_dir: Seq<char>,
    libapp_dir: Seq<char>,
) -> bool {
    &&& s.release_version@ == release_version
    &&& s.cache_dir@ == cache_dir
    &&& s.libapp_dir@ == libapp_dir
    &&& s.active_path@ == libapp_of(libapp_dir)
    &&& s.active_patch_number is None
}

/// Decodes UTF-8 text with `std::str::from_utf8`. Trusted: it succeeds exactly on
/// valid UTF-8, and the text is the decoding of the bytes (std's documentation).
#[verifier::external_body]
pub(crate) fn utf8_to_string(bytes: &[u8]) -> (r: Option<String>)
    ensures
        r is Some <==> valid_utf8(bytes@),
        r matches Some(s) ==> s@ == decode_utf8(bytes@),
{
    std::str::from_utf8(bytes).ok().map(|s| s.to_owned())
}

impl UpdaterState {
    /// The state right after initialization: the shipped library is active.
    pub fn new(release_version: String, cache_dir: String, libapp_dir: String) -> (r: Self)
        ensures
            is_fresh_state(r, release_version@, cache_dir@, libapp_dir@),
    {
        let active_path = libapp_path(libapp_dir.as_str());
        UpdaterState {
            cache_dir,
            libapp_dir,
            release_version,
            active_path,
            active_patch_number: None,
        }
    }
}

/// Initializes the updater from the three strings an app passes in (their bytes,
/// without the terminating NUL). Returns 0 and sets the state when all three are
/// valid UTF-8; returns 1 and leaves the state as it was otherwise.
pub fn shorebird_init(
    state: &mut Option<UpdaterState>,
    release_version: &[u8],
    cache_dir: &[u8],
    libapp_dir: &[u8],
) -> (rc: i32)
    ensures
        valid_utf8(release_version@) && valid_utf8(cache_dir@) && valid_utf8(libapp_dir@) ==> {
            &&& rc == 0
            &&& *final(state) matches Some(s) && is_fresh_state(
                s,
                decode_utf8(release_version@),
                decode_utf8(cache_dir@),
                decode_utf8(libapp_dir@),
            )
        },
        !(valid_utf8(release_version@) && valid_utf8(cache_dir@) && valid_utf8(libapp_dir@)) ==> {
            &&& rc == 1
            &&& *final(state) == *old(state)
        },
{
    let release_version = match utf8_to_string(release_version) {
        Some(s) => s,
        None => return 1,
    };
    let cache_dir = match utf8_to_string(cache_dir) {
        Some(s) => s,
        None => return 1,
    };
    let libapp_dir = match utf8_to_string(libapp_dir) {
        Some(s) => s,
        None => return 1,
    };
    *state = Some(UpdaterState::new(release_version, cache_dir, libapp_dir));
    0
}

/// Runs `f` on the state if the updater was initialized, and gives back its result;
/// gives back `None` and leaves the state alone otherwise.
pub fn with_state_mut<F, R>(state: &mut Option<UpdaterState>, f: F) -> (r: Option<R>) where
    F: FnOnce(UpdaterState) -> (UpdaterState, R),

    requires
        *old(state) matches Some(s) ==> f.requires((s,)),
    ensures
        (*final(state) is Some) == (*old(state) is Some),
        (r is Some) == (*old(state) is Some),
        *old(state) is None ==> r is None && *final(state) == *old(state),
        *old(state) matches Some(s) ==> exists|s2: UpdaterState, v: R|
            f.ensures((s,), (s2, v)) && *final(state) == Some(s2) && r == Some(v),
{
    match state.take() {
        Some(s) => {
            let (s2, v) = f(s);
            *state = Some(s2);
            Some(v)
        },
        None => None,
    }
}

/// The text has no NUL byte, so it can be handed out as a C string.
pub open spec fn nul_free(s: Seq<char>) -> bool {
    !encode_utf8(s).contains(0u8)
}

/// Whether the text has no NUL byte.
pub fn is_nul_free(s: &str) -> (r: bool)
    ensures
        r == nul_free(s@),
{
    let b = s.as_bytes();
    let mut i: usize = 0;
    while i < b.len()
        invariant
            i <= b@.len(),
            b@ == encode_utf8(s@),
            forall|j: int| 0 <= j < i ==> b@[j] != 0u8,
        decreases b@.len() - i,
    {
        if b[i] == 0 {
            return false;
        }
        i = i + 1;
    }
    true
}

/// The path of the library to load, or `None` when the updater is not initialized
/// or the path holds a NUL byte.
pub fn shorebird_active_path(state: &Option<UpdaterState>) -> (r: Option<String>)
    ensures
        match *state {
            None => r is None,
            Some(s) => if nul_free(s.active_path@) {
                r matches Some(p) && p@ == s.active_path@
            } else {
                r is None
            },
        },
{
    match state {
        Some(s) => {
            if is_nul_free(s.active_path.as_str()) {
                Some(s.active_path.clone())
            } else {
                None
            }
        },
        None => None,
    }
}

/// The number of the patch in use, or `None` when the updater is not initialized,
/// no patch is in use, or the number holds a NUL byte.
pub fn shorebird_active_patch_number(state: &Option<UpdaterState>) -> (r: Option<String>)
    ensures
        match *state {
            Some(s) => match s.active_patch_number {
                Some(n) => if nul_free(n@) {
                    r matches Some(p) && p@ == n@
                } else {
                    r is None
                },
                None => r is None,
            },
            None => r is None,
        },
{
    match state {
        Some(s) => match &s.active_patch_number {
            Some(n) => {
                if is_nul_free(n.as_str()) {
                    Some(n.clone())
                } else {
                    None
                }
            },
            None => None,
        },
        None => None,
    }
}

} // verus!
