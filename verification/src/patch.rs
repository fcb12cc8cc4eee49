//! bsdiff 4.x patches: their header, and applying and producing them with qbsdiff.

use vstd::prelude::*;

verus! {

/// `std::io::Error`, as the patcher reports a failure.
#[verifier::external_type_specification]
#[verifier::external_body]
pub struct ExIoError(std::io::Error);

/// The largest source that qbsdiff's suffix array can index (`i32::MAX`).
pub const MAX_SOURCE_LEN: usize = 2147483647;

/// Why a patch could not be applied.
#[derive(Debug)]
pub enum PatchError {
    /// The patch does not start with a bsdiff 4.x header.
    Parse(std::io::Error),
    /// The header was read, but the patch did not apply to the base.
    Apply(std::io::Error),
}

/// Little-endian value of a byte string.
pub open spec fn le_value(b: Seq<u8>) -> nat
    decreases b.len(),
{
    if b.len() == 0 {
        0
    } else {
        (b[0] as nat) + (256 as nat) * le_value(b.drop_first())
    }
}

/// `256` to the power `n`.
pub open spec fn pow256(n: nat) -> nat
    decreases n,
{
    if n == 0 {
        1
    } else {
        (256 as nat) * pow256((n - 1) as nat)
    }
}

/// The size field at `off` of a bsdiff header, read as qbsdiff reads it: a
/// sign-and-magnitude 64-bit integer, taken as a `u64`.
pub open spec fn header_field(p: Seq<u8>, off: int) -> int {
    let x = le_value(p.subrange(off, off + 8));
    if x <= 0x8000_0000_0000_0000 {
        x as int
    } else {
        0x1_0000_0000_0000_0000 - (x - 0x8000_0000_0000_0000)
    }
}

/// The patch starts with the 32-byte header whose first 8 bytes are `BSDIFF40`.
pub open spec fn has_bsdiff_magic(p: Seq<u8>) -> bool {
    &&& p.len() >= 32
    &&& p[0] == 0x42
    &&& p[1] == 0x53
    &&& p[2] == 0x44
    &&& p[3] == 0x49
    &&& p[4] == 0x46
    &&& p[5] == 0x46
    &&& p[6] == 0x34
    &&& p[7] == 0x30
}

/// The header is one that qbsdiff accepts: the magic, and compressed control and
/// delta blocks that fit in the patch.
pub open spec fn header_valid(p: Seq<u8>) -> bool {
    &&& has_bsdiff_magic(p)
    &&& 32 + header_field(p, 8) + header_field(p, 16) <= p.len()
}

/// The header's block sizes are so large that their sum overflows a `u64`, which
/// makes qbsdiff's header check overflow.
pub open spec fn header_overflows(p: Seq<u8>) -> bool {
    &&& has_bsdiff_magic(p)
    &&& 32 + header_field(p, 8) + header_field(p, 16) > u64::MAX
}

/// What qbsdiff's `Bspatch` produces from a source and a patch, if it succeeds.
pub uninterp spec fn bspatch_output(source: Seq<u8>, patch: Seq<u8>) -> Option<Seq<u8>>;

/// The patch that qbsdiff's `Bsdiff` produces from a source and a target.
pub uninterp spec fn bsdiff_output(source: Seq<u8>, target: Seq<u8>) -> Seq<u8>;

/// Applies a patch with `qbsdiff::Bspatch::new(patch)` and `Bspatch::apply` into a
/// fresh `Vec`, as the crate's documentation shows; a failure of `new` is reported as
/// `Parse`, one of `apply` as `Apply`. Trusted: the result is
/// `bspatch_output(source, patch)`; `new` fails exactly on a patch whose header is
/// not valid (`parse` in qbsdiff's bspatch.rs). The header's size check overflows
/// when the block sizes sum past `u64::MAX`, which `requires` leaves out.
#[verifier::external_body]
fn qbsdiff_bspatch(source: &[u8], patch: &[u8]) -> (r: Result<Vec<u8>, PatchError>)
    requires
        !header_overflows(patch@),
    ensures
        r is Ok <==> bspatch_output(source@, patch@) is Some,
        r matches Ok(t) ==> bspatch_output(source@, patch@) == Some(t@),
        r matches Err(PatchError::Parse(_)) <==> !header_valid(patch@),
{
    let patcher = match qbsdiff::Bspatch::new(patch) {
        Ok(p) => p,
        Err(e) => return Err(PatchError::Parse(e)),
    };
    let mut target = Vec::new();
    match patcher.apply(source, std::io::Cursor::new(&mut target)) {
        Ok(_) => Ok(target),
        Err(e) => Err(PatchError::Apply(e)),
    }
}

/// Produces a patch with `qbsdiff::Bsdiff::new(source, target).compare` into a fresh
/// `Vec`. Trusted: it succeeds, since `compare` fails only when its output writer
/// does and a cursor over a `Vec` does not; the patch is
/// `bsdiff_output(source, target)`; it carries a valid header (`pack` in qbsdiff's
/// bsdiff.rs writes the sizes of the blocks that follow it); and applying it to
/// `source` gives `target`, which is what the crate is for. `Bsdiff::new` panics on
/// a source longer than `MAX_SOURCE_LEN`.
#[verifier::external_body]
fn qbsdiff_bsdiff(source: &[u8], target: &[u8]) -> (r: Result<Vec<u8>, std::io::Error>)
    requires
        source@.len() <= MAX_SOURCE_LEN,
    ensures
        r is Ok,
        r matches Ok(p) ==> p@ == bsdiff_output(source@, target@),
        r matches Ok(p) ==> header_valid(p@),
        r matches Ok(p) ==> bspatch_output(source@, p@) == Some(target@),
{
    let mut patch = Vec::new();
    qbsdiff::Bsdiff::new(source, target).compare(std::io::Cursor::new(&mut patch))?;
    Ok(patch)
}

proof fn lemma_pow256_mono(n: nat, m: nat)
    requires
        n <= m,
    ensures
        pow256(n) <= pow256(m),
    decreases m,
{
    if n < m {
        lemma_pow256_mono(n, (m - 1) as nat);
    }
}

proof fn lemma_pow256_8()
    ensures
        pow256(8) == 0x1_0000_0000_0000_0000,
{
    reveal_with_fuel(pow256, 9);
}

proof fn lemma_le_value_bound(b: Seq<u8>)
    ensures
        le_value(b) < pow256(b.len()),
    decreases b.len(),
{
    if b.len() > 0 {
        lemma_le_value_bound(b.drop_first());
    }
}

/// Reads the little-endian `u64` at `off`.
fn read_le_u64(p: &[u8], off: usize) -> (r: u64)
    requires
        off + 8 <= p@.len(),
    ensures
        r == le_value(p@.subrange(off as int, off + 8)),
{
    let mut acc: u64 = 0;
    let mut k: usize = 8;
    assert(p@.subrange(off + 8, off + 8) =~= Seq::<u8>::empty());
    while k > 0
        invariant
            k <= 8,
            off + 8 <= p.len(),
            acc == le_value(p@.subrange(off + k, off + 8)),
            acc < pow256((8 - k) as nat),
        decreases k,
    {
        proof {
            lemma_pow256_mono((9 - k) as nat, 8);
            lemma_pow256_8();
            assert(p@.subrange(off + k - 1, off + 8).drop_first()
                =~= p@.subrange(off + k, off + 8));
        }
        let byte = p[off + (k - 1)];
        acc = acc * 256 + byte as u64;
        k = k - 1;
        proof {
            lemma_le_value_bound(p@.subrange(off + k, off + 8));
        }
    }
    acc
}

/// The header field at `off`, as qbsdiff decodes it.
fn read_header_field(p: &[u8], off: usize) -> (r: u64)
    requires
        off + 8 <= p@.len(),
    ensures
        r == header_field(p@, off as int),
{
    let x = read_le_u64(p, off);
    if x <= 0x8000_0000_0000_0000 {
        x
    } else {
        u64::MAX - (x - 0x8000_0000_0000_0000) + 1
    }
}

fn has_magic(p: &[u8]) -> (r: bool)
    ensures
        r == has_bsdiff_magic(p@),
{
    p.len() >= 32 && p[0] == 0x42 && p[1] == 0x53 && p[2] == 0x44 && p[3] == 0x49 && p[4]
        == 0x46 && p[5] == 0x46 && p[6] == 0x34 && p[7] == 0x30
}

/// The sum of the header's magic-checked block sizes, plus the header's own size.
fn header_span(p: &[u8]) -> (r: u128)
    requires
        has_bsdiff_magic(p@),
    ensures
        r == 32 + header_field(p@, 8) + header_field(p@, 16),
{
    let c = read_header_field(p, 8);
    let d = read_header_field(p, 16);
    32 + c as u128 + d as u128
}

/// Whether the patch's header makes qbsdiff's size check overflow.
pub fn patch_header_overflows(patch: &[u8]) -> (r: bool)
    ensures
        r == header_overflows(patch@),
{
    has_magic(patch) && header_span(patch) > u64::MAX as u128
}

/// `patch` is the patch qbsdiff makes from `source` and `target`: a valid bsdiff
/// file that turns `source` into `target`.
pub open spec fn made_from(source: Seq<u8>, target: Seq<u8>, patch: Seq<u8>) -> bool {
    &&& patch == bsdiff_output(source, target)
    &&& header_valid(patch)
    &&& bspatch_output(source, patch) == Some(target)
}

/// Applies a bsdiff patch to the base library and returns the patched library.
pub fn apply_bsdiff(base: &[u8], patch: &[u8]) -> (r: Result<Vec<u8>, PatchError>)
    requires
        !header_overflows(patch@),
    ensures
        r is Ok <==> bspatch_output(base@, patch@) is Some,
        r matches Ok(t) ==> bspatch_output(base@, patch@) == Some(t@),
        r matches Err(PatchError::Parse(_)) <==> !header_valid(patch@),
{
    qbsdiff_bspatch(base, patch)
}

/// Produces the bsdiff patch that turns `source` into `target`.
pub fn make_bsdiff(source: &[u8], target: &[u8]) -> (p: Vec<u8>)
    requires
        source@.len() <= MAX_SOURCE_LEN,
    ensures
        made_from(source@, target@, p@),
{
    qbsdiff_bsdiff(source, target).unwrap()
}

/// The patch's size as a whole percentage of the target's, rounded down (a target
/// of no bytes counts as one).
pub fn patch_percent(patch_len: usize, target_len: usize) -> (r: usize)
    requires
        patch_len * 100 <= usize::MAX,
    ensures
        r == patch_len * 100 / (if target_len == 0 { 1 } else { target_len as int }),
{
    let d = if target_len == 0 { 1 } else { target_len };
    patch_len * 100 / d
}

} // verus!
