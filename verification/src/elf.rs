//! The check that a full `libapp.so` shipped as a patch is an ELF file.

use vstd::prelude::*;

verus! {

/// Why a file is not taken for an ELF shared library.
#[derive(Debug, Clone, Copy, PartialEq, Eq, Structural)]
pub enum ElfError {
    /// Fewer than four bytes.
    TooSmall,
    /// The first four bytes are not `0x7f 'E' 'L' 'F'`.
    BadMagic,
}

/// The bytes start with the ELF magic number `0x7f 'E' 'L' 'F'`.
pub open spec fn has_elf_magic(b: Seq<u8>) -> bool {
    &&& b.len() >= 4
    &&& b[0] == 0x7f
    &&& b[1] == 0x45
    &&& b[2] == 0x4c
    &&& b[3] == 0x46
}

/// What the check gives for a file's contents: its size, or why it is refused.
pub open spec fn elf_check(b: Seq<u8>) -> Result<u64, ElfError> {
    if b.len() < 4 {
        Err(ElfError::TooSmall)
    } else if !has_elf_magic(b) {
        Err(ElfError::BadMagic)
    } else {
        Ok(b.len() as u64)
    }
}

/// Checks that a file's contents are an ELF file and returns their size.
pub fn verify_elf(bytes: &[u8]) -> (r: Result<u64, ElfError>)
    ensures
        r == elf_check(bytes@),
{
    if bytes.len() < 4 {
        return Err(ElfError::TooSmall);
    }
    if bytes[0] != 0x7f || bytes[1] != 0x45 || bytes[2] != 0x4c || bytes[3] != 0x46 {
        return Err(ElfError::BadMagic);
    }
    Ok(bytes.len() as u64)
}

} // verus!
