//! Runtime patching of a Flutter `libapp.so`: the cache layout, the choice of the
//! patch to apply, the checks on patch and library files, and the decisions of an
//! update, which an embedding program drives by performing the file operations.

pub mod order;
pub mod paths;
pub mod select;
pub mod elf;
pub mod patch;
pub mod state;
pub mod layout;
pub mod update;
pub mod laws;
