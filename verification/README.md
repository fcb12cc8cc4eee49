# pultflut_updater

Runtime patching of a Flutter app's `libapp.so` on Android, with bsdiff patches.

Patches wait in `<cache_dir>/patches/<patch_number>/`, each holding either a bsdiff
4.x `patch.bin` (applied to the app's own `libapp.so`) or a complete `libapp.so`. An
update takes the patch directory with the lexicographically greatest name, builds the
new library in `libapp.so.tmp`, renames it to `libapp.so`, and makes it the library
to load.

- `src/` is the library, verified with Verus: paths and the cache layout (`paths`),
  byte order (`order`), the choice of the patch (`select`), the files an update
  probes (`layout`), the ELF check (`elf`), bsdiff headers and the calls into qbsdiff
  (`patch`), the updater's state and its C-API results (`state`), the update as a
  state machine that asks its host for each file operation (`update`), and the
  properties that span these (`laws`).
- `app/` is the native library around it: the C API with its thread-local state, the
  host that performs file operations, the JNI entry points, and the `bsdiff` /
  `bspatch` developer tools.
- `tests/` drives updates against an in-memory file system.
