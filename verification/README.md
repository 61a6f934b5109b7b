# xen

Decision logic of a Xen toolstack, verified with Verus.

- `src/vchan` — streams over libxenvchan: connecting, blocking and non-blocking
  transfers, exact sends and receives.
- `src/restore.rs` — loading a checkpoint into a domain through libxenguest.
- `src/platform` — creating, restoring and destroying domains.
- `src/outside.rs` — what is taken for granted of other crates.

The library makes no hypercall and no call into a C library. Each operation is
a step function: given what the last call returned, it answers with the next
call to make or with the result. `app/` performs the calls. What holds of whole
operations, whatever the calls return, is proved in the `laws` modules and at
the end of `src/restore.rs`.
