# tgoskits

Verified logic of a set of kernel components: the SD/MMC host controller
command engine and its interrupt bookkeeping, the block-request submission
loop, a virtual local APIC, the terminal line discipline, signal delivery and
several character devices (input events, RTC, camera, mailbox, framebuffer).

- `src/` is the library. Its functions are checked by Verus against their
  `requires`/`ensures` contracts, except the small `#[verifier::external_body]`
  wrappers around `chrono`, `bitmaps`, `ringbuf` and `compiler_fence`, whose
  contracts are trusted as their sources document them. The laws relating
  several operations are public `proof fn`s named `lemma_*`.
- `tests/` runs the library on concrete values.
- `app/` is the unverified glue that performs I/O and drives the library's
  state machines (console, task registry, terminal, local APIC actions, block
  transfer loop).
