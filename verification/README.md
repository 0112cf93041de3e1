# wasm_host

The host side of a small WebAssembly ABI (`os::io`, `os::proc`, `os::fs`,
`os::screen`, `os::time`) for a hobby kernel, verified with Verus.

- `src/` is the verified library: guest-memory reads and writes, the
  argument checks and return codes of every host function, key encoding,
  the line editor, the decisions of the program runner, and the shell's
  `run` command. Scancode decoding is done by the `pc-keyboard` crate; the
  library states how its results are passed on, not what they are.
- `app/` is the kernel-side glue: it registers the host functions on a
  `wasmi` linker, takes guest memory out of the caller, performs the kernel
  calls (files, screen, clock, console, keyboard queue, executor) and runs
  the asynchronous runner loop.
- `tests/` exercises the library on concrete values.
