# helium

The decision logic of the Helium teaching kernel for RISC-V, verified with
Verus: round-robin scheduling of statically loaded applications, system
call decoding and dispatch, trap handling, application slot layout and
loading plans, batch-mode sequencing, and the register encoding of
application and firmware calls.

- `src/` is the verified library. `task` holds the scheduler and its
  round-robin lemma, `syscall` and `user` the two sides of the system call
  interface and their agreement, `trap` the trap handler, `loader` and
  `batch` the slot layout and loading, `sbi` the firmware calls, `sync` the
  single-borrower cell.
- `app/` is the hardware side: boot, console, CSR access, `ecall`, context
  switches and memory copies, carrying out what the library decides.
- `tests/` exercise the library on concrete values.
