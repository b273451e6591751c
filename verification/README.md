# mars_rcore

A small RISC-V kernel for the Milk-V Mars board, run in supervisor mode
without an MMU, and the user library its test programs are built on.

`src/` is the verified library. It holds every decision the kernel makes,
each stated as a contract and proved with Verus:

- `task`: the task table and round-robin scheduling (yield, exit, first
  run), with the laws that exactly one task runs, that finished tasks are
  never revived, and that the next task is the first ready one in ring
  order;
- `sys_call`: decoding system calls and deciding on them, including the
  checks that keep every user buffer inside the caller's own memory;
- `trap`: decoding the cause register and the decision for each trap;
- `app_loader`, `batch`: where applications, stacks and initial contexts
  go, and how images are copied;
- `log`, `time`, `stack_trace`: the log filter and line layout, clock
  conversions and frame-record addresses;
- `usr`: how user code encodes its calls, and the sleep test program.

`app/` is the bare-metal glue: boot, register and memory access, context
switches, SBI calls and console output. `tests/` exercises the library.
