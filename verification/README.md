# dbg_rs

A Linux x86_64 debugger over `ptrace`, with its logic verified by Verus:

- process lifecycle control (`launch`, `attach`, `continue`, `detach`, `terminate`)
- x86_64 register read/write with alias-aware semantics (`rax/eax/ax/al/ah`, etc.)
- stop-path latency and `ptrace` roundtrip metrics

## Layout

- `src/domain.rs`: errors, ids, stop events, register values, and the `DebugBackend` trait
- `src/aliases.rs`, `src/registers.rs`: register names, and reads and writes of a register frame
- `src/metrics.rs`, `src/engine.rs`: the session state machine and its accounts
- `src/linux.rs`: what the ptrace backend does next, given how the last system call ended
- `src/numbers.rs`, `src/commands.rs`, `src/session.rs`: the command line
- `src/text.rs`: numbers as text
- `app/`: argument handling, input and output, and the system calls

The library makes no system call. `LinuxBackend` hands out one step at a time, `app/` performs it
and hands the outcome back.

## Commands of the prompt

- `run <program> [args...]`
- `attach <pid>`
- `continue|c [count]`
- `status`
- `detach`
- `kill|terminate`
- `metrics`
- `regs read all|<name>`
- `regs write <name> <value>`
- `help`
- `quit|q|exit`
