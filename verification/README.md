# fakeroost

`fakeroost` runs a command in a `fakeroot`-like environment: the program believes it is
root and sees whatever file ownership it sets (via `chown`, `mknod`, extended attributes),
while nothing on disk actually changes.

It intercepts at the syscall boundary, so it works with statically linked programs, and it
needs no privileges: a seccomp filter stops the few syscalls that matter, and a ptrace
supervisor answers them. Supported are Linux on `x86_64`, `aarch64` and `riscv64`.

```sh
fakeroost <program> [args...]
```

## Layout

- `src/`: the library, verified with [Verus](https://github.com/verus-lang/verus). It holds
  every decision of the supervisor: which syscalls are trapped, what their registers ask
  for, what is recorded, what a stat reports, what is done at each stop of a traced
  process, and how a command is rewritten to run under the supervisor. It performs no I/O:
  where something has to be read, looked up or written, it says so and takes the answer.
- `app/`: the program around it: ptrace, process memory, files, `fork` and `exec`.
- `tests/`: the library at work, among others on a simulated process and filesystem.

## What is proved

Each function states exactly what it returns. Beyond that, the library states what holds
across functions, as public proof functions whose names begin with `law_`. Among them:

- exactly the syscalls that have a handler are trapped, and each of them once;
- a file of which nothing is known is reported as root's, and as it really is otherwise;
- a `chown`, `chmod` or `mknod` is read back by every later stat, of either flavor;
- what was set lasts through any number of syscalls on other files;
- an extended attribute that was set is read back, and listed once;
- once the last name of an inode is gone, a file that reuses it inherits nothing, whether
  a file or a directory was removed or overwritten; a rename of a file onto its own name
  leaves its record alone;
- a stat that is answered from a notification looks at the same file as the ptrace path
  would, and what cannot be answered is left to the kernel;
- a syscall that would really change an owner or credentials never reaches the kernel;
- the supervisor reports its command's own exit status, whatever the rest of the process
  tree does.

Outside code is called through a few small wrappers whose contracts are believed: device
numbers (`src/device.rs`) and the seccomp compiler (`src/filter.rs`).

## Limitations

- No state is kept across runs; the table lives only as long as one run.
- `Command::env_clear()` is not carried over to the command that runs under fakeroot,
  because there is no stable way to ask for it.
