//! fakeroot in a library: run a command under a supervisor that lets it believe that it
//! runs as root.
//!
//! The command sees uid and gid 0, `chown`, `mknod` and extended attributes appear to
//! work, and `stat` reports what they were given, while the real filesystem keeps its
//! real owners. Nothing needs privileges: a seccomp filter stops the few syscalls that
//! matter, and a tracer answers them.
//!
//! This crate is the logic of such a supervisor. It decides; it performs no I/O itself:
//!
//! - [`command`]: how a command is rewritten to run under the supervisor, and what the
//!   supervisor runs in turn.
//! - [`filter`]: the seccomp program that picks out the syscalls to stop.
//! - [`supervisor`]: what to do at each stop of the traced processes.
//! - [`handlers`]: what each intercepted syscall means, is recorded as, and returns.
//! - [`user_notif`]: the stat family, answered from seccomp notifications.
//! - [`table`]: the ownership that is pretended, by inode.
//! - [`mem`] and [`path`]: reading a tracee's memory, and naming the files it means.
//! - [`arch`]: the syscall registers of the supported architectures.
//! - [`device`]: device numbers and their parts.
//! - [`bytes`] and [`error`]: byte strings and errors.

pub mod arch;
pub mod bytes;
pub mod command;
pub mod device;
pub mod error;
pub mod filter;
pub mod handlers;
pub mod mem;
pub mod path;
pub mod supervisor;
pub mod table;
pub mod user_notif;
