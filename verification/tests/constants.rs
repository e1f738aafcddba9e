//! The library's constants are those of the platform.

use fakeroost::handlers::entry::{ID_UNCHANGED, S_IFBLK, S_IFCHR, S_IFDIR, S_IFMT};
use fakeroost::handlers::exit::ERANGE;
use fakeroost::handlers::overlay::{
    ALLPERMS, STATX_GID, STATX_MODE, STATX_NLINK, STATX_TYPE, STATX_UID,
};
use fakeroost::handlers::plan::{AT_EMPTY_PATH, AT_SYMLINK_NOFOLLOW, RENAME_EXCHANGE};
use fakeroost::mem::PATH_MAX;
use fakeroost::path::AT_FDCWD;
use fakeroost::supervisor::{
    ECHILD, EINTR, PTRACE_EVENT_SECCOMP, PTRACE_OPTIONS, SIGSTOP, SIGTRAP, SIGTSTP, SIGTTIN,
    SIGTTOU,
};
use fakeroost::user_notif::{
    ioc, IOC_RW, IOC_WRITE, NOTIF_RESP_SIZE, NOTIF_SIZE, SECCOMP_IOCTL_NOTIF_ID_VALID,
    SECCOMP_IOCTL_NOTIF_RECV, SECCOMP_IOCTL_NOTIF_SEND, SECCOMP_IOC_MAGIC,
    SECCOMP_USER_NOTIF_FLAG_CONTINUE,
};

#[test]
fn file_constants() {
    assert_eq!(AT_FDCWD, libc::AT_FDCWD);
    assert_eq!(AT_SYMLINK_NOFOLLOW, libc::AT_SYMLINK_NOFOLLOW);
    assert_eq!(AT_EMPTY_PATH, libc::AT_EMPTY_PATH);
    assert_eq!(RENAME_EXCHANGE as u32, libc::RENAME_EXCHANGE);
    assert_eq!(PATH_MAX, libc::PATH_MAX as usize);
    assert_eq!(S_IFMT, libc::S_IFMT);
    assert_eq!(S_IFDIR, libc::S_IFDIR);
    assert_eq!(S_IFCHR, libc::S_IFCHR);
    assert_eq!(S_IFBLK, libc::S_IFBLK);
    assert_eq!(ALLPERMS, !libc::S_IFMT & 0o177777);
    assert_eq!(ID_UNCHANGED, u32::MAX);
    assert_eq!(ERANGE, libc::ERANGE as i64);
}

#[test]
fn statx_constants() {
    assert_eq!(STATX_TYPE, libc::STATX_TYPE);
    assert_eq!(STATX_MODE, libc::STATX_MODE);
    assert_eq!(STATX_NLINK, libc::STATX_NLINK);
    assert_eq!(STATX_UID, libc::STATX_UID);
    assert_eq!(STATX_GID, libc::STATX_GID);
}

#[test]
fn ptrace_constants() {
    let options = libc::PTRACE_O_TRACESECCOMP
        | libc::PTRACE_O_TRACEFORK
        | libc::PTRACE_O_TRACEVFORK
        | libc::PTRACE_O_TRACECLONE
        | libc::PTRACE_O_TRACEEXEC
        | libc::PTRACE_O_TRACESYSGOOD
        | libc::PTRACE_O_EXITKILL;
    assert_eq!(PTRACE_OPTIONS, options);
    assert_eq!(PTRACE_EVENT_SECCOMP, libc::PTRACE_EVENT_SECCOMP);
    assert_eq!(ECHILD, libc::ECHILD);
    assert_eq!(EINTR, libc::EINTR);
    assert_eq!(SIGTRAP, libc::SIGTRAP);
    assert_eq!(SIGSTOP, libc::SIGSTOP);
    assert_eq!(SIGTSTP, libc::SIGTSTP);
    assert_eq!(SIGTTIN, libc::SIGTTIN);
    assert_eq!(SIGTTOU, libc::SIGTTOU);
}

#[test]
fn notification_constants() {
    assert_eq!(
        NOTIF_SIZE as usize,
        std::mem::size_of::<libc::seccomp_notif>()
    );
    assert_eq!(
        NOTIF_RESP_SIZE as usize,
        std::mem::size_of::<libc::seccomp_notif_resp>()
    );
    assert_eq!(
        ioc(IOC_RW, SECCOMP_IOC_MAGIC, 0, NOTIF_SIZE),
        SECCOMP_IOCTL_NOTIF_RECV
    );
    assert_eq!(
        ioc(IOC_RW, SECCOMP_IOC_MAGIC, 1, NOTIF_RESP_SIZE),
        SECCOMP_IOCTL_NOTIF_SEND
    );
    assert_eq!(
        ioc(IOC_WRITE, SECCOMP_IOC_MAGIC, 2, 8),
        SECCOMP_IOCTL_NOTIF_ID_VALID
    );
    assert_eq!(
        SECCOMP_IOCTL_NOTIF_RECV as libc::Ioctl,
        libc::SECCOMP_IOCTL_NOTIF_RECV
    );
    assert_eq!(
        SECCOMP_IOCTL_NOTIF_SEND as libc::Ioctl,
        libc::SECCOMP_IOCTL_NOTIF_SEND
    );
    assert_eq!(
        SECCOMP_IOCTL_NOTIF_ID_VALID as libc::Ioctl,
        libc::SECCOMP_IOCTL_NOTIF_ID_VALID
    );
    assert_eq!(
        SECCOMP_USER_NOTIF_FLAG_CONTINUE as u64,
        libc::SECCOMP_USER_NOTIF_FLAG_CONTINUE as u64
    );
}
