//! Answering the stat family from notifications.

use fakeroost::arch::Arch;
use fakeroost::handlers::overlay::{Stat, StatBuf, Statx};
use fakeroost::handlers::registry::StatKind;
use fakeroost::path::{stat_target, AT_FDCWD};
use fakeroost::table::OwnershipTable;
use fakeroost::user_notif::{
    answer, handle_stat, ioc, reply, written, Answer, Reply, Response, StatNotif,
};

const ARGS: [u64; 6] = [0xffff_ffff_0000_0009, 100, 200, 0x1100, 300, 400];

#[test]
fn notified_stats_of_x86_64() {
    let bare = StatNotif {
        pid: 5,
        dirfd: AT_FDCWD,
        path: Some(ARGS[0]),
        nofollow: false,
        empty: false,
        mask: 0,
        kind: StatKind::Native,
        buf: 100,
    };
    let at = |nr| handle_stat(Arch::X86_64, 5, nr, &ARGS);
    assert_eq!(at(libc::SYS_stat), Some(bare));
    assert_eq!(at(libc::SYS_lstat), Some(StatNotif { nofollow: true, ..bare }));
    assert_eq!(
        at(libc::SYS_fstat),
        Some(StatNotif { dirfd: 9, path: None, empty: true, ..bare })
    );
    assert_eq!(
        at(libc::SYS_newfstatat),
        Some(StatNotif {
            dirfd: 9,
            path: Some(100),
            nofollow: true,
            empty: true,
            buf: 200,
            ..bare
        })
    );
    assert_eq!(
        at(libc::SYS_statx),
        Some(StatNotif {
            dirfd: 9,
            path: Some(100),
            mask: 0x1100,
            kind: StatKind::Statx,
            buf: 300,
            ..bare
        })
    );
    assert_eq!(at(libc::SYS_chown), None);
    assert_eq!(at(-1), None);
}

#[test]
fn notified_stats_of_other_architectures() {
    for arch in [Arch::Aarch64, Arch::Riscv64] {
        assert_eq!(handle_stat(arch, 5, 79, &ARGS).unwrap().buf, 200);
        assert_eq!(handle_stat(arch, 5, 80, &ARGS).unwrap().dirfd, 9);
        assert_eq!(handle_stat(arch, 5, 291, &ARGS).unwrap().kind, StatKind::Statx);
        assert_eq!(handle_stat(arch, 5, libc::SYS_stat, &ARGS), None);
    }
}

#[test]
fn targets_are_resolved_through_proc_as_well() {
    let stat = handle_stat(Arch::X86_64, 5, libc::SYS_lstat, &ARGS).unwrap();
    let query = stat.target(Some(b"/a".to_vec())).unwrap();
    assert_eq!(query.path, b"/proc/5/root/a".to_vec());
    assert!(!query.follow);
    let fstat = handle_stat(Arch::X86_64, 5, libc::SYS_fstat, &ARGS).unwrap();
    let query = fstat.target(None).unwrap();
    assert_eq!(query.path, b"/proc/5/fd/9".to_vec());
    assert!(query.follow);
}

#[test]
fn stats_without_a_readable_path_have_no_target() {
    let mut args = ARGS;
    args[0] = AT_FDCWD as u64;
    args[3] = 0;
    for nr in [
        libc::SYS_stat,
        libc::SYS_lstat,
        libc::SYS_newfstatat,
        libc::SYS_statx,
    ] {
        let stat = handle_stat(Arch::X86_64, 5, nr, &args).unwrap();
        assert!(stat.target(None).is_none());
    }
}

#[test]
fn descriptor_targets_are_followed_as_on_the_ptrace_path() {
    // AT_EMPTY_PATH | AT_SYMLINK_NOFOLLOW on descriptor 9.
    let stat = handle_stat(Arch::X86_64, 5, libc::SYS_newfstatat, &ARGS).unwrap();
    assert!(stat.nofollow && stat.empty);
    let query = stat.target(Some(vec![])).unwrap();
    let other = stat_target(5, 9, b"", true, true);
    assert_eq!(query.path, b"/proc/5/fd/9".to_vec());
    assert!(query.follow);
    assert_eq!((query.path, query.follow), (other.path, other.follow));
}

#[test]
fn answers_carry_faked_ownership() {
    let mut table = OwnershipTable::default();
    table.entry(3, 4).gid = 77;
    let st = Stat { st_dev: 3, st_ino: 4, st_uid: 1000, st_gid: 1000, ..Default::default() };
    match answer(Some(StatBuf::Native(st)), &table) {
        Answer::Write(StatBuf::Native(st)) => assert_eq!((st.st_uid, st.st_gid), (0, 77)),
        other => panic!("unexpected answer {other:?}"),
    }
    let stx = Statx { stx_uid: 1000, stx_ino: 4, ..Default::default() };
    match answer(Some(StatBuf::Statx(stx)), &table) {
        Answer::Write(StatBuf::Statx(stx)) => assert_eq!((stx.stx_uid, stx.stx_gid), (0, 0)),
        other => panic!("unexpected answer {other:?}"),
    }
    match answer(None, &table) {
        Answer::Respond(response) => assert_eq!(response, Response::Continue),
        other => panic!("unexpected answer {other:?}"),
    }
}

#[test]
fn responses_and_replies() {
    assert_eq!(written(true), Response::Value(0));
    assert_eq!(written(false), Response::Continue);
    assert_eq!(
        reply(8, Response::Value(0)),
        Reply { id: 8, val: 0, error: 0, flags: 0 }
    );
    assert_eq!(
        reply(9, Response::Continue),
        Reply { id: 9, val: 0, error: 0, flags: 1 }
    );
}

#[test]
fn ioctl_codes_hold_their_parts() {
    assert_eq!(ioc(3, 33, 0, 80), 0xc050_2100);
    assert_eq!(ioc(1, 33, 2, 8), 0x4008_2102);
    assert_eq!(ioc(0, 0, 0, 0), 0);
}
