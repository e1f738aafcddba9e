//! What single syscalls are taken to mean, and what is done at their exit.

use fakeroost::arch::x86_64::Regs;
use fakeroost::arch::RegAccess;
use fakeroost::error::Error;
use fakeroost::handlers::action::{Disposition, ExitAction};
use fakeroost::handlers::entry::{handle_entry, EntryStep, PathRead};
use fakeroost::handlers::exit::{apply_exit_action, Effect, ExitStep};
use fakeroost::handlers::plan::{Lookup, Purpose, XattrOp};
use fakeroost::handlers::registry::StatKind;
use fakeroost::path::{RealStat, AT_FDCWD};
use fakeroost::table::{OwnershipTable, Xattrs};

fn regs(nr: i64, args: [u64; 6]) -> Regs {
    Regs {
        orig_rax: nr as u64,
        rax: 0,
        rdi: args[0],
        rsi: args[1],
        rdx: args[2],
        r10: args[3],
        r8: args[4],
        r9: args[5],
    }
}

/// Where a syscall's path is, and what it does to the file there.
fn located(nr: i64, args: [u64; 6]) -> (Lookup, Purpose) {
    match handle_entry(1, &regs(nr, args)) {
        EntryStep::ReadPath(read) => {
            assert_eq!(read.at.path, Some(read.scan.addr));
            (read.at, read.to)
        }
        other => panic!("unexpected step {other:?}"),
    }
}

fn lookup(dirfd: i32, path: u64, nofollow: bool, empty: bool) -> Lookup {
    Lookup { dirfd, path: Some(path), nofollow, empty }
}

fn decided(nr: i64, args: [u64; 6]) -> Disposition {
    match handle_entry(1, &regs(nr, args)) {
        EntryStep::Decided(disposition) => disposition,
        other => panic!("unexpected step {other:?}"),
    }
}

const TARGET: RealStat = RealStat { dev: 1, ino: 2, mode: 0o100_644, nlink: 1 };

#[test]
fn unknown_syscalls_pass_through() {
    assert!(matches!(
        decided(libc::SYS_getpid, [0; 6]),
        Disposition::Passthrough
    ));
}

#[test]
fn stat_family_is_patched_at_exit() {
    for (nr, kind, place) in [
        (libc::SYS_stat, StatKind::Native, 12),
        (libc::SYS_lstat, StatKind::Native, 12),
        (libc::SYS_fstat, StatKind::Native, 12),
        (libc::SYS_newfstatat, StatKind::Native, 13),
        (libc::SYS_statx, StatKind::Statx, 15),
    ] {
        match decided(nr, [11, 12, 13, 14, 15, 16]) {
            Disposition::Step(ExitAction::PatchStat { kind: k, buf }) => {
                assert_eq!((k, buf), (kind, place));
            }
            other => panic!("unexpected disposition {other:?}"),
        }
    }
}

#[test]
fn chown_flavors() {
    let to = Purpose::Chown { uid: 5, gid: 6 };
    assert_eq!(
        located(libc::SYS_chown, [100, 5, 6, 0, 0, 0]),
        (lookup(AT_FDCWD, 100, false, false), to)
    );
    assert_eq!(
        located(libc::SYS_lchown, [100, 5, 6, 0, 0, 0]),
        (lookup(AT_FDCWD, 100, true, false), to)
    );
    assert_eq!(
        located(libc::SYS_fchownat, [9, 100, 5, 6, 0x1100, 0]),
        (lookup(9, 100, true, true), to)
    );
    match handle_entry(1, &regs(libc::SYS_fchown, [9, 5, 6, 0, 0, 0])) {
        EntryStep::Stat(wait) => {
            assert_eq!(wait.query.path, b"/proc/1/fd/9".to_vec());
            assert!(wait.query.follow);
            assert_eq!(wait.to, to);
        }
        other => panic!("unexpected step {other:?}"),
    }
}

#[test]
fn chmod_flavors() {
    let to = Purpose::Chmod { mode: 0o755 };
    assert_eq!(
        located(libc::SYS_chmod, [100, 0o755, 0, 0, 0, 0]),
        (lookup(AT_FDCWD, 100, false, false), to)
    );
    assert_eq!(
        located(libc::SYS_fchmodat, [9, 100, 0o755, 0, 0, 0]),
        (lookup(9, 100, false, false), to)
    );
    match handle_entry(1, &regs(libc::SYS_fchmod, [9, 0o755, 0, 0, 0, 0])) {
        EntryStep::Stat(wait) => {
            assert_eq!(wait.query.path, b"/proc/1/fd/9".to_vec());
            assert_eq!(wait.to, to);
        }
        other => panic!("unexpected step {other:?}"),
    }
}

#[test]
fn removal_flavors() {
    assert_eq!(
        located(libc::SYS_unlink, [100, 0, 0, 0, 0, 0]).0,
        lookup(AT_FDCWD, 100, true, false)
    );
    assert_eq!(
        located(libc::SYS_rmdir, [100, 0, 0, 0, 0, 0]).0,
        lookup(AT_FDCWD, 100, true, false)
    );
    assert_eq!(
        located(libc::SYS_unlinkat, [9, 100, 0, 0, 0, 0]),
        (lookup(9, 100, true, false), Purpose::Unlink)
    );
}

#[test]
fn rename_flavors() {
    assert_eq!(
        located(libc::SYS_rename, [100, 200, 0, 0, 0, 0]),
        (
            lookup(AT_FDCWD, 200, true, false),
            Purpose::Rename { from: lookup(AT_FDCWD, 100, true, false) }
        )
    );
    let to = Purpose::Rename { from: lookup(8, 100, true, false) };
    assert_eq!(
        located(libc::SYS_renameat, [8, 100, 9, 200, 0, 0]),
        (lookup(9, 200, true, false), to)
    );
    assert_eq!(
        located(libc::SYS_renameat2, [8, 100, 9, 200, 1, 0]),
        (lookup(9, 200, true, false), to)
    );
    assert!(matches!(
        decided(libc::SYS_renameat2, [8, 100, 9, 200, 2, 0]),
        Disposition::Passthrough
    ));
}

#[test]
fn xattr_flavors() {
    let store = Purpose::Xattr { name: 200, op: XattrOp::Store { value: 300, size: 4 } };
    assert_eq!(
        located(libc::SYS_lsetxattr, [100, 200, 300, 4, 0, 0]),
        (lookup(AT_FDCWD, 100, true, false), store)
    );
    let fetch = Purpose::Xattr { name: 200, op: XattrOp::Fetch { buf: 300, size: 4 } };
    assert_eq!(
        located(libc::SYS_getxattr, [100, 200, 300, 4, 0, 0]),
        (lookup(AT_FDCWD, 100, false, false), fetch)
    );
    let list = Purpose::ListXattr { buf: 200, size: 300 };
    assert_eq!(
        located(libc::SYS_llistxattr, [100, 200, 300, 0, 0, 0]),
        (lookup(AT_FDCWD, 100, true, false), list)
    );
    match handle_entry(1, &regs(libc::SYS_fremovexattr, [9, 200, 0, 0, 0, 0])) {
        EntryStep::Stat(wait) => {
            assert_eq!(wait.query.path, b"/proc/1/fd/9".to_vec());
            assert_eq!(wait.to, Purpose::Xattr { name: 200, op: XattrOp::Drop });
        }
        other => panic!("unexpected step {other:?}"),
    }
}

/// A rename whose destination is [`TARGET`], at the point where its old name is read.
fn renaming(table: &mut OwnershipTable) -> PathRead {
    let step = handle_entry(1, &regs(libc::SYS_rename, [100, 200, 0, 0, 0, 0]));
    let EntryStep::ReadPath(read) = step else {
        panic!("unexpected step {step:?}");
    };
    assert_eq!(read.scan.addr, 200);
    let step = read.supply(&[98, 0]).unwrap();
    let EntryStep::Stat(wait) = step else {
        panic!("unexpected step {step:?}");
    };
    assert_eq!(wait.query.path, b"/proc/1/cwd/b".to_vec());
    let step = wait.answer(Ok(TARGET), table).unwrap();
    let EntryStep::ReadPath(read) = step else {
        panic!("unexpected step {step:?}");
    };
    assert_eq!(read.scan.addr, 100);
    read
}

fn is_cleanup(step: EntryStep) -> bool {
    matches!(
        step,
        EntryStep::Decided(Disposition::Step(ExitAction::UnlinkCommit {
            dev: 1,
            ino: 2,
            nlink_before: 1,
        }))
    )
}

#[test]
fn rename_compares_its_two_names() {
    let mut table = OwnershipTable::default();
    for (ino, same) in [(2, true), (3, false)] {
        let step = renaming(&mut table).supply(&[97, 0]).unwrap();
        let EntryStep::Stat(wait) = step else {
            panic!("unexpected step {step:?}");
        };
        assert_eq!(wait.query.path, b"/proc/1/cwd/a".to_vec());
        assert!(!wait.query.follow);
        let old = RealStat { ino, ..TARGET };
        let step = wait.answer(Ok(old), &mut table).unwrap();
        if same {
            assert!(matches!(step, EntryStep::Decided(Disposition::Passthrough)));
        } else {
            assert!(is_cleanup(step));
        }
    }
}

#[test]
fn rename_with_a_bad_old_name_is_left_to_the_kernel() {
    let mut table = OwnershipTable::default();
    let read = renaming(&mut table);
    assert!(is_cleanup(read.failed(Error::Errno(libc::EFAULT)).unwrap()));
    let step = renaming(&mut table).supply(&[97, 0]).unwrap();
    let EntryStep::Stat(wait) = step else {
        panic!("unexpected step {step:?}");
    };
    let step = wait.answer(Err(Error::Errno(libc::ENOENT)), &mut table).unwrap();
    assert!(is_cleanup(step));
}

#[test]
fn rename_to_a_free_name_passes_through() {
    let mut table = OwnershipTable::default();
    let step = handle_entry(1, &regs(libc::SYS_rename, [100, 200, 0, 0, 0, 0]));
    let EntryStep::ReadPath(read) = step else {
        panic!("unexpected step {step:?}");
    };
    let EntryStep::Stat(wait) = read.supply(&[98, 0]).unwrap() else {
        panic!("the new name has to be looked up");
    };
    let step = wait.answer(Err(Error::Errno(libc::ENOENT)), &mut table).unwrap();
    assert!(matches!(step, EntryStep::Decided(Disposition::Passthrough)));
}

#[test]
fn unreadable_path_ends_the_handling() {
    let step = handle_entry(1, &regs(libc::SYS_rename, [100, 200, 0, 0, 0, 0]));
    let EntryStep::ReadPath(read) = step else {
        panic!("unexpected step {step:?}");
    };
    match read.failed(Error::Errno(libc::EFAULT)) {
        Err(Error::Errno(errno)) => assert_eq!(errno, libc::EFAULT),
        other => panic!("unexpected result {other:?}"),
    }
}

#[test]
fn failed_lookup_ends_the_handling() {
    let mut table = OwnershipTable::default();
    let step = handle_entry(1, &regs(libc::SYS_fchown, [9, 5, 6, 0, 0, 0]));
    let EntryStep::Stat(wait) = step else {
        panic!("unexpected step {step:?}");
    };
    match wait.answer(Err(Error::Errno(libc::EACCES)), &mut table) {
        Err(Error::Errno(errno)) => assert_eq!(errno, libc::EACCES),
        other => panic!("unexpected result {other:?}"),
    }
    assert!(table.get(1, 2).is_none());
}

#[test]
fn long_attribute_values_are_cut() {
    let mut table = OwnershipTable::default();
    let args = [9, 200, 300, 1 << 20, 0, 0];
    let step = handle_entry(1, &regs(libc::SYS_fsetxattr, args));
    let EntryStep::Stat(wait) = step else {
        panic!("unexpected step {step:?}");
    };
    let step = wait.answer(Ok(TARGET), &mut table).unwrap();
    let EntryStep::ReadName(read) = step else {
        panic!("unexpected step {step:?}");
    };
    assert_eq!(read.scan.addr, 200);
    let step = read.supply(&[97, 0], &mut table).unwrap();
    let EntryStep::ReadValue(read) = step else {
        panic!("unexpected step {step:?}");
    };
    assert_eq!((read.addr, read.len), (300, 65536));
    read.supply(vec![1; 65536], &mut table);
    let node = table.get(1, 2).unwrap();
    assert_eq!(node.xattrs.get(&[97]).unwrap().len(), 65536);
}

#[test]
fn failed_stat_is_not_patched() {
    let mut table = OwnershipTable::default();
    let mut r = regs(0, [0; 6]);
    r.set_ret(-2);
    let action = ExitAction::PatchStat { kind: StatKind::Native, buf: 5 };
    match apply_exit_action(&mut table, action, &mut r) {
        ExitStep::Effects(effects) => assert!(effects.is_empty()),
        other => panic!("unexpected step {other:?}"),
    }
    r.set_ret(0);
    let action = ExitAction::PatchStat { kind: StatKind::Statx, buf: 5 };
    match apply_exit_action(&mut table, action, &mut r) {
        ExitStep::PatchStat { kind, buf } => assert_eq!((kind, buf), (StatKind::Statx, 5)),
        other => panic!("unexpected step {other:?}"),
    }
}

#[test]
fn failed_removal_keeps_the_record() {
    let mut table = OwnershipTable::default();
    table.entry(1, 2).uid = 7;
    let commit = |nlink_before| ExitAction::UnlinkCommit { dev: 1, ino: 2, nlink_before };
    let mut r = regs(0, [0; 6]);
    r.set_ret(-13);
    apply_exit_action(&mut table, commit(1), &mut r);
    assert_eq!(table.get(1, 2).unwrap().uid, 7);
    r.set_ret(0);
    apply_exit_action(&mut table, commit(2), &mut r);
    assert_eq!(table.get(1, 2).unwrap().uid, 7);
    apply_exit_action(&mut table, commit(1), &mut r);
    assert!(table.get(1, 2).is_none());
}

#[test]
fn merged_names_do_not_repeat() {
    let mut table = OwnershipTable::default();
    let mut r = regs(0, [0; 6]);
    r.set_ret(6);
    let merge = |size| ExitAction::MergeXattrList {
        buf: 0x100,
        size,
        extra: vec![vec![98], vec![99]],
    };
    let list = [97, 0, 0, 98, 0, 100];
    let ExitStep::ReadNames(names) = apply_exit_action(&mut table, merge(50), &mut r) else {
        panic!("the names have to be read");
    };
    assert_eq!((names.buf, names.len), (0x100, 6));
    let effects = names.supply(&list, &mut r);
    match &effects[0] {
        Effect::Write { addr, bytes } => {
            assert_eq!(*addr, 0x100);
            assert_eq!(*bytes, vec![97, 0, 98, 0, 100, 0, 99, 0]);
        }
        other => panic!("unexpected effect {other:?}"),
    }
    assert!(matches!(effects[1], Effect::StoreRegs));
    assert_eq!(r.ret(), 8);

    r.set_ret(6);
    let ExitStep::ReadNames(names) = apply_exit_action(&mut table, merge(7), &mut r) else {
        panic!("the names have to be read");
    };
    assert_eq!(names.supply(&list, &mut r).len(), 1);
    assert_eq!(r.ret(), -34);
}

#[test]
fn attributes_are_kept_by_name() {
    let mut xattrs = Xattrs::new();
    assert!(xattrs.get(&[1]).is_none());
    xattrs.insert(vec![1], vec![10]);
    xattrs.insert(vec![2], vec![20]);
    xattrs.insert(vec![1], vec![11]);
    assert_eq!(xattrs.get(&[1]), Some(&vec![11]));
    assert_eq!(xattrs.names().len(), 2);
    let copy = xattrs.clone();
    xattrs.remove(&[1]);
    xattrs.remove(&[3]);
    assert!(xattrs.get(&[1]).is_none());
    assert_eq!(xattrs.names(), vec![vec![2]]);
    assert_eq!(copy.get(&[1]), Some(&vec![11]));
}
