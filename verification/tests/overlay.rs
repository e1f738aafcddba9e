//! Overlaying faked fields onto stat results, and the registry of syscalls.

use fakeroost::arch::Arch;
use fakeroost::handlers::overlay::{
    compose_mode, patch_native, patch_stat_result, patch_statx, Stat, StatBuf, Statx,
};
use fakeroost::handlers::registry::{
    classify, decode, trapped_syscalls, Family, StatKind, Syscall,
};
use fakeroost::table::{FakeNode, OwnershipTable};

#[test]
fn native_overlays_uid_gid_only_by_default() {
    let mut st = Stat::default();
    st.st_uid = 1000;
    st.st_gid = 1000;
    st.st_mode = 0o100_644; // regular file, rw-r--r--
    let node = FakeNode {
        uid: 0,
        gid: 0,
        ..Default::default()
    };
    patch_native(&mut st, &node);
    assert_eq!(st.st_uid, 0);
    assert_eq!(st.st_gid, 0);
    assert_eq!(
        st.st_mode, 0o100_644,
        "mode unchanged when node.mode is None"
    );
}

#[test]
fn native_overlays_mode_and_rdev_when_set() {
    let mut st = Stat::default();
    let node = FakeNode {
        uid: 200,
        gid: 200,
        mode: Some(libc::S_IFCHR | 0o600),
        rdev: Some(libc::makedev(1, 3) as u64), // /dev/null
        ..Default::default()
    };
    patch_native(&mut st, &node);
    assert_eq!(st.st_uid, 200);
    assert_eq!(st.st_mode, libc::S_IFCHR | 0o600);
    assert_eq!(st.st_rdev as u64, libc::makedev(1, 3) as u64);
}

#[test]
fn native_overlays_the_link_count_and_keeps_the_inode() {
    let mut st = Stat {
        st_dev: 7,
        st_ino: 11,
        st_mode: 0o100_600,
        st_nlink: 1,
        st_uid: 1000,
        st_gid: 1000,
        st_rdev: 5,
    };
    let node = FakeNode {
        nlink: Some(4),
        ..Default::default()
    };
    patch_native(&mut st, &node);
    let expected = Stat {
        st_dev: 7,
        st_ino: 11,
        st_mode: 0o100_600,
        st_nlink: 4,
        st_uid: 0,
        st_gid: 0,
        st_rdev: 5,
    };
    assert_eq!(st, expected);
}

#[test]
fn statx_sets_mask_bits() {
    let mut stx = Statx::default();
    stx.stx_uid = 1000;
    stx.stx_gid = 1000;
    let node = FakeNode {
        uid: 200,
        gid: 200,
        ..Default::default()
    };
    patch_statx(&mut stx, &node);
    assert_eq!(stx.stx_uid, 200);
    assert_eq!(stx.stx_gid, 200);
    assert!(stx.stx_mask & libc::STATX_UID != 0);
    assert!(stx.stx_mask & libc::STATX_GID != 0);
}

#[test]
fn statx_overlays_a_device() {
    let mut stx = Statx::default();
    let node = FakeNode {
        mode: Some(libc::S_IFBLK | 0o660),
        rdev: Some(libc::makedev(0x1_2345, 0x6_789a) as u64),
        nlink: Some(3),
        ..Default::default()
    };
    patch_statx(&mut stx, &node);
    assert_eq!(stx.stx_mode as u32, libc::S_IFBLK | 0o660);
    assert_eq!(stx.stx_rdev_major, 0x1_2345);
    assert_eq!(stx.stx_rdev_minor, 0x6_789a);
    assert_eq!(stx.stx_nlink, 3);
    assert_eq!(
        stx.stx_mask,
        libc::STATX_UID
            | libc::STATX_GID
            | libc::STATX_MODE
            | libc::STATX_TYPE
            | libc::STATX_NLINK
    );
}

#[test]
fn both_flavors_find_the_same_inode() {
    let mut table = OwnershipTable::default();
    table.entry(libc::makedev(8, 17) as u64, 99).uid = 33;
    let mut native = StatBuf::Native(Stat {
        st_dev: libc::makedev(8, 17) as u64,
        st_ino: 99,
        ..Default::default()
    });
    patch_stat_result(&table, &mut native);
    match native {
        StatBuf::Native(st) => assert_eq!(st.st_uid, 33),
        StatBuf::Statx(_) => panic!("flavor changed"),
    }
    let mut extended = StatBuf::Statx(Statx {
        stx_dev_major: 8,
        stx_dev_minor: 17,
        stx_ino: 99,
        ..Default::default()
    });
    patch_stat_result(&table, &mut extended);
    match extended {
        StatBuf::Statx(stx) => assert_eq!(stx.stx_uid, 33),
        StatBuf::Native(_) => panic!("flavor changed"),
    }
}

#[test]
fn both_flavors_report_the_same_node() {
    let mut table = OwnershipTable::default();
    let node = table.entry(libc::makedev(8, 17) as u64, 99);
    node.mode = Some(libc::S_IFCHR | 0o620);
    node.rdev = Some(libc::makedev(5, 1) as u64);
    node.nlink = Some(6);
    let mut native = StatBuf::Native(Stat {
        st_dev: libc::makedev(8, 17) as u64,
        st_ino: 99,
        ..Default::default()
    });
    let mut extended = StatBuf::Statx(Statx {
        stx_dev_major: 8,
        stx_dev_minor: 17,
        stx_ino: 99,
        ..Default::default()
    });
    patch_stat_result(&table, &mut native);
    patch_stat_result(&table, &mut extended);
    match (native, extended) {
        (StatBuf::Native(st), StatBuf::Statx(stx)) => {
            assert_eq!(st.st_mode, libc::S_IFCHR | 0o620);
            assert_eq!(st.st_mode, stx.stx_mode as u32);
            assert_eq!(st.st_rdev, libc::makedev(stx.stx_rdev_major, stx.stx_rdev_minor) as u64);
            assert_eq!((stx.stx_rdev_major, stx.stx_rdev_minor), (5, 1));
            assert_eq!((st.st_nlink, stx.stx_nlink), (6, 6));
        }
        _ => panic!("flavor changed"),
    }
}

#[test]
fn compose_mode_keeps_type_overrides_perms() {
    // regular file 0644 -> chmod 4755 keeps S_IFREG, sets rwsr-xr-x
    let real = libc::S_IFREG | 0o644;
    assert_eq!(compose_mode(real, 0o4755), libc::S_IFREG | 0o4755);
}

#[test]
fn compose_mode_ignores_requested_type_bits() {
    assert_eq!(
        compose_mode(libc::S_IFDIR | 0o700, libc::S_IFREG | 0o1777),
        libc::S_IFDIR | 0o1777
    );
}

#[test]
fn registry_classifies_known_syscalls() {
    assert_eq!(
        classify(Arch::X86_64, libc::SYS_statx),
        Some(Family::Stat(StatKind::Statx, 4))
    );
    assert_eq!(
        classify(Arch::X86_64, libc::SYS_newfstatat),
        Some(Family::Stat(StatKind::Native, 2))
    );
    assert_eq!(classify(Arch::X86_64, libc::SYS_fchown), Some(Family::Chown));
    assert_eq!(classify(Arch::X86_64, libc::SYS_capset), Some(Family::Cred));
    assert_eq!(classify(Arch::X86_64, libc::SYS_getpid), None);
}

#[test]
fn registry_has_no_duplicate_syscalls() {
    for arch in [Arch::X86_64, Arch::Aarch64, Arch::Riscv64] {
        let nums = trapped_syscalls(arch);
        let mut sorted = nums.clone();
        sorted.sort_unstable();
        sorted.dedup();
        assert_eq!(sorted.len(), nums.len(), "REGISTRY has duplicate syscalls");
    }
}

#[test]
fn exactly_the_handled_syscalls_are_trapped() {
    for arch in [Arch::X86_64, Arch::Aarch64, Arch::Riscv64] {
        let nums = trapped_syscalls(arch);
        for nr in -2..600 {
            assert_eq!(nums.contains(&nr), classify(arch, nr).is_some());
        }
    }
    assert_eq!(trapped_syscalls(Arch::X86_64).len(), 48);
}

#[test]
fn syscall_numbers_are_those_of_the_platform() {
    let known = [
        (Syscall::Stat, libc::SYS_stat),
        (Syscall::Lstat, libc::SYS_lstat),
        (Syscall::Fstat, libc::SYS_fstat),
        (Syscall::Newfstatat, libc::SYS_newfstatat),
        (Syscall::Statx, libc::SYS_statx),
        (Syscall::Chown, libc::SYS_chown),
        (Syscall::Lchown, libc::SYS_lchown),
        (Syscall::Fchown, libc::SYS_fchown),
        (Syscall::Fchownat, libc::SYS_fchownat),
        (Syscall::Chmod, libc::SYS_chmod),
        (Syscall::Fchmod, libc::SYS_fchmod),
        (Syscall::Fchmodat, libc::SYS_fchmodat),
        (Syscall::Mknod, libc::SYS_mknod),
        (Syscall::Mknodat, libc::SYS_mknodat),
        (Syscall::Getuid, libc::SYS_getuid),
        (Syscall::Geteuid, libc::SYS_geteuid),
        (Syscall::Getgid, libc::SYS_getgid),
        (Syscall::Getegid, libc::SYS_getegid),
        (Syscall::Getresuid, libc::SYS_getresuid),
        (Syscall::Getresgid, libc::SYS_getresgid),
        (Syscall::Setuid, libc::SYS_setuid),
        (Syscall::Setgid, libc::SYS_setgid),
        (Syscall::Setreuid, libc::SYS_setreuid),
        (Syscall::Setregid, libc::SYS_setregid),
        (Syscall::Setresuid, libc::SYS_setresuid),
        (Syscall::Setresgid, libc::SYS_setresgid),
        (Syscall::Setfsuid, libc::SYS_setfsuid),
        (Syscall::Setfsgid, libc::SYS_setfsgid),
        (Syscall::Setgroups, libc::SYS_setgroups),
        (Syscall::Capset, libc::SYS_capset),
        (Syscall::Unlink, libc::SYS_unlink),
        (Syscall::Unlinkat, libc::SYS_unlinkat),
        (Syscall::Rmdir, libc::SYS_rmdir),
        (Syscall::Rename, libc::SYS_rename),
        (Syscall::Renameat, libc::SYS_renameat),
        (Syscall::Renameat2, libc::SYS_renameat2),
        (Syscall::Setxattr, libc::SYS_setxattr),
        (Syscall::Lsetxattr, libc::SYS_lsetxattr),
        (Syscall::Fsetxattr, libc::SYS_fsetxattr),
        (Syscall::Getxattr, libc::SYS_getxattr),
        (Syscall::Lgetxattr, libc::SYS_lgetxattr),
        (Syscall::Fgetxattr, libc::SYS_fgetxattr),
        (Syscall::Listxattr, libc::SYS_listxattr),
        (Syscall::Llistxattr, libc::SYS_llistxattr),
        (Syscall::Flistxattr, libc::SYS_flistxattr),
        (Syscall::Removexattr, libc::SYS_removexattr),
        (Syscall::Lremovexattr, libc::SYS_lremovexattr),
        (Syscall::Fremovexattr, libc::SYS_fremovexattr),
    ];
    assert_eq!(known.len(), 48);
    for (call, nr) in known {
        assert_eq!(call.number(Arch::X86_64), Some(nr));
        assert_eq!(decode(Arch::X86_64, nr), Some(call));
    }
}

#[test]
fn bare_syscalls_exist_on_x86_64_only() {
    for arch in [Arch::Aarch64, Arch::Riscv64] {
        assert_eq!(Syscall::Stat.number(arch), None);
        assert_eq!(Syscall::Chown.number(arch), None);
        assert_eq!(Syscall::Unlink.number(arch), None);
        assert_eq!(Syscall::Fstat.number(arch), Some(80));
        assert_eq!(Syscall::Newfstatat.number(arch), Some(79));
        assert_eq!(Syscall::Fchownat.number(arch), Some(54));
        assert_eq!(Syscall::Statx.number(arch), Some(291));
        assert_eq!(Syscall::Getuid.number(arch), Some(174));
    }
}
