//! Overlaying what is pretended of an inode onto what the kernel says of it.

use crate::device::{device, law_device_parts, major, major_of, makedev, minor, minor_of};
use crate::table::{node_at, FakeNode, FakeNodeView, OwnershipTable, TableView};
use vstd::prelude::*;

verus! {

/// All permission bits with setuid, setgid and sticky.
pub const ALLPERMS: u32 = 0o7777;

/// Bits of [`Statx::stx_mask`]: which fields of the buffer are filled.
pub const STATX_TYPE: u32 = 0x1;

pub const STATX_MODE: u32 = 0x2;

pub const STATX_NLINK: u32 = 0x4;

pub const STATX_UID: u32 = 0x8;

pub const STATX_GID: u32 = 0x10;

/// The fields of a kernel `struct stat` that identify an inode or may be overlaid.
#[derive(Clone, Copy, Debug, PartialEq, Eq, Structural, Default)]
pub struct Stat {
    pub st_dev: u64,
    pub st_ino: u64,
    pub st_mode: u32,
    pub st_nlink: u64,
    pub st_uid: u32,
    pub st_gid: u32,
    pub st_rdev: u64,
}

/// The fields of a `struct statx` that identify an inode or may be overlaid.
#[derive(Clone, Copy, Debug, PartialEq, Eq, Structural, Default)]
pub struct Statx {
    pub stx_mask: u32,
    pub stx_nlink: u32,
    pub stx_uid: u32,
    pub stx_gid: u32,
    pub stx_mode: u16,
    pub stx_ino: u64,
    pub stx_rdev_major: u32,
    pub stx_rdev_minor: u32,
    pub stx_dev_major: u32,
    pub stx_dev_minor: u32,
}

/// The result buffer of a stat-family syscall.
#[derive(Clone, Copy, Debug, PartialEq, Eq, Structural)]
pub enum StatBuf {
    Native(Stat),
    Statx(Statx),
}

/// A faked value where there is one, the real one otherwise.
pub open spec fn faked_or<T>(faked: Option<T>, otherwise: T) -> T {
    match faked {
        Some(value) => value,
        None => otherwise,
    }
}

/// A `struct stat` as it is reported for an inode of which `node` is pretended.
pub open spec fn native_overlay(st: Stat, node: FakeNodeView) -> Stat {
    Stat {
        st_uid: node.uid,
        st_gid: node.gid,
        st_mode: faked_or(node.mode, st.st_mode),
        st_rdev: faked_or(node.rdev, st.st_rdev),
        st_nlink: faked_or(node.nlink, st.st_nlink),
        ..st
    }
}

/// The mask of a `struct statx` after an overlay: the overlaid fields count as filled.
pub open spec fn statx_mask(mask: u32, node: FakeNodeView) -> u32 {
    let owned = mask | (STATX_UID | STATX_GID);
    let typed = if node.mode is Some {
        owned | (STATX_MODE | STATX_TYPE)
    } else {
        owned
    };
    if node.nlink is Some {
        typed | STATX_NLINK
    } else {
        typed
    }
}

/// A `struct statx` as it is reported for an inode of which `node` is pretended.
pub open spec fn statx_overlay(stx: Statx, node: FakeNodeView) -> Statx {
    Statx {
        stx_uid: node.uid,
        stx_gid: node.gid,
        stx_mask: statx_mask(stx.stx_mask, node),
        stx_mode: match node.mode {
            Some(mode) => mode as u16,
            None => stx.stx_mode,
        },
        stx_rdev_major: match node.rdev {
            Some(rdev) => major_of(rdev),
            None => stx.stx_rdev_major,
        },
        stx_rdev_minor: match node.rdev {
            Some(rdev) => minor_of(rdev),
            None => stx.stx_rdev_minor,
        },
        stx_nlink: match node.nlink {
            Some(nlink) => nlink as u32,
            None => stx.stx_nlink,
        },
        ..stx
    }
}

/// The inode that a stat buffer describes, as `(dev, ino)`.
pub open spec fn inode_of(buf: StatBuf) -> (u64, u64) {
    match buf {
        StatBuf::Native(st) => (st.st_dev, st.st_ino),
        StatBuf::Statx(stx) => (device(stx.stx_dev_major, stx.stx_dev_minor), stx.stx_ino),
    }
}

/// A stat buffer as it is reported for an inode of which `node` is pretended.
pub open spec fn overlay(buf: StatBuf, node: FakeNodeView) -> StatBuf {
    match buf {
        StatBuf::Native(st) => StatBuf::Native(native_overlay(st, node)),
        StatBuf::Statx(stx) => StatBuf::Statx(statx_overlay(stx, node)),
    }
}

/// What is reported in place of a real stat result.
pub open spec fn reported(table: TableView, buf: StatBuf) -> StatBuf {
    let (dev, ino) = inode_of(buf);
    overlay(buf, node_at(table, dev, ino))
}

/// A mode with the type bits of `real_mode` and the requested permission bits.
pub open spec fn composed(real_mode: u32, requested_perms: u32) -> u32 {
    (real_mode & !ALLPERMS) | (requested_perms & ALLPERMS)
}

/// Overlays faked fields onto a kernel `struct stat`.
pub fn patch_native(st: &mut Stat, node: &FakeNode)
    ensures
        *final(st) == native_overlay(*old(st), node@),
{
    st.st_uid = node.uid;
    st.st_gid = node.gid;
    if let Some(mode) = node.mode {
        st.st_mode = mode;
    }
    if let Some(rdev) = node.rdev {
        st.st_rdev = rdev;
    }
    if let Some(nlink) = node.nlink {
        st.st_nlink = nlink;
    }
}

/// Overlays faked fields onto a `struct statx`, setting the corresponding mask bits so
/// that the caller trusts them.
pub fn patch_statx(stx: &mut Statx, node: &FakeNode)
    ensures
        *final(stx) == statx_overlay(*old(stx), node@),
{
    stx.stx_uid = node.uid;
    stx.stx_gid = node.gid;
    stx.stx_mask = stx.stx_mask | (STATX_UID | STATX_GID);
    if let Some(mode) = node.mode {
        stx.stx_mode = mode as u16;
        stx.stx_mask = stx.stx_mask | (STATX_MODE | STATX_TYPE);
    }
    if let Some(rdev) = node.rdev {
        stx.stx_rdev_major = major(rdev);
        stx.stx_rdev_minor = minor(rdev);
    }
    if let Some(nlink) = node.nlink {
        stx.stx_nlink = nlink as u32;
        stx.stx_mask = stx.stx_mask | STATX_NLINK;
    }
}

/// Overlays what the table says of the inode that a stat result describes.
///
/// An inode without a record is reported as owned by root, with its real mode, rdev
/// and nlink; one with a record is reported as recorded.
pub fn patch_stat_result(table: &OwnershipTable, buf: &mut StatBuf)
    ensures
        *final(buf) == reported(table@, *old(buf)),
{
    let unknown = FakeNode::default();
    match *buf {
        StatBuf::Native(st) => {
            let mut st: Stat = st;
            let node = match table.get(st.st_dev, st.st_ino) {
                Some(node) => node,
                None => &unknown,
            };
            patch_native(&mut st, node);
            *buf = StatBuf::Native(st);
        },
        StatBuf::Statx(stx) => {
            let mut stx: Statx = stx;
            let dev: u64 = makedev(stx.stx_dev_major, stx.stx_dev_minor);
            let node = match table.get(dev, stx.stx_ino) {
                Some(node) => node,
                None => &unknown,
            };
            patch_statx(&mut stx, node);
            *buf = StatBuf::Statx(stx);
        },
    }
}

/// Composes a whole mode: keeps the real type bits, overrides the permission bits.
pub fn compose_mode(real_mode: u32, requested_perms: u32) -> (mode: u32)
    ensures
        mode == composed(real_mode, requested_perms),
{
    (real_mode & !ALLPERMS) | (requested_perms & ALLPERMS)
}

/// A composed mode has the type bits of the one mode and the permission bits of the
/// other.
pub proof fn law_composed_mode(real_mode: u32, requested_perms: u32)
    ensures
        composed(real_mode, requested_perms) & !ALLPERMS == real_mode & !ALLPERMS,
        composed(real_mode, requested_perms) & ALLPERMS == requested_perms & ALLPERMS,
{
    assert(((real_mode & !0o7777u32) | (requested_perms & 0o7777u32)) & !0o7777u32 == real_mode
        & !0o7777u32) by (bit_vector);
    assert(((real_mode & !0o7777u32) | (requested_perms & 0o7777u32)) & 0o7777u32
        == requested_perms & 0o7777u32) by (bit_vector);
}

/// The overlay always claims the owner fields of a `struct statx` to be filled, and
/// takes no claim back.
pub proof fn law_statx_mask(mask: u32, node: FakeNodeView)
    ensures
        statx_mask(mask, node) & STATX_UID == STATX_UID,
        statx_mask(mask, node) & STATX_GID == STATX_GID,
        statx_mask(mask, node) & mask == mask,
        node.mode is Some ==> statx_mask(mask, node) & (STATX_MODE | STATX_TYPE) == STATX_MODE
            | STATX_TYPE,
        node.nlink is Some ==> statx_mask(mask, node) & STATX_NLINK == STATX_NLINK,
{
    let typed = if node.mode is Some {
        mask | (0x8u32 | 0x10u32) | (0x2u32 | 0x1u32)
    } else {
        mask | (0x8u32 | 0x10u32)
    };
    let full = if node.nlink is Some {
        typed | 0x4u32
    } else {
        typed
    };
    assert(full == statx_mask(mask, node));
    let mode_bits = if node.mode is Some {
        3u32
    } else {
        0u32
    };
    let nlink_bits = if node.nlink is Some {
        4u32
    } else {
        0u32
    };
    assert(full == mask | 0x18u32 | mode_bits | nlink_bits) by {
        assert(mask | (0x8u32 | 0x10u32) | (0x2u32 | 0x1u32) == mask | 0x18u32 | 3u32)
            by (bit_vector);
        assert(mask | (0x8u32 | 0x10u32) == mask | 0x18u32 | 0u32) by (bit_vector);
        assert(typed | 0u32 == typed) by (bit_vector);
    }
    assert(full & 0x8u32 == 0x8u32 && full & 0x10u32 == 0x10u32 && full & mask == mask && full
        & mode_bits == mode_bits && full & nlink_bits == nlink_bits) by (bit_vector)
        requires
            full == mask | 0x18u32 | mode_bits | nlink_bits,
    ;
    assert(0x2u32 | 0x1u32 == 3u32) by (bit_vector);
}

/// What is reported of a file, field by field: the owner is the recorded one, the mode,
/// device and link count are the recorded ones where there are any and the real ones
/// otherwise, and what identifies the file stays. The mask of a `struct statx` claims the
/// overlaid fields (0x8 and 0x10 for the owner, 0x1 and 0x2 for the mode, 0x4 for the link
/// count) and no other that it did not claim before.
pub proof fn law_overlay_fields(table: TableView, st: Stat, stx: Statx)
    ensures
        inode_of(StatBuf::Native(st)) == (st.st_dev, st.st_ino),
        inode_of(StatBuf::Statx(stx)) == (
            device(stx.stx_dev_major, stx.stx_dev_minor),
            stx.stx_ino,
        ),
        ({
            let node = node_at(table, st.st_dev, st.st_ino);
            &&& reported(table, StatBuf::Native(st)) matches StatBuf::Native(now)
            &&& now.st_dev == st.st_dev && now.st_ino == st.st_ino
            &&& now.st_uid == node.uid && now.st_gid == node.gid
            &&& now.st_mode == (match node.mode {
                Some(mode) => mode,
                None => st.st_mode,
            })
            &&& now.st_rdev == (match node.rdev {
                Some(rdev) => rdev,
                None => st.st_rdev,
            })
            &&& now.st_nlink == (match node.nlink {
                Some(nlink) => nlink,
                None => st.st_nlink,
            })
        }),
        ({
            let node = node_at(table, device(stx.stx_dev_major, stx.stx_dev_minor), stx.stx_ino);
            let claimed = 0x18u32 | (if node.mode is Some {
                3u32
            } else {
                0u32
            }) | (if node.nlink is Some {
                4u32
            } else {
                0u32
            });
            &&& reported(table, StatBuf::Statx(stx)) matches StatBuf::Statx(now)
            &&& now.stx_ino == stx.stx_ino && now.stx_dev_major == stx.stx_dev_major
                && now.stx_dev_minor == stx.stx_dev_minor
            &&& now.stx_uid == node.uid && now.stx_gid == node.gid
            &&& now.stx_mode == (match node.mode {
                Some(mode) => mode as u16,
                None => stx.stx_mode,
            })
            &&& match node.rdev {
                Some(rdev) => device(now.stx_rdev_major, now.stx_rdev_minor) == rdev,
                None => now.stx_rdev_major == stx.stx_rdev_major && now.stx_rdev_minor
                    == stx.stx_rdev_minor,
            }
            &&& now.stx_nlink == (match node.nlink {
                Some(nlink) => nlink as u32,
                None => stx.stx_nlink,
            })
            &&& now.stx_mask == stx.stx_mask | claimed
        }),
{
    let node = node_at(table, device(stx.stx_dev_major, stx.stx_dev_minor), stx.stx_ino);
    if let Some(rdev) = node.rdev {
        law_device_parts(rdev);
    }
    let mask = stx.stx_mask;
    assert(mask | (0x8u32 | 0x10u32) == mask | (0x18u32 | 0u32 | 0u32) && mask | (0x8u32 | 0x10u32)
        | (0x2u32 | 0x1u32) == mask | (0x18u32 | 3u32 | 0u32) && mask | (0x8u32 | 0x10u32) | 0x4u32
        == mask | (0x18u32 | 0u32 | 4u32) && mask | (0x8u32 | 0x10u32) | (0x2u32 | 0x1u32) | 0x4u32
        == mask | (0x18u32 | 3u32 | 4u32)) by (bit_vector);
}

} // verus!
