//! What the registers of a trapped syscall ask for.

use super::action::{Disposition, DispositionView, ExitAction, ExitActionView};
use super::registry::{Family, StatKind, Syscall};
use crate::arch::RegAccess;
use crate::path::{RealStat, AT_FDCWD};
use vstd::prelude::*;

verus! {

/// Do not follow a final symlink.
pub const AT_SYMLINK_NOFOLLOW: i32 = 0x100;

/// The target is the directory descriptor itself.
pub const AT_EMPTY_PATH: i32 = 0x1000;

/// Swap two names (renameat2(2)).
pub const RENAME_EXCHANGE: i32 = 2;

/// The file that a syscall is about, as the tracee names it.
#[derive(Clone, Copy, Debug, PartialEq, Eq, Structural)]
pub struct Lookup {
    pub dirfd: i32,
    /// The address of the path; without one the path is empty.
    pub path: Option<u64>,
    pub nofollow: bool,
    pub empty: bool,
}

/// What an xattr syscall does with the attribute that it names.
#[derive(Clone, Copy, Debug, PartialEq, Eq, Structural)]
pub enum XattrOp {
    /// Give it the value in memory.
    Store { value: u64, size: u64 },
    /// Read its value into a buffer.
    Fetch { buf: u64, size: u64 },
    /// Take it out.
    Drop,
}

/// What a syscall does with the file that it is about.
#[derive(Clone, Copy, Debug, PartialEq, Eq, Structural)]
pub enum Purpose {
    Chown { uid: u32, gid: u32 },
    Chmod { mode: u32 },
    /// Remove one of its names.
    Unlink,
    /// Put another file in its place.
    Rename { from: Lookup },
    /// Put it in the place of the file `onto`.
    Replace { onto: RealStat },
    /// Make it, with this mode and device number.
    Mknod { mode: u32, dev: u64 },
    /// Do something with the attribute whose name is in memory.
    Xattr { name: u64, op: XattrOp },
    /// List the names of its attributes into a buffer.
    ListXattr { buf: u64, size: u64 },
}

/// What a syscall's registers ask for.
#[derive(Debug)]
pub enum Plan {
    /// The registers decide.
    Decided(Disposition),
    /// The file has to be looked up.
    Locate(Lookup, Purpose),
}

/// The mathematical value of a [`Plan`].
pub enum PlanView {
    Decided(DispositionView),
    Locate(Lookup, Purpose),
}

impl View for Plan {
    type V = PlanView;

    open spec fn view(&self) -> PlanView {
        match self {
            Plan::Decided(disposition) => PlanView::Decided(disposition@),
            Plan::Locate(at, to) => PlanView::Locate(*at, *to),
        }
    }
}

/// A flag of a syscall argument.
pub open spec fn flag(arg: u64, bit: i32) -> bool {
    (arg as i32) & bit != 0
}

/// A file named by the path at an address.
pub open spec fn by_path(path: u64, nofollow: bool) -> Lookup {
    Lookup { dirfd: AT_FDCWD, path: Some(path), nofollow, empty: false }
}

/// A file named by the path at an address, relative to a directory descriptor.
pub open spec fn by_path_at(dirfd: u64, path: u64, nofollow: bool, empty: bool) -> Lookup {
    Lookup { dirfd: dirfd as i32, path: Some(path), nofollow, empty }
}

/// An open file.
pub open spec fn by_fd(fd: u64) -> Lookup {
    Lookup { dirfd: fd as i32, path: None, nofollow: false, empty: true }
}

/// The file that an xattr syscall is about.
pub open spec fn xattr_lookup(call: Syscall, target: u64) -> Lookup {
    match call {
        Syscall::Fsetxattr
        | Syscall::Fgetxattr
        | Syscall::Flistxattr
        | Syscall::Fremovexattr => by_fd(target),
        Syscall::Lsetxattr
        | Syscall::Lgetxattr
        | Syscall::Llistxattr
        | Syscall::Lremovexattr => by_path(target, true),
        _ => by_path(target, false),
    }
}

/// What a syscall's registers ask for.
pub open spec fn planned<R: RegAccess>(call: Syscall, regs: R) -> PlanView {
    let a0 = regs.argument(0);
    let a1 = regs.argument(1);
    let a2 = regs.argument(2);
    let a3 = regs.argument(3);
    let a4 = regs.argument(4);
    match call {
        Syscall::Stat | Syscall::Lstat | Syscall::Fstat => PlanView::Decided(
            DispositionView::Step(ExitActionView::PatchStat { kind: StatKind::Native, buf: a1 }),
        ),
        Syscall::Newfstatat => PlanView::Decided(
            DispositionView::Step(ExitActionView::PatchStat { kind: StatKind::Native, buf: a2 }),
        ),
        Syscall::Statx => PlanView::Decided(
            DispositionView::Step(ExitActionView::PatchStat { kind: StatKind::Statx, buf: a4 }),
        ),
        Syscall::Getresuid | Syscall::Getresgid => PlanView::Decided(
            DispositionView::Skip(ExitActionView::WriteResId { ptrs: seq![a0, a1, a2] }),
        ),
        Syscall::Chown => PlanView::Locate(
            by_path(a0, false),
            Purpose::Chown { uid: a1 as u32, gid: a2 as u32 },
        ),
        Syscall::Lchown => PlanView::Locate(
            by_path(a0, true),
            Purpose::Chown { uid: a1 as u32, gid: a2 as u32 },
        ),
        Syscall::Fchown => PlanView::Locate(
            by_fd(a0),
            Purpose::Chown { uid: a1 as u32, gid: a2 as u32 },
        ),
        Syscall::Fchownat => PlanView::Locate(
            by_path_at(a0, a1, flag(a4, AT_SYMLINK_NOFOLLOW), flag(a4, AT_EMPTY_PATH)),
            Purpose::Chown { uid: a2 as u32, gid: a3 as u32 },
        ),
        Syscall::Chmod => PlanView::Locate(by_path(a0, false), Purpose::Chmod { mode: a1 as u32 }),
        Syscall::Fchmod => PlanView::Locate(by_fd(a0), Purpose::Chmod { mode: a1 as u32 }),
        Syscall::Fchmodat => PlanView::Locate(
            by_path_at(a0, a1, flag(a3, AT_SYMLINK_NOFOLLOW), false),
            Purpose::Chmod { mode: a2 as u32 },
        ),
        Syscall::Mknod => PlanView::Locate(
            by_path(a0, false),
            Purpose::Mknod { mode: a1 as u32, dev: a2 },
        ),
        Syscall::Mknodat => PlanView::Locate(
            by_path_at(a0, a1, false, false),
            Purpose::Mknod { mode: a2 as u32, dev: a3 },
        ),
        Syscall::Unlink | Syscall::Rmdir => PlanView::Locate(by_path(a0, true), Purpose::Unlink),
        Syscall::Unlinkat => PlanView::Locate(by_path_at(a0, a1, true, false), Purpose::Unlink),
        Syscall::Rename => PlanView::Locate(
            by_path(a1, true),
            Purpose::Rename { from: by_path(a0, true) },
        ),
        Syscall::Renameat => PlanView::Locate(
            by_path_at(a2, a3, true, false),
            Purpose::Rename { from: by_path_at(a0, a1, true, false) },
        ),
        Syscall::Renameat2 => if flag(a4, RENAME_EXCHANGE) {
            PlanView::Decided(DispositionView::Passthrough)
        } else {
            PlanView::Locate(
                by_path_at(a2, a3, true, false),
                Purpose::Rename { from: by_path_at(a0, a1, true, false) },
            )
        },
        Syscall::Setxattr | Syscall::Lsetxattr | Syscall::Fsetxattr => PlanView::Locate(
            xattr_lookup(call, a0),
            Purpose::Xattr { name: a1, op: XattrOp::Store { value: a2, size: a3 } },
        ),
        Syscall::Getxattr | Syscall::Lgetxattr | Syscall::Fgetxattr => PlanView::Locate(
            xattr_lookup(call, a0),
            Purpose::Xattr { name: a1, op: XattrOp::Fetch { buf: a2, size: a3 } },
        ),
        Syscall::Listxattr | Syscall::Llistxattr | Syscall::Flistxattr => PlanView::Locate(
            xattr_lookup(call, a0),
            Purpose::ListXattr { buf: a1, size: a2 },
        ),
        Syscall::Removexattr | Syscall::Lremovexattr | Syscall::Fremovexattr => PlanView::Locate(
            xattr_lookup(call, a0),
            Purpose::Xattr { name: a1, op: XattrOp::Drop },
        ),
        // Every other syscall reads or sets credentials.
        _ => PlanView::Decided(DispositionView::Skip(ExitActionView::ForceRet(0))),
    }
}

fn path_lookup(path: u64, nofollow: bool) -> (at: Lookup)
    ensures
        at == by_path(path, nofollow),
{
    Lookup { dirfd: AT_FDCWD, path: Some(path), nofollow, empty: false }
}

fn path_at_lookup(dirfd: u64, path: u64, nofollow: bool, empty: bool) -> (at: Lookup)
    ensures
        at == by_path_at(dirfd, path, nofollow, empty),
{
    Lookup { dirfd: dirfd as i32, path: Some(path), nofollow, empty }
}

fn fd_lookup(fd: u64) -> (at: Lookup)
    ensures
        at == by_fd(fd),
{
    Lookup { dirfd: fd as i32, path: None, nofollow: false, empty: true }
}

fn has_flag(arg: u64, bit: i32) -> (set: bool)
    ensures
        set == flag(arg, bit),
{
    (arg as i32) & bit != 0
}

/// unlink/rmdir/unlinkat: the real removal happens, and (at exit) the record is dropped
/// if the inode's last link is gone. The directory entry itself is meant, so a final
/// symlink is not followed.
fn handle_unlink<R: RegAccess>(call: Syscall, regs: &R) -> (plan: Plan)
    requires
        call.handled_by() == Family::Unlink,
    ensures
        plan@ == planned(call, *regs),
{
    match call {
        Syscall::Unlinkat => Plan::Locate(
            path_at_lookup(regs.arg(0), regs.arg(1), true, false),
            Purpose::Unlink,
        ),
        _ => Plan::Locate(path_lookup(regs.arg(0), true), Purpose::Unlink),
    }
}

/// The destination directory, the argument that holds the destination path, and the
/// flags of a rename-family syscall.
fn rename_dest<R: RegAccess>(call: Syscall, regs: &R) -> (dest: (i32, usize, i32))
    requires
        call.handled_by() == Family::Rename,
    ensures
        dest == match call {
            Syscall::Rename => (AT_FDCWD, 1usize, 0i32),
            Syscall::Renameat => (regs.argument(2) as i32, 3usize, 0i32),
            _ => (regs.argument(2) as i32, 3usize, regs.argument(4) as i32),
        },
{
    match call {
        Syscall::Rename => (AT_FDCWD, 1, 0),
        Syscall::Renameat => (regs.arg(2) as i32, 3, 0),
        _ => (regs.arg(2) as i32, 3, regs.arg(4) as i32),
    }
}

/// The name that a rename-family syscall takes away.
fn rename_source<R: RegAccess>(call: Syscall, regs: &R) -> (from: Lookup)
    requires
        call.handled_by() == Family::Rename,
    ensures
        from == match call {
            Syscall::Rename => by_path(regs.argument(0), true),
            _ => by_path_at(regs.argument(0), regs.argument(1), true, false),
        },
{
    match call {
        Syscall::Rename => path_lookup(regs.arg(0), true),
        _ => path_at_lookup(regs.arg(0), regs.arg(1), true, false),
    }
}

/// rename/renameat/renameat2: an existing destination will be overwritten, so the
/// record of the clobbered inode is cleaned up as after an unlink. Neither name is
/// followed where it is a symlink.
fn handle_rename<R: RegAccess>(call: Syscall, regs: &R) -> (plan: Plan)
    requires
        call.handled_by() == Family::Rename,
    ensures
        plan@ == planned(call, *regs),
{
    let (dirfd, path_arg, flags): (i32, usize, i32) = rename_dest(call, regs);
    proof {
        assert(0i32 & 2i32 == 0) by (bit_vector);
    }
    // An exchange swaps both names; nothing is removed.
    if flags & RENAME_EXCHANGE != 0 {
        return Plan::Decided(Disposition::Passthrough);
    }
    Plan::Locate(
        Lookup { dirfd, path: Some(regs.arg(path_arg)), nofollow: true, empty: false },
        Purpose::Rename { from: rename_source(call, regs) },
    )
}

/// The target and the requested ids of a chown-family syscall.
fn chown_target<R: RegAccess>(call: Syscall, regs: &R) -> (target: (Lookup, u32, u32))
    requires
        call.handled_by() == Family::Chown,
    ensures
        planned(call, *regs) == PlanView::Locate(
            target.0,
            Purpose::Chown { uid: target.1, gid: target.2 },
        ),
{
    match call {
        Syscall::Chown => (
            path_lookup(regs.arg(0), false),
            regs.arg(1) as u32,
            regs.arg(2) as u32,
        ),
        Syscall::Lchown => (
            path_lookup(regs.arg(0), true),
            regs.arg(1) as u32,
            regs.arg(2) as u32,
        ),
        Syscall::Fchown => (fd_lookup(regs.arg(0)), regs.arg(1) as u32, regs.arg(2) as u32),
        _ => {
            let flags: u64 = regs.arg(4);
            let nofollow = has_flag(flags, AT_SYMLINK_NOFOLLOW);
            let empty = has_flag(flags, AT_EMPTY_PATH);
            (
                path_at_lookup(regs.arg(0), regs.arg(1), nofollow, empty),
                regs.arg(2) as u32,
                regs.arg(3) as u32,
            )
        },
    }
}

/// chown/lchown/fchown/fchownat: the fake owner is recorded, the real call skipped.
fn handle_chown<R: RegAccess>(call: Syscall, regs: &R) -> (plan: Plan)
    requires
        call.handled_by() == Family::Chown,
    ensures
        plan@ == planned(call, *regs),
{
    let (at, uid, gid): (Lookup, u32, u32) = chown_target(call, regs);
    Plan::Locate(at, Purpose::Chown { uid, gid })
}

/// The target and the requested mode of a chmod-family syscall.
fn chmod_target<R: RegAccess>(call: Syscall, regs: &R) -> (target: (Lookup, u32))
    requires
        call.handled_by() == Family::Chmod,
    ensures
        planned(call, *regs) == PlanView::Locate(target.0, Purpose::Chmod { mode: target.1 }),
{
    match call {
        Syscall::Chmod => (path_lookup(regs.arg(0), false), regs.arg(1) as u32),
        Syscall::Fchmod => (fd_lookup(regs.arg(0)), regs.arg(1) as u32),
        _ => {
            let nofollow = has_flag(regs.arg(3), AT_SYMLINK_NOFOLLOW);
            (path_at_lookup(regs.arg(0), regs.arg(1), nofollow, false), regs.arg(2) as u32)
        },
    }
}

/// chmod/fchmod/fchmodat: the fake mode is recorded, and the real call runs so that the
/// permission bits on disk change where the user is allowed to change them.
fn handle_chmod<R: RegAccess>(call: Syscall, regs: &R) -> (plan: Plan)
    requires
        call.handled_by() == Family::Chmod,
    ensures
        plan@ == planned(call, *regs),
{
    let (at, mode): (Lookup, u32) = chmod_target(call, regs);
    Plan::Locate(at, Purpose::Chmod { mode })
}

/// mknod/mknodat: a device node cannot be made without privileges, so a regular
/// placeholder file is made, and the intended type and device are recorded.
fn handle_mknod<R: RegAccess>(call: Syscall, regs: &R) -> (plan: Plan)
    requires
        call.handled_by() == Family::Mknod,
    ensures
        plan@ == planned(call, *regs),
{
    match call {
        Syscall::Mknod => Plan::Locate(
            path_lookup(regs.arg(0), false),
            Purpose::Mknod { mode: regs.arg(1) as u32, dev: regs.arg(2) },
        ),
        _ => Plan::Locate(
            path_at_lookup(regs.arg(0), regs.arg(1), false, false),
            Purpose::Mknod { mode: regs.arg(2) as u32, dev: regs.arg(3) },
        ),
    }
}

/// Whether an xattr syscall names its target by a descriptor.
fn is_xattr_f_variant(call: Syscall) -> (yes: bool)
    ensures
        yes == (call is Fsetxattr || call is Fgetxattr || call is Flistxattr
            || call is Fremovexattr),
{
    matches!(
        call,
        Syscall::Fsetxattr | Syscall::Fgetxattr | Syscall::Flistxattr | Syscall::Fremovexattr
    )
}

/// Whether an xattr syscall leaves a final symlink alone.
fn is_xattr_l_variant(call: Syscall) -> (yes: bool)
    ensures
        yes == (call is Lsetxattr || call is Lgetxattr || call is Llistxattr
            || call is Lremovexattr),
{
    matches!(
        call,
        Syscall::Lsetxattr | Syscall::Lgetxattr | Syscall::Llistxattr | Syscall::Lremovexattr
    )
}

/// The target of an xattr syscall.
fn xattr_target<R: RegAccess>(call: Syscall, regs: &R) -> (at: Lookup)
    ensures
        at == xattr_lookup(call, regs.argument(0)),
{
    if is_xattr_f_variant(call) {
        fd_lookup(regs.arg(0))
    } else {
        path_lookup(regs.arg(0), is_xattr_l_variant(call))
    }
}

/// The xattr family: attributes are kept in the table. This matters for
/// `security.capability` and POSIX ACLs, which only root can really set.
fn handle_xattr<R: RegAccess>(call: Syscall, regs: &R) -> (plan: Plan)
    requires
        call.handled_by() == Family::Xattr,
    ensures
        plan@ == planned(call, *regs),
{
    let at = xattr_target(call, regs);
    match call {
        // set*xattr(target, name, value, size, flags)
        Syscall::Setxattr | Syscall::Lsetxattr | Syscall::Fsetxattr => Plan::Locate(
            at,
            Purpose::Xattr {
                name: regs.arg(1),
                op: XattrOp::Store { value: regs.arg(2), size: regs.arg(3) },
            },
        ),
        // get*xattr(target, name, value, size)
        Syscall::Getxattr | Syscall::Lgetxattr | Syscall::Fgetxattr => Plan::Locate(
            at,
            Purpose::Xattr {
                name: regs.arg(1),
                op: XattrOp::Fetch { buf: regs.arg(2), size: regs.arg(3) },
            },
        ),
        // list*xattr(target, list, size)
        Syscall::Listxattr | Syscall::Llistxattr | Syscall::Flistxattr => Plan::Locate(
            at,
            Purpose::ListXattr { buf: regs.arg(1), size: regs.arg(2) },
        ),
        // remove*xattr(target, name)
        _ => Plan::Locate(at, Purpose::Xattr { name: regs.arg(1), op: XattrOp::Drop }),
    }
}

/// Says what an intercepted syscall's registers ask for.
pub fn plan<R: RegAccess>(call: Syscall, regs: &R) -> (plan: Plan)
    ensures
        plan@ == planned(call, *regs),
{
    match call.family() {
        Family::Stat(kind, buf_arg) => Plan::Decided(
            Disposition::Step(ExitAction::PatchStat { kind, buf: regs.arg(buf_arg) }),
        ),
        Family::Cred => Plan::Decided(Disposition::Skip(ExitAction::ForceRet(0))),
        Family::CredRes => {
            let ptrs: [u64; 3] = [regs.arg(0), regs.arg(1), regs.arg(2)];
            assert(ptrs@ =~= seq![regs.argument(0), regs.argument(1), regs.argument(2)]);
            Plan::Decided(Disposition::Skip(ExitAction::WriteResId { ptrs }))
        },
        Family::Chown => handle_chown(call, regs),
        Family::Chmod => handle_chmod(call, regs),
        Family::Mknod => handle_mknod(call, regs),
        Family::Xattr => handle_xattr(call, regs),
        Family::Unlink => handle_unlink(call, regs),
        Family::Rename => handle_rename(call, regs),
    }
}

} // verus!
