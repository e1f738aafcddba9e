//! What each intercepted syscall does, from its number and argument registers to what is
//! recorded, reported and returned.
//!
//! Each law here begins at the registers of one syscall, as the manual page of that
//! syscall lists its arguments, and ends at what the process can observe. A syscall is
//! given by its numbers on x86_64 and in the table that aarch64 and riscv64 share.

use super::action::DispositionView;
use super::entry::{entry, step_after_create, step_after_path_chunk, EntryStepView};
use super::exit::{exit_step, exit_table, zero_ids, EffectView, ExitStepView};
use super::laws::{has_mode, links_of, owner_of, rdev_of, with_owner};
use super::outcome::{entry_outcome, World};
use super::overlay::{inode_of, reported, StatBuf};
use super::registry::{
    decoded, is_intercepted, law_intercepted_numbers, law_number_decodes, Family, StatKind,
    Syscall,
};
use crate::arch::{Arch, RegAccess};
use crate::device::law_device_parts;
use crate::error::ErrorView;
use crate::mem::{ScanStepView, ScanView};
use crate::path::{resolved, RealStat, AT_FDCWD};
use crate::table::{node_at, TableView};
use vstd::prelude::*;

verus! {

/// Whether a number is `x86_64` on x86_64, or `generic` on the other architectures.
pub open spec fn numbered(arch: Arch, nr: i64, x86_64: i64, generic: i64) -> bool {
    match arch {
        Arch::X86_64 => nr == x86_64,
        Arch::Aarch64 => nr == generic,
        Arch::Riscv64 => nr == generic,
    }
}

/// The file that a tracee names by the path at an address, relative to a directory
/// descriptor, with a final symlink followed or not. An empty path names the descriptor.
pub open spec fn path_file(
    pid: i32,
    world: World,
    dirfd: i32,
    addr: u64,
    follow: bool,
) -> Result<RealStat, ErrorView> {
    match world.memory.cstring(addr) {
        Err(e) => Err(e),
        Ok(path) => (world.stat)(
            resolved(pid, dirfd, path, false),
            follow || path.len() == 0,
        ),
    }
}

/// The file that a descriptor of a tracee refers to.
pub open spec fn fd_file(pid: i32, world: World, fd: i32) -> Result<RealStat, ErrorView> {
    (world.stat)(resolved(pid, fd, Seq::empty(), true), true)
}

/// Whether a syscall never runs and returns 0, whatever the kernel makes of it.
pub open spec fn returns_zero_unrun(decision: Result<DispositionView, ErrorView>) -> bool {
    &&& decision matches Ok(DispositionView::Skip(action))
    &&& forall|ret: i64| #[trigger]
        exit_step(action, ret) == (
            ExitStepView::Effects(seq![EffectView::StoreRegs]),
            Some(0i64),
        )
    &&& forall|ret: i64, t: TableView| #[trigger] exit_table(action, ret, t) == t
}

/// Whether two tables say the same of every file but one.
pub open spec fn same_but_for(table: TableView, after: TableView, target: RealStat) -> bool {
    forall|dev: u64, ino: u64|
        (dev, ino) != (target.dev, target.ino) ==> #[trigger] node_at(after, dev, ino) == node_at(
            table,
            dev,
            ino,
        )
}

/// Whether a syscall changes the owner of a file, once it is found: it never runs,
/// returns 0, and every stat of the file then reports the new ids. An id of all ones
/// leaves the reported one as it was. Nothing else that is reported changes.
pub open spec fn changes_owner<R: RegAccess>(
    pid: i32,
    regs: R,
    world: World,
    table: TableView,
    file: Result<RealStat, ErrorView>,
    uid: u32,
    gid: u32,
) -> bool {
    let (decision, after) = entry_outcome(pid, regs, world, table);
    match file {
        Err(e) => decision == Err::<DispositionView, ErrorView>(e) && after == table,
        Ok(target) => {
            &&& returns_zero_unrun(decision)
            &&& same_but_for(table, after, target)
            &&& node_at(after, target.dev, target.ino).xattrs == node_at(
                table,
                target.dev,
                target.ino,
            ).xattrs
            &&& forall|buf: StatBuf|
                inode_of(buf) == (target.dev, target.ino) ==> (#[trigger] reported(after, buf))
                    == with_owner(
                    reported(table, buf),
                    if uid == 0xffff_ffff {
                        owner_of(reported(table, buf)).0
                    } else {
                        uid
                    },
                    if gid == 0xffff_ffff {
                        owner_of(reported(table, buf)).1
                    } else {
                        gid
                    },
                )
        },
    }
}

/// `chown(path, uid, gid)` changes the owner of the file that the path leads to.
pub proof fn law_chown<R: RegAccess>(pid: i32, regs: R, world: World, table: TableView)
    requires
        R::abi() == Arch::X86_64,
        regs.number() == 92,
    ensures
        changes_owner(
            pid,
            regs,
            world,
            table,
            path_file(pid, world, AT_FDCWD, regs.argument(0), true),
            regs.argument(1) as u32,
            regs.argument(2) as u32,
        ),
{
    law_number_decodes(R::abi(), Syscall::Chown);
}

/// `lchown(path, uid, gid)` changes the owner of the file that has the name, be it a
/// symlink.
pub proof fn law_lchown<R: RegAccess>(pid: i32, regs: R, world: World, table: TableView)
    requires
        R::abi() == Arch::X86_64,
        regs.number() == 94,
    ensures
        changes_owner(
            pid,
            regs,
            world,
            table,
            path_file(pid, world, AT_FDCWD, regs.argument(0), false),
            regs.argument(1) as u32,
            regs.argument(2) as u32,
        ),
{
    law_number_decodes(R::abi(), Syscall::Lchown);
}

/// `fchown(fd, uid, gid)` changes the owner of the open file.
pub proof fn law_fchown<R: RegAccess>(pid: i32, regs: R, world: World, table: TableView)
    requires
        numbered(R::abi(), regs.number(), 93, 55),
    ensures
        changes_owner(
            pid,
            regs,
            world,
            table,
            fd_file(pid, world, regs.argument(0) as i32),
            regs.argument(1) as u32,
            regs.argument(2) as u32,
        ),
{
    law_number_decodes(R::abi(), Syscall::Fchown);
}

/// A flag of an argument is the bit of the register itself.
pub proof fn lemma_flags(arg: u64)
    ensures
        ((arg as i32) & 0x100 != 0) == (arg & 0x100 != 0),
        ((arg as i32) & 0x1000 != 0) == (arg & 0x1000 != 0),
        ((arg as i32) & 2 != 0) == (arg & 2 != 0),
{
    assert(((arg as i32) & 0x100 != 0) == (arg & 0x100 != 0)) by (bit_vector);
    assert(((arg as i32) & 0x1000 != 0) == (arg & 0x1000 != 0)) by (bit_vector);
    assert(((arg as i32) & 2 != 0) == (arg & 2 != 0)) by (bit_vector);
}

/// `fchownat(dirfd, path, uid, gid, flags)` changes the owner of the file that the path
/// leads to from the directory. The bit 0x100 of the flags (`AT_SYMLINK_NOFOLLOW`) leaves
/// a final symlink alone; the bit 0x1000 (`AT_EMPTY_PATH`) makes it the open file.
pub proof fn law_fchownat<R: RegAccess>(pid: i32, regs: R, world: World, table: TableView)
    requires
        numbered(R::abi(), regs.number(), 260, 54),
    ensures
        ({
            let dirfd = regs.argument(0) as i32;
            let flags = regs.argument(4);
            let named = path_file(pid, world, dirfd, regs.argument(1), flags & 0x100 == 0);
            let file = if flags & 0x1000 != 0 && world.memory.cstring(regs.argument(1)) is Ok {
                fd_file(pid, world, dirfd)
            } else {
                named
            };
            changes_owner(
                pid,
                regs,
                world,
                table,
                file,
                regs.argument(2) as u32,
                regs.argument(3) as u32,
            )
        }),
{
    law_number_decodes(R::abi(), Syscall::Fchownat);
    lemma_flags(regs.argument(4));
}

/// Whether a syscall changes the permissions of a file, once it is found: it runs, a
/// failure becomes a return value of 0, and every stat of the file then reports the
/// file's real type with the requested permissions. Nothing else that is reported
/// changes.
pub open spec fn changes_mode<R: RegAccess>(
    pid: i32,
    regs: R,
    world: World,
    table: TableView,
    file: Result<RealStat, ErrorView>,
    mode: u32,
) -> bool {
    let (decision, after) = entry_outcome(pid, regs, world, table);
    match file {
        Err(e) => decision == Err::<DispositionView, ErrorView>(e) && after == table,
        Ok(target) => {
            &&& decision matches Ok(DispositionView::Step(action))
            &&& forall|ret: i64| #[trigger]
                exit_step(action, ret) == if ret < 0 {
                    (ExitStepView::Effects(seq![EffectView::StoreRegs]), Some(0i64))
                } else {
                    (ExitStepView::Effects(Seq::empty()), None::<i64>)
                }
            &&& forall|ret: i64, t: TableView| #[trigger] exit_table(action, ret, t) == t
            &&& same_but_for(table, after, target)
            &&& node_at(after, target.dev, target.ino).xattrs == node_at(
                table,
                target.dev,
                target.ino,
            ).xattrs
            &&& forall|buf: StatBuf|
                inode_of(buf) == (target.dev, target.ino) ==> {
                    let now = #[trigger] reported(after, buf);
                    let then = reported(table, buf);
                    &&& has_mode(now, (target.mode & !0o7777u32) | (mode & 0o7777u32))
                    &&& owner_of(now) == owner_of(then)
                    &&& rdev_of(now) == rdev_of(then)
                    &&& links_of(now) == links_of(then)
                }
        },
    }
}

/// `chmod(path, mode)` changes the permissions of the file that the path leads to.
pub proof fn law_chmod<R: RegAccess>(pid: i32, regs: R, world: World, table: TableView)
    requires
        R::abi() == Arch::X86_64,
        regs.number() == 90,
    ensures
        changes_mode(
            pid,
            regs,
            world,
            table,
            path_file(pid, world, AT_FDCWD, regs.argument(0), true),
            regs.argument(1) as u32,
        ),
{
    law_number_decodes(R::abi(), Syscall::Chmod);
}

/// `fchmod(fd, mode)` changes the permissions of the open file.
pub proof fn law_fchmod<R: RegAccess>(pid: i32, regs: R, world: World, table: TableView)
    requires
        numbered(R::abi(), regs.number(), 91, 52),
    ensures
        changes_mode(
            pid,
            regs,
            world,
            table,
            fd_file(pid, world, regs.argument(0) as i32),
            regs.argument(1) as u32,
        ),
{
    law_number_decodes(R::abi(), Syscall::Fchmod);
}

/// `fchmodat(dirfd, path, mode, flags)` changes the permissions of the file that the path
/// leads to from the directory. The bit 0x100 of the flags leaves a final symlink alone.
pub proof fn law_fchmodat<R: RegAccess>(pid: i32, regs: R, world: World, table: TableView)
    requires
        numbered(R::abi(), regs.number(), 268, 53),
    ensures
        changes_mode(
            pid,
            regs,
            world,
            table,
            path_file(
                pid,
                world,
                regs.argument(0) as i32,
                regs.argument(1),
                regs.argument(3) & 0x100 == 0,
            ),
            regs.argument(2) as u32,
        ),
{
    law_number_decodes(R::abi(), Syscall::Fchmodat);
    lemma_flags(regs.argument(3));
}

/// Whether a syscall makes a node, once its placeholder is found: it never runs, returns
/// 0, and every stat of the file then reports a node of root's with the requested type and
/// permissions and, where it is a character or block device, the requested number.
pub open spec fn makes_node<R: RegAccess>(
    pid: i32,
    regs: R,
    world: World,
    table: TableView,
    file: Result<RealStat, ErrorView>,
    mode: u32,
    dev: u64,
) -> bool {
    let (decision, after) = entry_outcome(pid, regs, world, table);
    match file {
        Err(e) => decision == Err::<DispositionView, ErrorView>(e) && after == table,
        Ok(target) => {
            &&& returns_zero_unrun(decision)
            &&& same_but_for(table, after, target)
            &&& node_at(after, target.dev, target.ino).xattrs == node_at(
                table,
                target.dev,
                target.ino,
            ).xattrs
            &&& forall|buf: StatBuf|
                inode_of(buf) == (target.dev, target.ino) ==> {
                    let now = #[trigger] reported(after, buf);
                    &&& owner_of(now) == (0u32, 0u32)
                    &&& has_mode(now, mode)
                    &&& links_of(now) == links_of(reported(table, buf))
                    &&& rdev_of(now) == if mode & 0o170000 == 0o020000 || mode & 0o170000
                        == 0o060000 {
                        dev
                    } else {
                        rdev_of(reported(table, buf))
                    }
                }
        },
    }
}

/// `mknod(path, mode, dev)` makes the node: its device number is the third argument.
pub proof fn law_mknod<R: RegAccess>(pid: i32, regs: R, world: World, table: TableView)
    requires
        R::abi() == Arch::X86_64,
        regs.number() == 133,
    ensures
        makes_node(
            pid,
            regs,
            world,
            table,
            path_file(pid, world, AT_FDCWD, regs.argument(0), true),
            regs.argument(1) as u32,
            regs.argument(2),
        ),
{
    law_number_decodes(R::abi(), Syscall::Mknod);
    law_device_parts(regs.argument(2));
}

/// `mknodat(dirfd, path, mode, dev)` makes the node: its device number is the fourth
/// argument.
pub proof fn law_mknodat<R: RegAccess>(pid: i32, regs: R, world: World, table: TableView)
    requires
        numbered(R::abi(), regs.number(), 259, 33),
    ensures
        makes_node(
            pid,
            regs,
            world,
            table,
            path_file(pid, world, regs.argument(0) as i32, regs.argument(1), true),
            regs.argument(2) as u32,
            regs.argument(3),
        ),
{
    law_number_decodes(R::abi(), Syscall::Mknodat);
    law_device_parts(regs.argument(3));
}

/// The placeholder of a node is made at the very path where the node is looked up then:
/// the one that the tracee names.
pub proof fn law_placeholder_is_where_the_node_is<R: RegAccess>(
    pid: i32,
    regs: R,
    chunk: Seq<u8>,
    path: Seq<u8>,
)
    requires
        numbered(R::abi(), regs.number(), 259, 33) || R::abi() == Arch::X86_64 && regs.number()
            == 133,
        ScanView::at(regs.argument(if regs.number() == 133 && R::abi() == Arch::X86_64 {
            0
        } else {
            1
        })).fed(chunk) == Ok::<ScanStepView, ErrorView>(ScanStepView::Whole(path)),
    ensures
        ({
            let full = if regs.number() == 133 && R::abi() == Arch::X86_64 {
                resolved(pid, AT_FDCWD, path, false)
            } else {
                resolved(pid, regs.argument(0) as i32, path, false)
            };
            &&& entry(pid, regs) matches EntryStepView::ReadPath { pid: by, at, to, scan }
            &&& step_after_path_chunk(by, at, to, scan, chunk) matches Ok(
                EntryStepView::Create { pid: maker, path: made, to },
            )
            &&& made == full
            &&& step_after_create(maker, made, to) matches EntryStepView::Stat {
                path: looked_up,
                follow,
                ..
            }
            &&& looked_up == full
            &&& follow
        }),
{
    law_number_decodes(R::abi(), Syscall::Mknod);
    law_number_decodes(R::abi(), Syscall::Mknodat);
}

/// Whether a number is that of a syscall that reads or sets ids or capabilities:
/// getuid, geteuid, getgid, getegid, setuid, setgid, setreuid, setregid, setresuid,
/// setresgid, setfsuid, setfsgid, setgroups, capset.
pub open spec fn is_credential_number(arch: Arch, nr: i64) -> bool {
    match arch {
        Arch::X86_64 => nr == 102 || 104 <= nr <= 108 || nr == 113 || nr == 114 || nr == 116 || nr
            == 117 || nr == 119 || nr == 122 || nr == 123 || nr == 126,
        _ => nr == 91 || 143 <= nr <= 147 || nr == 149 || nr == 151 || nr == 152 || nr == 159
            || 174 <= nr <= 177,
    }
}

proof fn lemma_credential_number(arch: Arch, nr: i64)
    requires
        is_credential_number(arch, nr),
    ensures
        decoded(arch, nr) matches Some(call) && call.handled_by() == Family::Cred,
{
    law_number_decodes(arch, Syscall::Getuid);
    law_number_decodes(arch, Syscall::Geteuid);
    law_number_decodes(arch, Syscall::Getgid);
    law_number_decodes(arch, Syscall::Getegid);
    law_number_decodes(arch, Syscall::Setuid);
    law_number_decodes(arch, Syscall::Setgid);
    law_number_decodes(arch, Syscall::Setreuid);
    law_number_decodes(arch, Syscall::Setregid);
    law_number_decodes(arch, Syscall::Setresuid);
    law_number_decodes(arch, Syscall::Setresgid);
    law_number_decodes(arch, Syscall::Setfsuid);
    law_number_decodes(arch, Syscall::Setfsgid);
    law_number_decodes(arch, Syscall::Setgroups);
    law_number_decodes(arch, Syscall::Capset);
}

/// Reading an id gives 0, and setting ids or capabilities succeeds, without the kernel
/// and without anything being recorded.
pub proof fn law_credentials<R: RegAccess>(pid: i32, regs: R, world: World, table: TableView)
    requires
        is_credential_number(R::abi(), regs.number()),
    ensures
        returns_zero_unrun(entry_outcome(pid, regs, world, table).0),
        entry_outcome(pid, regs, world, table).1 == table,
{
    lemma_credential_number(R::abi(), regs.number());
}

/// The write of an id of 0 behind a pointer; none where it is null.
pub open spec fn zero_behind(ptr: u64) -> Seq<EffectView> {
    if ptr == 0 {
        Seq::empty()
    } else {
        seq![EffectView::Write { addr: ptr, bytes: seq![0u8, 0u8, 0u8, 0u8] }]
    }
}

/// `getresuid(a, b, c)` and `getresgid(a, b, c)` write an id of 0 behind each pointer that
/// is not null, in their order, and return 0, without the kernel.
pub proof fn law_id_triples<R: RegAccess>(
    pid: i32,
    regs: R,
    world: World,
    table: TableView,
    ret: i64,
)
    requires
        numbered(R::abi(), regs.number(), 118, 148) || numbered(R::abi(), regs.number(), 120, 150),
    ensures
        ({
            let (decision, after) = entry_outcome(pid, regs, world, table);
            &&& decision matches Ok(DispositionView::Skip(action))
            &&& exit_step(action, ret) == (
                ExitStepView::Effects(
                    zero_behind(regs.argument(0)) + zero_behind(regs.argument(1)) + zero_behind(
                        regs.argument(2),
                    ) + seq![EffectView::StoreRegs],
                ),
                Some(0i64),
            )
            &&& exit_table(action, ret, after) == table
            &&& after == table
        }),
{
    law_number_decodes(R::abi(), Syscall::Getresuid);
    law_number_decodes(R::abi(), Syscall::Getresgid);
    let a = regs.argument(0);
    let b = regs.argument(1);
    let c = regs.argument(2);
    let ptrs = seq![a, b, c];
    reveal_with_fuel(zero_ids, 4);
    assert(ptrs.drop_last() =~= seq![a, b]);
    assert(seq![a, b].drop_last() =~= seq![a]);
    assert(seq![a].drop_last() =~= Seq::<u64>::empty());
    assert(zero_ids(seq![a]) =~= zero_behind(a));
    assert(zero_ids(seq![a, b]) =~= zero_behind(a) + zero_behind(b));
    assert(zero_ids(ptrs) =~= zero_behind(a) + zero_behind(b) + zero_behind(c));
    assert(zero_ids(ptrs).push(EffectView::StoreRegs) =~= zero_behind(a) + zero_behind(b)
        + zero_behind(c) + seq![EffectView::StoreRegs]);
}

/// The stat family runs, and where it returned 0 the buffer that it filled is overlaid:
/// that of `stat`, `lstat` and `fstat` is their second argument, that of `newfstatat` its
/// third, and that of `statx`, which is of its own flavor, its fifth. A failure is left
/// as it is.
pub proof fn law_stat_family<R: RegAccess>(
    pid: i32,
    regs: R,
    world: World,
    table: TableView,
    ret: i64,
)
    ensures
        ({
            let nr = regs.number();
            let second = numbered(R::abi(), nr, 5, 80) || R::abi() == Arch::X86_64 && (nr == 4
                || nr == 6);
            let third = numbered(R::abi(), nr, 262, 79);
            let fifth = numbered(R::abi(), nr, 332, 291);
            let buffer = if second {
                (StatKind::Native, regs.argument(1))
            } else if third {
                (StatKind::Native, regs.argument(2))
            } else {
                (StatKind::Statx, regs.argument(4))
            };
            second || third || fifth ==> {
                let (decision, after) = entry_outcome(pid, regs, world, table);
                &&& after == table
                &&& decision matches Ok(DispositionView::Step(action))
                &&& exit_step(action, ret) == (
                    if ret == 0 {
                        ExitStepView::PatchStat { kind: buffer.0, buf: buffer.1 }
                    } else {
                        ExitStepView::Effects(Seq::empty())
                    },
                    None::<i64>,
                )
                &&& exit_table(action, ret, table) == table
            }
        }),
{
    law_number_decodes(R::abi(), Syscall::Stat);
    law_number_decodes(R::abi(), Syscall::Lstat);
    law_number_decodes(R::abi(), Syscall::Fstat);
    law_number_decodes(R::abi(), Syscall::Newfstatat);
    law_number_decodes(R::abi(), Syscall::Statx);
}

/// Whether a decision lets a syscall run with its result untouched, and afterwards, if it
/// returned 0 and the file had no other name (a directory never has), forgets the file,
/// and else nothing.
pub open spec fn forgets(
    decision: Result<DispositionView, ErrorView>,
    target: RealStat,
) -> bool {
    &&& decision matches Ok(DispositionView::Step(action))
    &&& forall|ret: i64| #[trigger]
        exit_step(action, ret) == (ExitStepView::Effects(Seq::empty()), None::<i64>)
    &&& forall|ret: i64, t: TableView| #[trigger]
        exit_table(action, ret, t) == if ret == 0 && (target.nlink <= 1 || target.mode & 0o170000
            == 0o040000) {
            t.remove((target.dev, target.ino))
        } else {
            t
        }
}

/// Whether a syscall removes the name at an address, relative to a directory. A name
/// that cannot be read ends the run with its error; one that is not there is left to the
/// kernel.
pub open spec fn removes<R: RegAccess>(
    pid: i32,
    regs: R,
    world: World,
    table: TableView,
    dirfd: i32,
    addr: u64,
) -> bool {
    let (decision, after) = entry_outcome(pid, regs, world, table);
    &&& after == table
    &&& match world.memory.cstring(addr) {
        Err(e) => decision == Err::<DispositionView, ErrorView>(e),
        Ok(_) => match path_file(pid, world, dirfd, addr, false) {
            Err(_) => decision == Ok::<DispositionView, ErrorView>(DispositionView::Passthrough),
            Ok(target) => forgets(decision, target),
        },
    }
}

/// `unlink(path)` and `rmdir(path)` remove the name at their first argument, and
/// `unlinkat(dirfd, path, flags)` the one at its second, relative to its first.
pub proof fn law_unlink<R: RegAccess>(pid: i32, regs: R, world: World, table: TableView)
    ensures
        R::abi() == Arch::X86_64 && (regs.number() == 87 || regs.number() == 84) ==> removes(
            pid,
            regs,
            world,
            table,
            AT_FDCWD,
            regs.argument(0),
        ),
        numbered(R::abi(), regs.number(), 263, 35) ==> removes(
            pid,
            regs,
            world,
            table,
            regs.argument(0) as i32,
            regs.argument(1),
        ),
{
    law_number_decodes(R::abi(), Syscall::Unlink);
    law_number_decodes(R::abi(), Syscall::Rmdir);
    law_number_decodes(R::abi(), Syscall::Unlinkat);
}

/// Whether a syscall moves the file with one name to another name. The file that had the
/// new name is removed, unless it is the file that is moved. A new name that is not there
/// is left to the kernel, and so is an old one that cannot be read or is not there.
pub open spec fn moves<R: RegAccess>(
    pid: i32,
    regs: R,
    world: World,
    table: TableView,
    from: (i32, u64),
    to: (i32, u64),
) -> bool {
    let (decision, after) = entry_outcome(pid, regs, world, table);
    &&& after == table
    &&& match world.memory.cstring(to.1) {
        Err(e) => decision == Err::<DispositionView, ErrorView>(e),
        Ok(_) => match path_file(pid, world, to.0, to.1, false) {
            Err(_) => decision == Ok::<DispositionView, ErrorView>(DispositionView::Passthrough),
            Ok(onto) => match path_file(pid, world, from.0, from.1, false) {
                Ok(moved) if moved.dev == onto.dev && moved.ino == onto.ino => decision == Ok::<
                    DispositionView,
                    ErrorView,
                >(DispositionView::Passthrough),
                _ => forgets(decision, onto),
            },
        },
    }
}

/// `rename(old, new)`, `renameat(olddir, old, newdir, new)` and, unless the bit 2 of the
/// flags (`RENAME_EXCHANGE`) is set, `renameat2(olddir, old, newdir, new, flags)` move the
/// file with the old name to the new one. An exchange passes through.
pub proof fn law_rename<R: RegAccess>(pid: i32, regs: R, world: World, table: TableView)
    ensures
        R::abi() == Arch::X86_64 && regs.number() == 82 ==> moves(
            pid,
            regs,
            world,
            table,
            (AT_FDCWD, regs.argument(0)),
            (AT_FDCWD, regs.argument(1)),
        ),
        R::abi() == Arch::X86_64 && regs.number() == 264 || numbered(
            R::abi(),
            regs.number(),
            316,
            276,
        ) && regs.argument(4) & 2 == 0 ==> moves(
            pid,
            regs,
            world,
            table,
            (regs.argument(0) as i32, regs.argument(1)),
            (regs.argument(2) as i32, regs.argument(3)),
        ),
        numbered(R::abi(), regs.number(), 316, 276) && regs.argument(4) & 2 != 0 ==> entry_outcome(
            pid,
            regs,
            world,
            table,
        ) == (Ok::<DispositionView, ErrorView>(DispositionView::Passthrough), table),
{
    law_number_decodes(R::abi(), Syscall::Rename);
    law_number_decodes(R::abi(), Syscall::Renameat);
    law_number_decodes(R::abi(), Syscall::Renameat2);
    lemma_flags(regs.argument(4));
}

/// A syscall that is not intercepted runs as it is, and nothing is recorded.
pub proof fn law_other_syscalls<R: RegAccess>(pid: i32, regs: R, world: World, table: TableView)
    requires
        !is_intercepted(R::abi(), regs.number()),
    ensures
        entry_outcome(pid, regs, world, table) == (
            Ok::<DispositionView, ErrorView>(DispositionView::Passthrough),
            table,
        ),
{
    law_intercepted_numbers(R::abi(), regs.number());
}

} // verus!
