//! What holds of the handlers taken together: what a tracee reads back of what it did,
//! and what stays as it was.

use super::action::{DispositionView, ExitActionView};
use super::entry::{
    changed_id, chmodded, chowned, is_device, is_directory, kept_size, mknodded, xattr_names,
    xattr_removed, xattr_set, xattr_value,
};
use super::exit::{
    exit_step, exit_table, forced, joined, listed_names, merged, names_in, open_name,
    reply_effects, reply_value, zero_ids, EffectView, ExitStepView, ERANGE,
};
use super::outcome::{
    entry_outcome, found, looks_through, name_outcome, plan_outcome, target_path, World,
};
use super::overlay::{composed, inode_of, reported, Stat, StatBuf, Statx, STATX_GID, STATX_UID};
use super::plan::{
    by_path, by_path_at, flag, planned, Lookup, PlanView, Purpose, XattrOp, RENAME_EXCHANGE,
};
use super::registry::{decoded, Family, Syscall};
use crate::arch::RegAccess;
use crate::device::{device, law_device_parts};
use crate::error::ErrorView;
use crate::path::{resolved, RealStat};
use crate::table::{node_at, FakeNodeView, TableView};
use vstd::prelude::*;

verus! {

/// The owner that a stat buffer reports, as `(uid, gid)`.
pub open spec fn owner_of(buf: StatBuf) -> (u32, u32) {
    match buf {
        StatBuf::Native(st) => (st.st_uid, st.st_gid),
        StatBuf::Statx(stx) => (stx.stx_uid, stx.stx_gid),
    }
}

/// Whether a stat buffer reports a given mode. A `struct statx` holds its low 16 bits.
pub open spec fn has_mode(buf: StatBuf, mode: u32) -> bool {
    match buf {
        StatBuf::Native(st) => st.st_mode == mode,
        StatBuf::Statx(stx) => stx.stx_mode == mode as u16,
    }
}

/// The device that a stat buffer reports a device node to stand for.
pub open spec fn rdev_of(buf: StatBuf) -> u64 {
    match buf {
        StatBuf::Native(st) => st.st_rdev,
        StatBuf::Statx(stx) => device(stx.stx_rdev_major, stx.stx_rdev_minor),
    }
}

/// The mode that a stat buffer reports, in the 16 bits that both flavors have.
pub open spec fn mode_of(buf: StatBuf) -> u16 {
    match buf {
        StatBuf::Native(st) => st.st_mode as u16,
        StatBuf::Statx(stx) => stx.stx_mode,
    }
}

/// The link count that a stat buffer reports, in the 32 bits that both flavors have.
pub open spec fn links_of(buf: StatBuf) -> u32 {
    match buf {
        StatBuf::Native(st) => st.st_nlink as u32,
        StatBuf::Statx(stx) => stx.stx_nlink,
    }
}

/// A stat buffer with another owner, and the rest as it was.
pub open spec fn with_owner(buf: StatBuf, uid: u32, gid: u32) -> StatBuf {
    match buf {
        StatBuf::Native(st) => StatBuf::Native(Stat { st_uid: uid, st_gid: gid, ..st }),
        StatBuf::Statx(stx) => StatBuf::Statx(Statx { stx_uid: uid, stx_gid: gid, ..stx }),
    }
}

/// Unknown is root: a file of which nothing is recorded is reported as root's, and
/// everything else about it as it really is.
pub proof fn law_unknown_is_root(table: TableView, st: Stat, stx: Statx)
    ensures
        !table.contains_key(inode_of(StatBuf::Native(st))) ==> reported(
            table,
            StatBuf::Native(st),
        ) == StatBuf::Native(Stat { st_uid: 0, st_gid: 0, ..st }),
        !table.contains_key(inode_of(StatBuf::Statx(stx))) ==> reported(
            table,
            StatBuf::Statx(stx),
        ) == StatBuf::Statx(
            Statx {
                stx_uid: 0,
                stx_gid: 0,
                stx_mask: stx.stx_mask | (STATX_UID | STATX_GID),
                ..stx
            },
        ),
{
}

/// A chown is read back: afterwards the file is reported with the requested owner, an
/// id that was to stay unchanged is reported as before, and so is everything else.
pub proof fn law_chown_reads_back(
    table: TableView,
    target: RealStat,
    uid: u32,
    gid: u32,
    buf: StatBuf,
)
    requires
        inode_of(buf) == (target.dev, target.ino),
    ensures
        ({
            let before = reported(table, buf);
            reported(chowned(table, target, uid, gid), buf) == with_owner(
                before,
                changed_id(uid, owner_of(before).0),
                changed_id(gid, owner_of(before).1),
            )
        }),
{
}

/// A chmod is read back: afterwards the file is reported with its real type and the
/// requested permissions, and with the same owner as before.
pub proof fn law_chmod_reads_back(table: TableView, target: RealStat, mode: u32, buf: StatBuf)
    requires
        inode_of(buf) == (target.dev, target.ino),
    ensures
        ({
            let after = reported(chmodded(table, target, mode), buf);
            &&& has_mode(after, composed(target.mode, mode))
            &&& owner_of(after) == owner_of(reported(table, buf))
            &&& rdev_of(after) == rdev_of(reported(table, buf))
        }),
{
}

/// A mknod is read back: afterwards the file is reported as root's, with the requested
/// type and mode and, where it is a device, the requested device number.
pub proof fn law_mknod_reads_back(
    table: TableView,
    target: RealStat,
    mode: u32,
    dev: u64,
    buf: StatBuf,
)
    requires
        inode_of(buf) == (target.dev, target.ino),
    ensures
        ({
            let after = reported(mknodded(table, target, mode, dev), buf);
            &&& owner_of(after) == (0u32, 0u32)
            &&& has_mode(after, mode)
            &&& is_device(mode) ==> rdev_of(after) == dev
        }),
{
    law_device_parts(dev);
}

/// A `struct stat` and a `struct statx` that describe the same inode are reported with
/// the same owner and, where it is faked, with the same mode, device number and link
/// count, as far as both can hold them.
pub proof fn law_stat_flavors_agree(table: TableView, native: StatBuf, statx: StatBuf)
    requires
        inode_of(native) == inode_of(statx),
    ensures
        ({
            let node = node_at(table, inode_of(native).0, inode_of(native).1);
            let one = reported(table, native);
            let other = reported(table, statx);
            &&& owner_of(one) == (node.uid, node.gid)
            &&& owner_of(other) == (node.uid, node.gid)
            &&& node.mode matches Some(mode) ==> mode_of(one) == mode_of(other) == mode as u16
            &&& node.rdev matches Some(rdev) ==> rdev_of(one) == rdev_of(other) == rdev
            &&& node.nlink matches Some(nlink) ==> links_of(one) == links_of(other)
                == nlink as u32
        }),
{
    let node = node_at(table, inode_of(native).0, inode_of(native).1);
    if let Some(rdev) = node.rdev {
        law_device_parts(rdev);
    }
}

/// An extended attribute that was set is read back with its value, and every other
/// attribute of the file with its own.
pub proof fn law_xattr_reads_back(
    table: TableView,
    target: RealStat,
    name: Seq<u8>,
    value: Seq<u8>,
    other: Seq<u8>,
)
    ensures
        xattr_value(xattr_set(table, target, name, value), target, name) == Some(value),
        other != name ==> xattr_value(xattr_set(table, target, name, value), target, other)
            == xattr_value(table, target, other),
{
}

/// An extended attribute that was removed is no longer faked; the others still are.
pub proof fn law_xattr_removed(
    table: TableView,
    target: RealStat,
    name: Seq<u8>,
    other: Seq<u8>,
)
    ensures
        xattr_value(xattr_removed(table, target, name), target, name) is None,
        other != name ==> xattr_value(xattr_removed(table, target, name), target, other)
            == xattr_value(table, target, other),
{
}

/// Setting and removing extended attributes keeps each faked one named exactly once.
pub proof fn law_xattr_names_kept(
    table: TableView,
    target: RealStat,
    name: Seq<u8>,
    value: Seq<u8>,
)
    requires
        node_at(table, target.dev, target.ino).xattrs.wf(),
    ensures
        node_at(xattr_set(table, target, name, value), target.dev, target.ino).xattrs.wf(),
        node_at(xattr_removed(table, target, name), target.dev, target.ino).xattrs.wf(),
        xattr_names(xattr_set(table, target, name, value), target).contains(name),
        !xattr_names(xattr_removed(table, target, name), target).contains(name),
{
    let before = node_at(table, target.dev, target.ino).xattrs;
    let set = before.set(name, value);
    let removed = before.without(name);
    if !before.values.contains_key(name) {
        assert(set.names[before.names.len() as int] == name);
        assert(!before.names.contains(name));
        assert forall|n: Seq<u8>| set.names.contains(n) <==> set.values.contains_key(n) by {
            if before.names.contains(n) {
                let i = choose|i: int| 0 <= i < before.names.len() && before.names[i] == n;
                assert(set.names[i] == n);
            }
        }
    } else {
        assert(before.names.contains(name));
    }
    before.names.index_of_first_ensures(name);
    match before.names.index_of_first(name) {
        Some(at) => {
            assert forall|n: Seq<u8>| removed.names.contains(n) <==> removed.values.contains_key(
                n,
            ) by {
                if removed.names.contains(n) {
                    let i = choose|i: int| 0 <= i < removed.names.len() && removed.names[i] == n;
                    let origin = if i < at {
                        i
                    } else {
                        i + 1
                    };
                    assert(before.names[origin] == n);
                    assert(before.names.contains(n));
                }
                if removed.values.contains_key(n) {
                    assert(before.names.contains(n));
                    let i = choose|i: int| 0 <= i < before.names.len() && before.names[i] == n;
                    let moved = if i < at {
                        i
                    } else {
                        i - 1
                    };
                    assert(removed.names[moved] == n);
                }
            }
        },
        None => {},
    }
}

/// Handling a syscall entry that fails records nothing.
pub proof fn law_error_records_nothing<R: RegAccess>(
    pid: i32,
    regs: R,
    world: World,
    table: TableView,
)
    ensures
        entry_outcome(pid, regs, world, table).0 is Err ==> entry_outcome(
            pid,
            regs,
            world,
            table,
        ).1 == table,
{
}

/// Nothing on disk changes hands: a syscall that would change an owner, make a device
/// node, set or remove an extended attribute, or change credentials is never let through
/// to the kernel.
pub proof fn law_privileged_calls_never_run<R: RegAccess>(
    pid: i32,
    regs: R,
    world: World,
    table: TableView,
    call: Syscall,
)
    requires
        decoded(R::abi(), regs.number()) == Some(call),
        ({
            ||| call.handled_by() == Family::Chown
            ||| call.handled_by() == Family::Mknod
            ||| call.handled_by() == Family::Cred
            ||| call.handled_by() == Family::CredRes
            ||| call is Setxattr || call is Lsetxattr || call is Fsetxattr
            ||| call is Removexattr || call is Lremovexattr || call is Fremovexattr
        }),
    ensures
        entry_outcome(pid, regs, world, table).0 matches Ok(disposition) ==> disposition is Skip,
{
}

/// Whether a syscall asks for something to be done with a file that exists.
pub open spec fn asks<R: RegAccess>(
    pid: i32,
    regs: R,
    world: World,
    to: Purpose,
    target: RealStat,
) -> bool {
    &&& decoded(R::abi(), regs.number()) matches Some(call)
    &&& planned(call, regs) matches PlanView::Locate(at, purpose)
    &&& purpose == to
    &&& target_path(at, world) matches Ok(path)
    &&& (world.stat)(
        resolved(pid, at.dirfd, path, at.empty),
        looks_through(at, to, path),
    ) == Ok::<RealStat, ErrorView>(target)
}

/// A program sees the ownership that it sets: a chown of a file that exists never runs,
/// returns 0, and from then on each stat of that file reports the requested owner, where
/// an id that was to stay unchanged is reported as before.
pub proof fn law_chown_is_seen<R: RegAccess>(
    pid: i32,
    regs: R,
    world: World,
    table: TableView,
    target: RealStat,
    uid: u32,
    gid: u32,
    buf: StatBuf,
    ret: i64,
)
    requires
        asks(pid, regs, world, Purpose::Chown { uid, gid }, target),
        inode_of(buf) == (target.dev, target.ino),
    ensures
        ({
            let (decision, after) = entry_outcome(pid, regs, world, table);
            let action = ExitActionView::ForceRet(0);
            let before = owner_of(reported(table, buf));
            &&& decision == Ok::<DispositionView, ErrorView>(DispositionView::Skip(action))
            &&& exit_step(action, ret).1 == Some(0i64)
            &&& exit_table(action, ret, after) == after
            &&& owner_of(reported(after, buf)) == (
                changed_id(uid, before.0),
                changed_id(gid, before.1),
            )
        }),
{
}

/// A program sees the mode that it sets: a chmod of a file that exists runs, returns 0
/// where it would fail, and from then on each stat of that file reports its real type
/// with the requested permissions.
pub proof fn law_chmod_is_seen<R: RegAccess>(
    pid: i32,
    regs: R,
    world: World,
    table: TableView,
    target: RealStat,
    mode: u32,
    buf: StatBuf,
    ret: i64,
)
    requires
        asks(pid, regs, world, Purpose::Chmod { mode }, target),
        inode_of(buf) == (target.dev, target.ino),
    ensures
        ({
            let (decision, after) = entry_outcome(pid, regs, world, table);
            let action = ExitActionView::ZeroOnErr;
            &&& decision == Ok::<DispositionView, ErrorView>(DispositionView::Step(action))
            &&& ret < 0 ==> exit_step(action, ret).1 == Some(0i64)
            &&& exit_table(action, ret, after) == after
            &&& has_mode(reported(after, buf), composed(target.mode, mode))
        }),
{
}

/// A program sees the device nodes that it makes: a mknod whose placeholder exists never
/// runs, returns 0, and from then on each stat of that file reports root's node of the
/// requested type and mode and, where it is a device, number.
pub proof fn law_mknod_is_seen<R: RegAccess>(
    pid: i32,
    regs: R,
    world: World,
    table: TableView,
    target: RealStat,
    mode: u32,
    dev: u64,
    buf: StatBuf,
    ret: i64,
)
    requires
        asks(pid, regs, world, Purpose::Mknod { mode, dev }, target),
        inode_of(buf) == (target.dev, target.ino),
    ensures
        ({
            let (decision, after) = entry_outcome(pid, regs, world, table);
            let action = ExitActionView::ForceRet(0);
            &&& decision == Ok::<DispositionView, ErrorView>(DispositionView::Skip(action))
            &&& exit_step(action, ret).1 == Some(0i64)
            &&& exit_table(action, ret, after) == after
            &&& owner_of(reported(after, buf)) == (0u32, 0u32)
            &&& has_mode(reported(after, buf), mode)
            &&& is_device(mode) ==> rdev_of(reported(after, buf)) == dev
        }),
{
    law_mknod_reads_back(table, target, mode, dev, buf);
}

/// Whether a syscall asks for something to be done with the file `(dev, ino)`.
pub open spec fn concerns<R: RegAccess>(
    pid: i32,
    regs: R,
    world: World,
    dev: u64,
    ino: u64,
) -> bool {
    exists|to: Purpose, target: RealStat| #[trigger]
        asks(pid, regs, world, to, target) && target.dev == dev && target.ino == ino
}

/// A syscall that asks for nothing to be done with a file leaves what is recorded of
/// that file alone, at its entry and at its exit.
pub proof fn law_other_records_stay<R: RegAccess>(
    pid: i32,
    regs: R,
    world: World,
    table: TableView,
    dev: u64,
    ino: u64,
    ret: i64,
)
    requires
        !concerns(pid, regs, world, dev, ino),
    ensures
        ({
            let (decision, entered) = entry_outcome(pid, regs, world, table);
            let left = table_left(decision, ret, entered);
            &&& entered.contains_key((dev, ino)) == table.contains_key((dev, ino))
            &&& node_at(entered, dev, ino) == node_at(table, dev, ino)
            &&& left.contains_key((dev, ino)) == table.contains_key((dev, ino))
            &&& node_at(left, dev, ino) == node_at(table, dev, ino)
        }),
{
    if let Some(call) = decoded(R::abi(), regs.number()) {
        if let PlanView::Locate(at, to) = planned(call, regs) {
            if let Ok(path) = target_path(at, world) {
                let full = resolved(pid, at.dirfd, path, at.empty);
                if let Ok(target) = (world.stat)(full, looks_through(at, to, path)) {
                    assert(asks(pid, regs, world, to, target));
                    assert((target.dev, target.ino) != (dev, ino));
                }
            }
        }
    }
}

/// Handling a syscall entry changes the record of at most one file: the one that the
/// syscall asks for something to be done with, of which there is no more than one.
pub proof fn law_entry_touches_one_inode<R: RegAccess>(
    pid: i32,
    regs: R,
    world: World,
    table: TableView,
)
    ensures
        forall|dev: u64, ino: u64|
            !concerns(pid, regs, world, dev, ino) ==> #[trigger] node_at(
                entry_outcome(pid, regs, world, table).1,
                dev,
                ino,
            ) == node_at(table, dev, ino),
        forall|dev: u64, ino: u64, other_dev: u64, other_ino: u64| #[trigger]
            concerns(pid, regs, world, dev, ino) && #[trigger] concerns(
                pid,
                regs,
                world,
                other_dev,
                other_ino,
            ) ==> dev == other_dev && ino == other_ino,
{
    assert forall|dev: u64, ino: u64| !concerns(pid, regs, world, dev, ino) implies #[trigger]
        node_at(entry_outcome(pid, regs, world, table).1, dev, ino) == node_at(
        table,
        dev,
        ino,
    ) by {
        law_other_records_stay(pid, regs, world, table, dev, ino, 0);
    }
}

/// The table after a syscall that was decided about at its entry returned `ret`.
pub open spec fn table_left(
    decision: Result<DispositionView, ErrorView>,
    ret: i64,
    table: TableView,
) -> TableView {
    match decision {
        Ok(DispositionView::Step(action)) => exit_table(action, ret, table),
        Ok(DispositionView::Skip(action)) => exit_table(action, ret, table),
        _ => table,
    }
}

/// One syscall of a traced process: who makes it with what registers, what the outside
/// answers at its entry, and what it returns at its exit.
pub struct Call<R> {
    pub pid: i32,
    pub regs: R,
    pub world: World,
    pub ret: i64,
}

/// The table after some syscalls, one after the other.
pub open spec fn after_calls<R: RegAccess>(table: TableView, calls: Seq<Call<R>>) -> TableView
    decreases calls.len(),
{
    if calls.len() == 0 {
        table
    } else {
        let call = calls.last();
        let before = after_calls(table, calls.drop_last());
        let (decision, entered) = entry_outcome(call.pid, call.regs, call.world, before);
        table_left(decision, call.ret, entered)
    }
}

/// What is reported of a file stays the same through any number of syscalls that ask for
/// nothing to be done with it: what was set is read back until it is set anew or the
/// file is removed.
pub proof fn law_reports_last<R: RegAccess>(table: TableView, calls: Seq<Call<R>>, buf: StatBuf)
    requires
        forall|i: int|
            0 <= i < calls.len() ==> !concerns(
                (#[trigger] calls[i]).pid,
                calls[i].regs,
                calls[i].world,
                inode_of(buf).0,
                inode_of(buf).1,
            ),
    ensures
        node_at(after_calls(table, calls), inode_of(buf).0, inode_of(buf).1) == node_at(
            table,
            inode_of(buf).0,
            inode_of(buf).1,
        ),
        reported(after_calls(table, calls), buf) == reported(table, buf),
    decreases calls.len(),
{
    if calls.len() > 0 {
        let fewer = calls.drop_last();
        assert forall|i: int| 0 <= i < fewer.len() implies !concerns(
            (#[trigger] fewer[i]).pid,
            fewer[i].regs,
            fewer[i].world,
            inode_of(buf).0,
            inode_of(buf).1,
        ) by {
            assert(fewer[i] == calls[i]);
        }
        law_reports_last(table, fewer, buf);
        let call = calls[calls.len() - 1];
        law_other_records_stay(
            call.pid,
            call.regs,
            call.world,
            after_calls(table, fewer),
            inode_of(buf).0,
            inode_of(buf).1,
            call.ret,
        );
    }
}

/// What the cleanup after the removal of one of a file's names comes to. Once its last
/// name has been removed, which for a directory is its only one, the record is gone, and
/// a new file that reuses the inode is reported as one of which nothing is known. While
/// the file has other names, or where the removal failed, every record stays.
pub open spec fn is_cleaned_up(
    table: TableView,
    target: RealStat,
    ret: i64,
    after: TableView,
) -> bool {
    if ret == 0 && (target.nlink <= 1 || is_directory(target.mode)) {
        &&& node_at(after, target.dev, target.ino) == FakeNodeView::unknown()
        &&& forall|dev: u64, ino: u64|
            (dev, ino) != (target.dev, target.ino) ==> #[trigger] node_at(after, dev, ino)
                == node_at(table, dev, ino)
    } else {
        after == table
    }
}

/// A removal is forgotten: it runs, its result stays as it is, and once the last name of
/// the inode is gone, which it is when a directory is removed, a file that reuses it
/// inherits nothing.
pub proof fn law_removal_is_forgotten<R: RegAccess>(
    pid: i32,
    regs: R,
    world: World,
    table: TableView,
    target: RealStat,
    ret: i64,
)
    requires
        asks(pid, regs, world, Purpose::Unlink, target),
    ensures
        entry_outcome(pid, regs, world, table) matches (Ok(DispositionView::Step(action)), after)
            && after == table && exit_step(action, ret) == (
            ExitStepView::Effects(Seq::empty()),
            None::<i64>,
        ) && is_cleaned_up(table, target, ret, exit_table(action, ret, table)),
{
}

/// What a rename does about its destination: an exchange of two names removes nothing
/// and passes through; any other rename looks at the file that has the new name, and
/// then at the one that has the old.
pub proof fn law_rename_looks_at_its_destination<R: RegAccess>(
    pid: i32,
    regs: R,
    world: World,
    table: TableView,
    call: Syscall,
)
    requires
        decoded(R::abi(), regs.number()) == Some(call),
        call.handled_by() == Family::Rename,
    ensures
        entry_outcome(pid, regs, world, table) == if call is Renameat2 && flag(
            regs.argument(4),
            RENAME_EXCHANGE,
        ) {
            (Ok::<DispositionView, ErrorView>(DispositionView::Passthrough), table)
        } else {
            let (from, dest) = if call is Rename {
                (by_path(regs.argument(0), true), by_path(regs.argument(1), true))
            } else {
                (
                    by_path_at(regs.argument(0), regs.argument(1), true, false),
                    by_path_at(regs.argument(2), regs.argument(3), true, false),
                )
            };
            plan_outcome(pid, PlanView::Locate(dest, Purpose::Rename { from }), world, table)
        },
{
}

/// A rename removes its destination: a file that it overwrites is cleaned up after as
/// after an unlink, and the record of the file that is moved stays. A rename of a file
/// onto one of its own names overwrites nothing, passes through and leaves its record.
pub proof fn law_rename_removes_its_destination<R: RegAccess>(
    pid: i32,
    regs: R,
    world: World,
    table: TableView,
    from: Lookup,
    onto: RealStat,
    ret: i64,
)
    requires
        asks(pid, regs, world, Purpose::Rename { from }, onto),
    ensures
        ({
            let (decision, after) = entry_outcome(pid, regs, world, table);
            &&& after == table
            &&& match found(pid, from, world) {
                Some(old) if old.dev == onto.dev && old.ino == onto.ino => decision == Ok::<
                    DispositionView,
                    ErrorView,
                >(DispositionView::Passthrough),
                old => {
                    &&& decision matches Ok(DispositionView::Step(action))
                    &&& exit_step(action, ret) == (
                        ExitStepView::Effects(Seq::empty()),
                        None::<i64>,
                    )
                    &&& is_cleaned_up(table, onto, ret, exit_table(action, ret, table))
                    &&& old matches Some(moved) ==> node_at(
                        exit_table(action, ret, table),
                        moved.dev,
                        moved.ino,
                    ) == node_at(table, moved.dev, moved.ino)
                },
            }
        }),
{
}

/// The process believes that it is root: reading an id gives 0 and setting one
/// succeeds, whatever the real ids are, and nothing is recorded.
pub proof fn law_identity_is_root<R: RegAccess>(
    pid: i32,
    regs: R,
    world: World,
    table: TableView,
    call: Syscall,
    ret: i64,
)
    requires
        decoded(R::abi(), regs.number()) == Some(call),
    ensures
        call.handled_by() == Family::Cred ==> entry_outcome(pid, regs, world, table) == (
            Ok::<DispositionView, ErrorView>(DispositionView::Skip(ExitActionView::ForceRet(0))),
            table,
        ),
        exit_step(ExitActionView::ForceRet(0), ret).1 == Some(0i64),
        call.handled_by() == Family::CredRes ==> entry_outcome(pid, regs, world, table) == (
            Ok::<DispositionView, ErrorView>(
                DispositionView::Skip(
                    ExitActionView::WriteResId {
                        ptrs: seq![regs.argument(0), regs.argument(1), regs.argument(2)],
                    },
                ),
            ),
            table,
        ),
{
}

proof fn lemma_zero_ids(ptrs: Seq<u64>)
    ensures
        forall|ptr: u64|
            ptr != 0 && ptrs.contains(ptr) ==> zero_ids(ptrs).contains(
                #[trigger] zero_write(ptr),
            ),
        forall|i: int|
            0 <= i < zero_ids(ptrs).len() ==> zeroes_one_of(ptrs, #[trigger] zero_ids(ptrs)[i]),
    decreases ptrs.len(),
{
    if ptrs.len() > 0 {
        let fewer = ptrs.drop_last();
        lemma_zero_ids(fewer);
        assert forall|ptr: u64| ptr != 0 && ptrs.contains(ptr) implies zero_ids(ptrs).contains(
            #[trigger] zero_write(ptr),
        ) by {
            let k = choose|k: int| 0 <= k < ptrs.len() && ptrs[k] == ptr;
            if k < fewer.len() {
                assert(fewer[k] == ptr);
                assert(fewer.contains(ptr));
                let j = choose|j: int|
                    0 <= j < zero_ids(fewer).len() && zero_ids(fewer)[j] == zero_write(ptr);
                assert(zero_ids(ptrs)[j] == zero_write(ptr));
            } else {
                assert(zero_ids(ptrs)[zero_ids(fewer).len() as int] == zero_write(ptr));
            }
        }
        assert forall|i: int| 0 <= i < zero_ids(ptrs).len() implies zeroes_one_of(
            ptrs,
            #[trigger] zero_ids(ptrs)[i],
        ) by {
            if i < zero_ids(fewer).len() {
                assert(zero_ids(ptrs)[i] == zero_ids(fewer)[i]);
                let ptr = choose|ptr: u64|
                    ptr != 0 && fewer.contains(ptr) && #[trigger] zero_write(ptr) == zero_ids(
                        fewer,
                    )[i];
                let k = choose|k: int| 0 <= k < fewer.len() && fewer[k] == ptr;
                assert(ptrs[k] == ptr);
            } else {
                assert(ptrs[ptrs.len() - 1] == ptrs.last());
                assert(zero_write(ptrs.last()) == zero_ids(ptrs)[i]);
            }
        }
    }
}

/// The write of a zero id at an address.
pub open spec fn zero_write(ptr: u64) -> EffectView {
    EffectView::Write { addr: ptr, bytes: seq![0u8, 0u8, 0u8, 0u8] }
}

/// Whether an effect zeroes the id behind one of `ptrs` that is not null.
pub open spec fn zeroes_one_of(ptrs: Seq<u64>, effect: EffectView) -> bool {
    exists|ptr: u64| ptr != 0 && ptrs.contains(ptr) && #[trigger] zero_write(ptr) == effect
}

/// getresuid and getresgid report root three times over: behind every pointer that is
/// not null the id becomes 0, nothing else is written, and the return value is 0.
pub proof fn law_id_triples_are_root(ptrs: Seq<u64>, ret: i64)
    ensures
        exit_step(ExitActionView::WriteResId { ptrs }, ret) == (
            ExitStepView::Effects(zero_ids(ptrs).push(EffectView::StoreRegs)),
            Some(0i64),
        ),
        forall|ptr: u64|
            ptr != 0 && ptrs.contains(ptr) ==> zero_ids(ptrs).contains(
                #[trigger] zero_write(ptr),
            ),
        forall|i: int|
            0 <= i < zero_ids(ptrs).len() ==> zeroes_one_of(ptrs, #[trigger] zero_ids(ptrs)[i]),
{
    lemma_zero_ids(ptrs);
}

/// A chmod succeeds: where the real call failed, it returns 0 all the same.
pub proof fn law_chmod_succeeds(ret: i64)
    ensures
        ret < 0 ==> exit_step(ExitActionView::ZeroOnErr, ret) == (
            ExitStepView::Effects(seq![EffectView::StoreRegs]),
            Some(0i64),
        ),
        ret >= 0 ==> exit_step(ExitActionView::ZeroOnErr, ret) == (
            ExitStepView::Effects(Seq::empty()),
            None::<i64>,
        ),
{
}

/// A reply never writes outside the buffer: at most `size` bytes, at its start, and
/// nothing at all where only the length was asked for or the content does not fit.
pub proof fn law_reply_fits(buf: u64, size: u64, content: Seq<u8>)
    ensures
        forall|i: int|
            0 <= i < reply_effects(buf, size, content).len() ==> ((#[trigger] reply_effects(
                buf,
                size,
                content,
            )[i]) matches EffectView::Write { addr, bytes } ==> addr == buf && bytes.len() <= size),
        size != 0 && content.len() > size ==> reply_value(size, content) == -ERANGE
            && reply_effects(buf, size, content) == seq![EffectView::StoreRegs],
        size == 0 ==> reply_value(size, content) == content.len() as i64 && reply_effects(
            buf,
            size,
            content,
        ) == seq![EffectView::StoreRegs],
{
}

/// What setxattr wrote, getxattr reads: the value that was in memory (of which no more
/// than a fixed number of bytes is kept) is written into a buffer that is large enough,
/// and its length returned.
pub proof fn law_xattr_round_trip(
    target: RealStat,
    name: Seq<u8>,
    value_addr: u64,
    value_size: u64,
    buf: u64,
    size: u64,
    world: World,
    table: TableView,
    ret: i64,
)
    requires
        value_size > 0 ==> world.memory.read(value_addr, kept_size(value_size) as int) is Ok,
    ensures
        ({
            let value = world.memory.bytes(value_addr, kept_size(value_size) as int);
            let (stored, after) = name_outcome(
                target,
                XattrOp::Store { value: value_addr, size: value_size },
                name,
                world,
                table,
            );
            let action = ExitActionView::ReturnXattr { buf, size, value };
            &&& stored == Ok::<DispositionView, ErrorView>(
                DispositionView::Skip(ExitActionView::ForceRet(0)),
            )
            &&& name_outcome(target, XattrOp::Fetch { buf, size }, name, world, after) == (
                Ok::<DispositionView, ErrorView>(DispositionView::Skip(action)),
                after,
            )
            &&& 0 < size && value.len() <= size ==> exit_step(action, ret) == (
                ExitStepView::Effects(
                    seq![EffectView::Write { addr: buf, bytes: value }, EffectView::StoreRegs],
                ),
                Some(value.len() as i64),
            )
        }),
{
    assert(world.memory.bytes(value_addr, 0) =~= Seq::empty());
}

/// Whether every name of a list is one that a NUL-terminated list can hold.
pub open spec fn are_names(names: Seq<Seq<u8>>) -> bool {
    forall|i: int|
        0 <= i < names.len() ==> (#[trigger] names[i]).len() > 0 && !names[i].contains(0u8)
}

proof fn lemma_append_name(list: Seq<u8>, name: Seq<u8>)
    requires
        open_name(list).len() == 0,
        !name.contains(0u8),
    ensures
        names_in(list + name) == names_in(list),
        open_name(list + name) == name,
    decreases name.len(),
{
    if name.len() == 0 {
        assert(list + name =~= list);
        assert(open_name(list) =~= name);
    } else {
        let shorter = name.drop_last();
        assert forall|i: int| 0 <= i < shorter.len() implies shorter[i] != 0 by {
            assert(name.contains(name[i]));
        }
        lemma_append_name(list, shorter);
        assert((list + name).drop_last() =~= list + shorter);
        assert(name.contains(name.last()));
        assert(open_name(list + name) =~= name);
    }
}

proof fn lemma_joined(names: Seq<Seq<u8>>)
    requires
        are_names(names),
    ensures
        names_in(joined(names)) == names,
        open_name(joined(names)).len() == 0,
    decreases names.len(),
{
    if names.len() > 0 {
        let fewer = names.drop_last();
        let list = joined(fewer);
        let name = names.last();
        assert(are_names(fewer));
        lemma_joined(fewer);
        assert(names[names.len() - 1] == name);
        lemma_append_name(list, name);
        let whole = list + name.push(0u8);
        assert(whole.drop_last() =~= list + name);
        assert(names_in(whole) =~= names);
    } else {
        assert(names_in(joined(names)) =~= names);
    }
}

/// The list of names that a tracee is given holds exactly the names that were put in:
/// taking a list of NUL-terminated names apart gives back the names it was made of.
pub proof fn law_name_list_round_trip(names: Seq<Seq<u8>>)
    requires
        are_names(names),
    ensures
        listed_names(joined(names)) == names,
{
    lemma_joined(names);
}

/// Merging keeps the real names in front and in order, adds every faked name, adds
/// nothing else, and doubles none.
pub proof fn law_merged_names(names: Seq<Seq<u8>>, extra: Seq<Seq<u8>>)
    ensures
        names.is_prefix_of(merged(names, extra)),
        forall|name: Seq<u8>|
            #[trigger] merged(names, extra).contains(name) <==> names.contains(name)
                || extra.contains(name),
        names.no_duplicates() ==> merged(names, extra).no_duplicates(),
    decreases extra.len(),
{
    if extra.len() > 0 {
        let fewer = extra.drop_last();
        let before = merged(names, fewer);
        let after = merged(names, extra);
        law_merged_names(names, fewer);
        assert forall|name: Seq<u8>| #[trigger] after.contains(name) <==> names.contains(name)
            || extra.contains(name) by {
            assert(before.contains(name) <==> names.contains(name) || fewer.contains(name));
            if fewer.contains(name) {
                let i = choose|i: int| 0 <= i < fewer.len() && fewer[i] == name;
                assert(extra[i] == name);
            }
            if extra.contains(name) {
                let i = choose|i: int| 0 <= i < extra.len() && extra[i] == name;
                if i < fewer.len() {
                    assert(fewer[i] == name);
                }
            }
            assert(extra[extra.len() - 1] == extra.last());
            if before.contains(name) {
                let i = choose|i: int| 0 <= i < before.len() && before[i] == name;
                assert(after[i] == name);
            }
            if !before.contains(extra.last()) {
                assert(after[before.len() as int] == extra.last());
                if after.contains(name) && name != extra.last() {
                    let i = choose|i: int| 0 <= i < after.len() && after[i] == name;
                    assert(before[i] == name);
                }
            }
        }
    }
}

/// A forced return value is the one that the syscall returns.
pub proof fn law_forced_values(value: i64, ret: i64)
    ensures
        exit_step(ExitActionView::ForceRet(value), ret) == (
            ExitStepView::Effects(seq![EffectView::StoreRegs]),
            Some(value),
        ),
{
}

/// Forcing a return value changes what the syscall returns and, apart from the first
/// argument, which some architectures return in, nothing else that it uses. Without one
/// the registers stay as they are.
pub proof fn law_forced_registers<R: RegAccess>(before: R, after: R, value: i64)
    ensures
        forced(before, after, Some(value)) ==> {
            &&& R::answered(before, value, after)
            &&& after.returned() == value
            &&& after.number() == before.number()
            &&& forall|i: int| 1 <= i <= 5 ==> #[trigger] after.argument(i) == before.argument(i)
        },
        forced(before, after, None) ==> after == before,
{
}

proof fn lemma_names_behind_nul(a: Seq<u8>, b: Seq<u8>)
    ensures
        names_in(a + seq![0u8] + b) == listed_names(a) + names_in(b),
        open_name(a + seq![0u8] + b) == open_name(b),
    decreases b.len(),
{
    let list = a + seq![0u8] + b;
    if b.len() == 0 {
        assert(list =~= a.push(0u8));
        assert(list.drop_last() =~= a);
        assert(names_in(list) =~= listed_names(a) + names_in(b));
    } else {
        assert(list.drop_last() =~= a + seq![0u8] + b.drop_last());
        assert(list.last() == b.last());
        lemma_names_behind_nul(a, b.drop_last());
        assert(names_in(list) =~= listed_names(a) + names_in(b));
        assert(open_name(list) =~= open_name(b));
    }
}

/// How any list of names is taken apart: a NUL parts what is in front of it from what is
/// behind it, and what holds no NUL is one name, or none where it is empty.
pub proof fn law_names_are_parted_by_nuls(a: Seq<u8>, b: Seq<u8>)
    ensures
        listed_names(a + seq![0u8] + b) == listed_names(a) + listed_names(b),
        !a.contains(0u8) && a.len() > 0 ==> listed_names(a) == seq![a],
        listed_names(Seq::empty()) == Seq::<Seq<u8>>::empty(),
{
    lemma_names_behind_nul(a, b);
    assert(listed_names(a + seq![0u8] + b) =~= listed_names(a) + listed_names(b));
    if !a.contains(0u8) && a.len() > 0 {
        lemma_append_name(Seq::empty(), a);
        assert(Seq::<u8>::empty() + a =~= a);
        assert(listed_names(a) =~= seq![a]);
    }
}

} // verus!
