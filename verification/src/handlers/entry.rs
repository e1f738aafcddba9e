//! Inspecting a trapped syscall at its entry stop and deciding how to fake it.
//!
//! The decision may need things that only the outside can tell: a path in the tracee's
//! memory, the metadata of a file. [`handle_entry`] therefore returns an [`EntryStep`]:
//! either the decision, or a request with the means to go on once it has been answered.
//! A memory read that fails ends the handling with its error, unless
//! [`PathRead::failed`] knows better.

use super::action::{Disposition, DispositionView, ExitAction, ExitActionView};
use super::overlay::{compose_mode, composed};
use super::plan::{plan, planned, Lookup, Plan, PlanView, Purpose, XattrOp};
use super::registry::{decode, decoded};
use crate::arch::RegAccess;
use crate::bytes::copy_bytes;
use crate::error::{Error, ErrorView};
use crate::mem::{read_cstring, CStringScan, CStringStep, ScanStepView, ScanView};
use crate::path::{
    follows, is_descriptor, resolve_path, resolved, stat_target, RealStat, StatQuery,
};
use crate::table::{node_at, FakeNodeView, OwnershipTable, TableView};
use vstd::prelude::*;

verus! {

/// The id that means "leave this id unchanged" in chown(2).
pub const ID_UNCHANGED: u32 = 0xffff_ffff;

/// The bits of a mode that hold the file type.
pub const S_IFMT: u32 = 0o170000;

/// The type of a directory.
pub const S_IFDIR: u32 = 0o040000;

/// The type of a character device.
pub const S_IFCHR: u32 = 0o020000;

/// The type of a block device.
pub const S_IFBLK: u32 = 0o060000;

/// Whether a mode is that of a directory.
pub open spec fn is_directory(mode: u32) -> bool {
    mode & S_IFMT == S_IFDIR
}

/// How many names a file has. The links of a directory are not names: whatever their
/// count, it has one name.
pub open spec fn names_of(target: RealStat) -> u64 {
    if is_directory(target.mode) {
        1
    } else {
        target.nlink
    }
}

/// The cleanup after one of a file's names was removed.
pub open spec fn cleanup(target: RealStat) -> DispositionView {
    DispositionView::Step(
        ExitActionView::UnlinkCommit {
            dev: target.dev,
            ino: target.ino,
            nlink_before: names_of(target),
        },
    )
}

/// Whether two lookups have found the same file.
pub open spec fn same_inode(a: RealStat, b: RealStat) -> bool {
    a.dev == b.dev && a.ino == b.ino
}

/// The most bytes of an extended attribute that are kept.
pub const MAX_XATTR: u64 = 65536;

/// A requested id, or the one in force where it is to stay unchanged.
pub open spec fn changed_id(requested: u32, current: u32) -> u32 {
    if requested == ID_UNCHANGED {
        current
    } else {
        requested
    }
}

/// The table after a chown. An id that stays unchanged keeps its fake value, which is
/// root's where nothing was recorded.
pub open spec fn chowned(table: TableView, target: RealStat, uid: u32, gid: u32) -> TableView {
    let node = node_at(table, target.dev, target.ino);
    table.insert(
        (target.dev, target.ino),
        FakeNodeView { uid: changed_id(uid, node.uid), gid: changed_id(gid, node.gid), ..node },
    )
}

/// The table after a chmod.
pub open spec fn chmodded(table: TableView, target: RealStat, mode: u32) -> TableView {
    let node = node_at(table, target.dev, target.ino);
    table.insert(
        (target.dev, target.ino),
        FakeNodeView { mode: Some(composed(target.mode, mode)), ..node },
    )
}

/// Whether a mode is that of a character or block device.
pub open spec fn is_device(mode: u32) -> bool {
    mode & S_IFMT == S_IFCHR || mode & S_IFMT == S_IFBLK
}

/// The table after a mknod: the node is root's, has the requested mode and, where it is
/// a device, the requested device number.
pub open spec fn mknodded(table: TableView, target: RealStat, mode: u32, dev: u64) -> TableView {
    let node = node_at(table, target.dev, target.ino);
    table.insert(
        (target.dev, target.ino),
        FakeNodeView {
            uid: 0,
            gid: 0,
            mode: Some(mode),
            rdev: if is_device(mode) {
                Some(dev)
            } else {
                node.rdev
            },
            ..node
        },
    )
}

/// The table after an extended attribute was set.
pub open spec fn xattr_set(
    table: TableView,
    target: RealStat,
    name: Seq<u8>,
    value: Seq<u8>,
) -> TableView {
    let node = node_at(table, target.dev, target.ino);
    table.insert(
        (target.dev, target.ino),
        FakeNodeView { xattrs: node.xattrs.set(name, value), ..node },
    )
}

/// The table after an extended attribute was removed.
pub open spec fn xattr_removed(table: TableView, target: RealStat, name: Seq<u8>) -> TableView {
    let node = node_at(table, target.dev, target.ino);
    table.insert(
        (target.dev, target.ino),
        FakeNodeView { xattrs: node.xattrs.without(name), ..node },
    )
}

/// The faked value of an extended attribute.
pub open spec fn xattr_value(table: TableView, target: RealStat, name: Seq<u8>) -> Option<Seq<u8>> {
    let values = node_at(table, target.dev, target.ino).xattrs.values;
    if values.contains_key(name) {
        Some(values[name])
    } else {
        None
    }
}

/// The names of the faked extended attributes.
pub open spec fn xattr_names(table: TableView, target: RealStat) -> Seq<Seq<u8>> {
    node_at(table, target.dev, target.ino).xattrs.names
}

/// What becomes of a listing of a file's attributes: where some are faked, their names
/// are merged in.
pub open spec fn listing(
    table: TableView,
    target: RealStat,
    buf: u64,
    size: u64,
) -> DispositionView {
    let extra = xattr_names(table, target);
    if extra.len() == 0 {
        DispositionView::Passthrough
    } else {
        DispositionView::Step(ExitActionView::MergeXattrList { buf, size, extra })
    }
}

/// How many bytes of a value are kept.
pub open spec fn kept_size(size: u64) -> u64 {
    if size <= MAX_XATTR {
        size
    } else {
        MAX_XATTR
    }
}

/// How far the handling of a syscall entry has come.
#[derive(Debug)]
pub enum EntryStep {
    /// The decision.
    Decided(Disposition),
    /// A chunk of a path has to be read from the tracee's memory.
    ReadPath(PathRead),
    /// A placeholder file has to be made.
    Create(Placeholder),
    /// A file has to be looked up.
    Stat(StatWait),
    /// A chunk of an attribute's name has to be read from the tracee's memory.
    ReadName(NameRead),
    /// An attribute's value has to be read from the tracee's memory.
    ReadValue(ValueRead),
}

/// The path of a syscall's target, being read.
#[derive(Debug)]
pub struct PathRead {
    pub pid: i32,
    pub at: Lookup,
    pub to: Purpose,
    /// The scan that says what to read.
    pub scan: CStringScan,
}

/// A regular file to be made, with mode 0644 and without truncating one that exists.
/// Whether that succeeds does not matter.
#[derive(Debug)]
pub struct Placeholder {
    pub pid: i32,
    pub path: Vec<u8>,
    pub to: Purpose,
}

/// A file to be looked up.
#[derive(Debug)]
pub struct StatWait {
    pub pid: i32,
    pub query: StatQuery,
    pub to: Purpose,
}

/// The name of an extended attribute, being read.
#[derive(Debug)]
pub struct NameRead {
    pub target: RealStat,
    pub op: XattrOp,
    /// The scan that says what to read.
    pub scan: CStringScan,
}

/// The value of an extended attribute, to be read: `len` bytes at `addr`.
#[derive(Debug)]
pub struct ValueRead {
    pub target: RealStat,
    pub name: Vec<u8>,
    pub addr: u64,
    pub len: usize,
}

/// The mathematical value of an [`EntryStep`].
pub enum EntryStepView {
    Decided(DispositionView),
    ReadPath { pid: i32, at: Lookup, to: Purpose, scan: ScanView },
    Create { pid: i32, path: Seq<u8>, to: Purpose },
    Stat { pid: i32, path: Seq<u8>, follow: bool, to: Purpose },
    ReadName { target: RealStat, op: XattrOp, scan: ScanView },
    ReadValue { target: RealStat, name: Seq<u8>, addr: u64, len: int },
}

impl View for EntryStep {
    type V = EntryStepView;

    open spec fn view(&self) -> EntryStepView {
        match self {
            EntryStep::Decided(disposition) => EntryStepView::Decided(disposition@),
            EntryStep::ReadPath(read) => EntryStepView::ReadPath {
                pid: read.pid,
                at: read.at,
                to: read.to,
                scan: read.scan@,
            },
            EntryStep::Create(create) => EntryStepView::Create {
                pid: create.pid,
                path: create.path@,
                to: create.to,
            },
            EntryStep::Stat(wait) => EntryStepView::Stat {
                pid: wait.pid,
                path: wait.query.path@,
                follow: wait.query.follow,
                to: wait.to,
            },
            EntryStep::ReadName(read) => EntryStepView::ReadName {
                target: read.target,
                op: read.op,
                scan: read.scan@,
            },
            EntryStep::ReadValue(read) => EntryStepView::ReadValue {
                target: read.target,
                name: read.name@,
                addr: read.addr,
                len: read.len as int,
            },
        }
    }
}

/// Whether a result has a given value, taken by its view.
pub open spec fn is_step(
    result: Result<EntryStep, Error>,
    value: Result<EntryStepView, ErrorView>,
) -> bool {
    match result {
        Ok(step) => value == Ok::<EntryStepView, ErrorView>(step@),
        Err(e) => value == Err::<EntryStepView, ErrorView>(e@),
    }
}

/// The step that follows once a target's path is known.
pub open spec fn step_at_path(
    pid: i32,
    at: Lookup,
    to: Purpose,
    path: Seq<u8>,
) -> EntryStepView {
    let full = resolved(pid, at.dirfd, path, at.empty);
    match to {
        Purpose::Mknod { .. } => EntryStepView::Create { pid, path: full, to },
        _ => EntryStepView::Stat {
            pid,
            path: full,
            follow: follows(at.nofollow, is_descriptor(path, at.empty)),
            to,
        },
    }
}

/// The step that looks for a file.
pub open spec fn locating_step(pid: i32, at: Lookup, to: Purpose) -> EntryStepView {
    match at.path {
        Some(addr) => EntryStepView::ReadPath { pid, at, to, scan: ScanView::at(addr) },
        None => step_at_path(pid, at, to, Seq::empty()),
    }
}

/// The first step of a plan.
pub open spec fn first_step(pid: i32, plan: PlanView) -> EntryStepView {
    match plan {
        PlanView::Decided(disposition) => EntryStepView::Decided(disposition),
        PlanView::Locate(at, to) => locating_step(pid, at, to),
    }
}

/// The step that follows where a path could not be read. That is an error, except that
/// a rename whose old name cannot be read is handled by its new name alone.
pub open spec fn step_without_path(to: Purpose, e: ErrorView) -> Result<
    EntryStepView,
    ErrorView,
> {
    match to {
        Purpose::Replace { onto } => Ok(EntryStepView::Decided(cleanup(onto))),
        _ => Err(e),
    }
}

/// The step that follows a chunk of a path.
pub open spec fn step_after_path_chunk(
    pid: i32,
    at: Lookup,
    to: Purpose,
    scan: ScanView,
    chunk: Seq<u8>,
) -> Result<EntryStepView, ErrorView> {
    match scan.fed(chunk) {
        Err(e) => step_without_path(to, e),
        Ok(ScanStepView::Whole(path)) => Ok(step_at_path(pid, at, to, path)),
        Ok(ScanStepView::More(scan)) => Ok(EntryStepView::ReadPath { pid, at, to, scan }),
    }
}

/// The step that follows once the target is known, and the table as it is then. A
/// rename of a file onto one of its own names removes nothing.
pub open spec fn step_at_target(
    pid: i32,
    to: Purpose,
    target: RealStat,
    table: TableView,
) -> (EntryStepView, TableView) {
    let faked = EntryStepView::Decided(DispositionView::Skip(ExitActionView::ForceRet(0)));
    match to {
        Purpose::Chown { uid, gid } => (faked, chowned(table, target, uid, gid)),
        Purpose::Chmod { mode } => (
            EntryStepView::Decided(DispositionView::Step(ExitActionView::ZeroOnErr)),
            chmodded(table, target, mode),
        ),
        Purpose::Mknod { mode, dev } => (faked, mknodded(table, target, mode, dev)),
        Purpose::Unlink => (EntryStepView::Decided(cleanup(target)), table),
        Purpose::Rename { from } => (
            locating_step(pid, from, Purpose::Replace { onto: target }),
            table,
        ),
        Purpose::Replace { onto } => (
            EntryStepView::Decided(
                if same_inode(target, onto) {
                    DispositionView::Passthrough
                } else {
                    cleanup(onto)
                },
            ),
            table,
        ),
        Purpose::ListXattr { buf, size } => (
            EntryStepView::Decided(listing(table, target, buf, size)),
            table,
        ),
        Purpose::Xattr { name, op } => (
            EntryStepView::ReadName { target, op, scan: ScanView::at(name) },
            table,
        ),
    }
}

/// The step that follows a lookup, and the table as it is then. A target that cannot be
/// looked up is an error, except that a removal or a rename onto it is then left to the
/// real syscall, and a rename whose old name cannot be looked up is handled by its new
/// name alone.
pub open spec fn step_after_stat(
    pid: i32,
    to: Purpose,
    found: Result<RealStat, ErrorView>,
    table: TableView,
) -> (Result<EntryStepView, ErrorView>, TableView) {
    match found {
        Ok(target) => {
            let (step, after) = step_at_target(pid, to, target, table);
            (Ok(step), after)
        },
        Err(e) => match to {
            Purpose::Unlink | Purpose::Rename { .. } => (
                Ok(EntryStepView::Decided(DispositionView::Passthrough)),
                table,
            ),
            _ => (step_without_path(to, e), table),
        },
    }
}

/// The step that follows once an attribute's name is known, and the table as it is then.
pub open spec fn step_at_name(
    target: RealStat,
    op: XattrOp,
    name: Seq<u8>,
    table: TableView,
) -> (EntryStepView, TableView) {
    let faked = EntryStepView::Decided(DispositionView::Skip(ExitActionView::ForceRet(0)));
    match op {
        XattrOp::Store { value, size } => if kept_size(size) == 0 {
            (faked, xattr_set(table, target, name, Seq::empty()))
        } else {
            (
                EntryStepView::ReadValue {
                    target,
                    name,
                    addr: value,
                    len: kept_size(size) as int,
                },
                table,
            )
        },
        XattrOp::Fetch { buf, size } => (
            EntryStepView::Decided(
                match xattr_value(table, target, name) {
                    Some(value) => DispositionView::Skip(
                        ExitActionView::ReturnXattr { buf, size, value },
                    ),
                    // Not faked: the real attribute (such as `user.*`) is let through.
                    None => DispositionView::Passthrough,
                },
            ),
            table,
        ),
        XattrOp::Drop => (faked, xattr_removed(table, target, name)),
    }
}

/// The step that follows an attempt to make a placeholder, which is then looked up.
pub open spec fn step_after_create(pid: i32, path: Seq<u8>, to: Purpose) -> EntryStepView {
    EntryStepView::Stat { pid, path, follow: true, to }
}

/// What is decided once an attribute's value is known, and the table as it is then.
pub open spec fn value_outcome(
    target: RealStat,
    name: Seq<u8>,
    value: Seq<u8>,
    table: TableView,
) -> (DispositionView, TableView) {
    (
        DispositionView::Skip(ExitActionView::ForceRet(0)),
        xattr_set(table, target, name, value),
    )
}

/// The step that follows a chunk of an attribute's name, and the table as it is then.
pub open spec fn step_after_name_chunk(
    target: RealStat,
    op: XattrOp,
    scan: ScanView,
    chunk: Seq<u8>,
    table: TableView,
) -> (Result<EntryStepView, ErrorView>, TableView) {
    match scan.fed(chunk) {
        Err(e) => (Err(e), table),
        Ok(ScanStepView::Whole(name)) => {
            let (step, after) = step_at_name(target, op, name, table);
            (Ok(step), after)
        },
        Ok(ScanStepView::More(scan)) => (Ok(EntryStepView::ReadName { target, op, scan }), table),
    }
}

/// Records the requested ownership of an inode.
pub fn record_chown(table: &mut OwnershipTable, target: &RealStat, uid: u32, gid: u32)
    ensures
        final(table)@ == chowned(old(table)@, *target, uid, gid),
{
    let node = table.entry(target.dev, target.ino);
    if uid != ID_UNCHANGED {
        node.uid = uid;
    }
    if gid != ID_UNCHANGED {
        node.gid = gid;
    }
}

/// Records the requested mode of an inode.
pub fn record_chmod(table: &mut OwnershipTable, target: &RealStat, mode: u32)
    ensures
        final(table)@ == chmodded(old(table)@, *target, mode),
{
    let node = table.entry(target.dev, target.ino);
    node.mode = Some(compose_mode(target.mode, mode));
}

/// Records the node that a placeholder stands for.
pub fn finish_mknod(table: &mut OwnershipTable, target: &RealStat, mode: u32, dev: u64)
    ensures
        final(table)@ == mknodded(old(table)@, *target, mode, dev),
{
    let node = table.entry(target.dev, target.ino);
    // A node made while pretending to be root is root's.
    node.uid = 0;
    node.gid = 0;
    node.mode = Some(mode);
    let kind: u32 = mode & S_IFMT;
    if kind == S_IFCHR || kind == S_IFBLK {
        node.rdev = Some(dev);
    }
}

/// Inspects a trapped syscall at its entry stop.
pub fn handle_entry<R: RegAccess>(pid: i32, regs: &R) -> (step: EntryStep)
    ensures
        step@ == entry(pid, *regs),
{
    match decode(R::arch(), regs.syscall_no()) {
        None => EntryStep::Decided(Disposition::Passthrough),
        Some(call) => match plan(call, regs) {
            Plan::Decided(disposition) => EntryStep::Decided(disposition),
            Plan::Locate(at, to) => locate(pid, at, to),
        },
    }
}

/// Looks for a file.
fn locate(pid: i32, at: Lookup, to: Purpose) -> (step: EntryStep)
    ensures
        step@ == locating_step(pid, at, to),
{
    match at.path {
        Some(addr) => EntryStep::ReadPath(PathRead { pid, at, to, scan: read_cstring(addr) }),
        None => {
            let path: Vec<u8> = Vec::new();
            at_path(pid, at, to, path.as_slice())
        },
    }
}

/// The first step of handling a syscall entry. A syscall that is not intercepted runs
/// normally.
pub open spec fn entry<R: RegAccess>(pid: i32, regs: R) -> EntryStepView {
    match decoded(R::abi(), regs.number()) {
        None => EntryStepView::Decided(DispositionView::Passthrough),
        Some(call) => first_step(pid, planned(call, regs)),
    }
}

/// Goes on with the path of a syscall's target.
fn at_path(pid: i32, at: Lookup, to: Purpose, path: &[u8]) -> (step: EntryStep)
    ensures
        step@ == step_at_path(pid, at, to, path@),
{
    match to {
        Purpose::Mknod { .. } => EntryStep::Create(
            Placeholder { pid, path: resolve_path(pid, at.dirfd, path, at.empty), to },
        ),
        _ => EntryStep::Stat(
            StatWait { pid, query: stat_target(pid, at.dirfd, path, at.nofollow, at.empty), to },
        ),
    }
}

impl PathRead {
    /// Goes on with the chunk that the scan asked for.
    pub fn supply(self, chunk: &[u8]) -> (step: Result<EntryStep, Error>)
        ensures
            is_step(
                step,
                step_after_path_chunk(self.pid, self.at, self.to, self.scan@, chunk@),
            ),
    {
        match self.scan.feed(chunk) {
            Err(e) => without_path(self.to, e),
            Ok(CStringStep::Whole(path)) => Ok(
                at_path(self.pid, self.at, self.to, path.as_slice()),
            ),
            Ok(CStringStep::More(scan)) => Ok(
                EntryStep::ReadPath(PathRead { pid: self.pid, at: self.at, to: self.to, scan }),
            ),
        }
    }
}

impl PathRead {
    /// Goes on after a read that failed.
    pub fn failed(self, e: Error) -> (step: Result<EntryStep, Error>)
        ensures
            is_step(step, step_without_path(self.to, e@)),
    {
        without_path(self.to, e)
    }
}

/// Goes on without the path that a syscall is about.
fn without_path(to: Purpose, e: Error) -> (step: Result<EntryStep, Error>)
    ensures
        is_step(step, step_without_path(to, e@)),
{
    match to {
        Purpose::Replace { onto } => Ok(EntryStep::Decided(unlink_commit(onto))),
        _ => Err(e),
    }
}

impl Placeholder {
    /// Goes on after an attempt to make the file.
    pub fn attempted(self) -> (step: EntryStep)
        ensures
            step@ == step_after_create(self.pid, self.path@, self.to),
    {
        EntryStep::Stat(
            StatWait {
                pid: self.pid,
                query: StatQuery { path: self.path, follow: true },
                to: self.to,
            },
        )
    }
}

impl StatWait {
    /// Goes on with what the lookup found. May record something in `table`.
    pub fn answer(
        self,
        found: Result<RealStat, Error>,
        table: &mut OwnershipTable,
    ) -> (step: Result<EntryStep, Error>)
        ensures
            is_step(step, step_after_stat(self.pid, self.to, seen(found), old(table)@).0),
            final(table)@ == step_after_stat(self.pid, self.to, seen(found), old(table)@).1,
    {
        let target = match found {
            Ok(target) => target,
            Err(e) => {
                return match self.to {
                    // It does not exist or cannot be read: the real syscall will tell.
                    Purpose::Unlink | Purpose::Rename { .. } => Ok(
                        EntryStep::Decided(Disposition::Passthrough),
                    ),
                    to => without_path(to, e),
                };
            },
        };
        Ok(at_target(self.pid, self.to, target, table))
    }
}

/// What a lookup found, its error taken by its view.
pub open spec fn seen(found: Result<RealStat, Error>) -> Result<RealStat, ErrorView> {
    match found {
        Ok(target) => Ok(target),
        Err(e) => Err(e@),
    }
}

/// Goes on with the target of a syscall.
fn at_target(
    pid: i32,
    to: Purpose,
    target: RealStat,
    table: &mut OwnershipTable,
) -> (step: EntryStep)
    ensures
        step@ == step_at_target(pid, to, target, old(table)@).0,
        final(table)@ == step_at_target(pid, to, target, old(table)@).1,
{
    match to {
        Purpose::Chown { uid, gid } => {
            record_chown(table, &target, uid, gid);
            EntryStep::Decided(Disposition::Skip(ExitAction::ForceRet(0)))
        },
        Purpose::Chmod { mode } => {
            record_chmod(table, &target, mode);
            EntryStep::Decided(Disposition::Step(ExitAction::ZeroOnErr))
        },
        Purpose::Mknod { mode, dev } => {
            finish_mknod(table, &target, mode, dev);
            EntryStep::Decided(Disposition::Skip(ExitAction::ForceRet(0)))
        },
        Purpose::Unlink => EntryStep::Decided(unlink_commit(target)),
        Purpose::Rename { from } => locate(pid, from, Purpose::Replace { onto: target }),
        Purpose::Replace { onto } => EntryStep::Decided(
            // A file's own name: nothing is overwritten.
            if target.dev == onto.dev && target.ino == onto.ino {
                Disposition::Passthrough
            } else {
                unlink_commit(onto)
            },
        ),
        Purpose::ListXattr { buf, size } => EntryStep::Decided(
            list_xattrs(table, target, buf, size),
        ),
        Purpose::Xattr { name, op } => EntryStep::ReadName(
            NameRead { target, op, scan: read_cstring(name) },
        ),
    }
}

/// Schedules the cleanup after a removal.
fn unlink_commit(target: RealStat) -> (disposition: Disposition)
    ensures
        disposition@ == cleanup(target),
{
    let nlink_before: u64 = if target.mode & S_IFMT == S_IFDIR {
        1
    } else {
        target.nlink
    };
    Disposition::Step(
        ExitAction::UnlinkCommit { dev: target.dev, ino: target.ino, nlink_before },
    )
}

/// Lists the faked attributes of an inode beside its real ones.
fn list_xattrs(
    table: &OwnershipTable,
    target: RealStat,
    buf: u64,
    size: u64,
) -> (disposition: Disposition)
    ensures
        disposition@ == listing(table@, target, buf, size),
{
    match table.get(target.dev, target.ino) {
        None => Disposition::Passthrough,
        Some(node) => {
            let extra: Vec<Vec<u8>> = node.xattrs.names();
            if extra.len() == 0 {
                return Disposition::Passthrough;
            }
            Disposition::Step(ExitAction::MergeXattrList { buf, size, extra })
        },
    }
}

impl NameRead {
    /// Goes on with the chunk that the scan asked for. May record something in `table`.
    pub fn supply(self, chunk: &[u8], table: &mut OwnershipTable) -> (step: Result<
        EntryStep,
        Error,
    >)
        ensures
            is_step(
                step,
                step_after_name_chunk(self.target, self.op, self.scan@, chunk@, old(table)@).0,
            ),
            final(table)@ == step_after_name_chunk(
                self.target,
                self.op,
                self.scan@,
                chunk@,
                old(table)@,
            ).1,
    {
        match self.scan.feed(chunk) {
            Err(e) => Err(e),
            Ok(CStringStep::Whole(name)) => Ok(at_name(self.target, self.op, name, table)),
            Ok(CStringStep::More(scan)) => Ok(
                EntryStep::ReadName(NameRead { target: self.target, op: self.op, scan }),
            ),
        }
    }
}

/// Goes on with the name of an extended attribute.
fn at_name(
    target: RealStat,
    op: XattrOp,
    name: Vec<u8>,
    table: &mut OwnershipTable,
) -> (step: EntryStep)
    ensures
        step@ == step_at_name(target, op, name@, old(table)@).0,
        final(table)@ == step_at_name(target, op, name@, old(table)@).1,
{
    match op {
        XattrOp::Store { value, size } => {
            let len: u64 = if size <= MAX_XATTR {
                size
            } else {
                MAX_XATTR
            };
            if len == 0 {
                let node = table.entry(target.dev, target.ino);
                node.xattrs.insert(name, Vec::new());
                return EntryStep::Decided(Disposition::Skip(ExitAction::ForceRet(0)));
            }
            EntryStep::ReadValue(ValueRead { target, name, addr: value, len: len as usize })
        },
        XattrOp::Fetch { buf, size } => {
            if let Some(node) = table.get(target.dev, target.ino) {
                if let Some(value) = node.xattrs.get(name.as_slice()) {
                    return EntryStep::Decided(
                        Disposition::Skip(
                            ExitAction::ReturnXattr {
                                buf,
                                size,
                                value: copy_bytes(value.as_slice()),
                            },
                        ),
                    );
                }
            }
            EntryStep::Decided(Disposition::Passthrough)
        },
        XattrOp::Drop => {
            let node = table.entry(target.dev, target.ino);
            node.xattrs.remove(name.as_slice());
            EntryStep::Decided(Disposition::Skip(ExitAction::ForceRet(0)))
        },
    }
}

impl ValueRead {
    /// Records the value that was read.
    pub fn supply(self, value: Vec<u8>, table: &mut OwnershipTable) -> (disposition: Disposition)
        ensures
            disposition@ == value_outcome(self.target, self.name@, value@, old(table)@).0,
            final(table)@ == value_outcome(self.target, self.name@, value@, old(table)@).1,
    {
        let node = table.entry(self.target.dev, self.target.ino);
        node.xattrs.insert(self.name, value);
        Disposition::Skip(ExitAction::ForceRet(0))
    }
}

} // verus!
