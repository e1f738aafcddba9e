//! What handling a syscall entry comes to, once everything that is asked for has been
//! answered.
//!
//! [`entry_outcome`] says it directly, given what the tracee's memory holds and what
//! each lookup finds. [`run`] goes through the steps of [`super::entry`] one after the
//! other, and [`law_steps_reach_outcome`] is that both agree.

use super::action::DispositionView;
use super::entry::{
    cleanup, entry, locating_step, same_inode, step_after_create, step_after_name_chunk,
    step_after_path_chunk, step_after_stat, step_at_name, step_at_path, step_at_target,
    step_without_path, value_outcome, EntryStepView,
};
use super::plan::{planned, Lookup, PlanView, Purpose, XattrOp};
use super::registry::decoded;
use crate::arch::RegAccess;
use crate::error::ErrorView;
use crate::mem::{chunk_len, Memory, ScanView, PATH_MAX};
use crate::path::{follows, is_descriptor, resolved, target_query, RealStat};
use crate::table::TableView;
use vstd::prelude::*;

verus! {

/// What the outside answers: the tracee's memory, and what a `stat` (with `true`) or an
/// `lstat` (with `false`) of a path finds.
pub struct World {
    pub memory: Memory,
    pub stat: spec_fn(Seq<u8>, bool) -> Result<RealStat, ErrorView>,
}

/// What handling a syscall entry comes to: the decision or the error, and the table.
pub type Outcome = (Result<DispositionView, ErrorView>, TableView);

/// The path of a target, as the tracee wrote it.
pub open spec fn target_path(at: Lookup, world: World) -> Result<Seq<u8>, ErrorView> {
    match at.path {
        Some(addr) => world.memory.cstring(addr),
        None => Ok(Seq::empty()),
    }
}

/// Whether a lookup follows a final symlink. The placeholder of a mknod is looked up
/// with links followed.
pub open spec fn looks_through(at: Lookup, to: Purpose, path: Seq<u8>) -> bool {
    to is Mknod || follows(at.nofollow, is_descriptor(path, at.empty))
}

/// The file that has a name, where it can be read and looked up.
pub open spec fn found(pid: i32, at: Lookup, world: World) -> Option<RealStat> {
    match target_path(at, world) {
        Err(_) => None,
        Ok(path) => {
            let (full, follow) = target_query(pid, at.dirfd, path, at.nofollow, at.empty);
            match (world.stat)(full, follow) {
                Err(_) => None,
                Ok(file) => Some(file),
            }
        },
    }
}

/// What becomes of a rename onto a file that exists: the record of that file is cleaned
/// up, unless the old name is found to be one of its own.
pub open spec fn rename_outcome(
    pid: i32,
    from: Lookup,
    onto: RealStat,
    world: World,
) -> DispositionView {
    match found(pid, from, world) {
        Some(old) if same_inode(old, onto) => DispositionView::Passthrough,
        _ => cleanup(onto),
    }
}

/// What a syscall comes to where its target cannot be named or found.
pub open spec fn missing_outcome(to: Purpose, e: ErrorView, table: TableView) -> Outcome {
    match to {
        Purpose::Replace { onto } => (Ok(cleanup(onto)), table),
        _ => (Err(e), table),
    }
}

/// What an operation on the named attribute of a target comes to.
pub open spec fn name_outcome(
    target: RealStat,
    op: XattrOp,
    name: Seq<u8>,
    world: World,
    table: TableView,
) -> Outcome {
    match step_at_name(target, op, name, table) {
        (EntryStepView::Decided(disposition), after) => (Ok(disposition), after),
        (EntryStepView::ReadValue { target, name, addr, len }, after) => match world.memory.read(
            addr,
            len,
        ) {
            Err(e) => (Err(e), after),
            Ok(value) => {
                let (disposition, kept) = value_outcome(target, name, value, after);
                (Ok(disposition), kept)
            },
        },
        _ => arbitrary(),
    }
}

/// What a syscall comes to once its target is known.
pub open spec fn target_outcome(
    pid: i32,
    to: Purpose,
    target: RealStat,
    world: World,
    table: TableView,
) -> Outcome {
    match to {
        Purpose::Xattr { name, op } => match world.memory.cstring(name) {
            Err(e) => (Err(e), table),
            Ok(name) => name_outcome(target, op, name, world, table),
        },
        Purpose::Rename { from } => (Ok(rename_outcome(pid, from, target, world)), table),
        _ => match step_at_target(pid, to, target, table) {
            (EntryStepView::Decided(disposition), after) => (Ok(disposition), after),
            _ => arbitrary(),
        },
    }
}

/// What a syscall comes to once the path that it is about is known.
pub open spec fn path_outcome(
    pid: i32,
    to: Purpose,
    path: Seq<u8>,
    follow: bool,
    world: World,
    table: TableView,
) -> Outcome {
    match (world.stat)(path, follow) {
        Ok(target) => target_outcome(pid, to, target, world, table),
        Err(e) => match to {
            Purpose::Unlink | Purpose::Rename { .. } => (Ok(DispositionView::Passthrough), table),
            _ => missing_outcome(to, e, table),
        },
    }
}

/// What a plan comes to: the target's path is read and resolved, the file looked up,
/// and the purpose carried out.
pub open spec fn plan_outcome(pid: i32, plan: PlanView, world: World, table: TableView) -> Outcome {
    match plan {
        PlanView::Decided(disposition) => (Ok(disposition), table),
        PlanView::Locate(at, to) => match target_path(at, world) {
            Err(e) => missing_outcome(to, e, table),
            Ok(path) => path_outcome(
                pid,
                to,
                resolved(pid, at.dirfd, path, at.empty),
                looks_through(at, to, path),
                world,
                table,
            ),
        },
    }
}

/// What a syscall entry comes to.
pub open spec fn entry_outcome<R: RegAccess>(
    pid: i32,
    regs: R,
    world: World,
    table: TableView,
) -> Outcome {
    match decoded(R::abi(), regs.number()) {
        None => (Ok(DispositionView::Passthrough), table),
        Some(call) => plan_outcome(pid, planned(call, regs), world, table),
    }
}

/// How many kinds of steps may still follow a step.
pub open spec fn stage(step: EntryStepView) -> nat {
    match step {
        EntryStepView::Decided(_) => 0,
        EntryStepView::ReadValue { .. } => 1,
        EntryStepView::Stat { to: Purpose::Replace { .. }, .. } => 1,
        EntryStepView::ReadPath { to: Purpose::Replace { .. }, .. } => 2,
        EntryStepView::ReadName { .. } => 2,
        EntryStepView::Stat { .. } => 3,
        EntryStepView::Create { .. } => 4,
        EntryStepView::ReadPath { .. } => 5,
    }
}

/// How much of a string may still be read in a step.
pub open spec fn unread(step: EntryStepView) -> int {
    match step {
        EntryStepView::ReadName { scan, .. } => PATH_MAX + 1 - scan.text.len(),
        EntryStepView::ReadPath { scan, .. } => PATH_MAX + 1 - scan.text.len(),
        _ => 0,
    }
}

/// Goes through the steps from `step` on, answering each request from `world`.
pub open spec fn run(step: EntryStepView, world: World, table: TableView) -> Outcome
    decreases stage(step), unread(step),
{
    match step {
        EntryStepView::Decided(disposition) => (Ok(disposition), table),
        EntryStepView::ReadPath { pid, at, to, scan } => match world.memory.read(
            scan.addr,
            chunk_len(scan.addr),
        ) {
            Err(e) => match step_without_path(to, e) {
                Err(e) => (Err(e), table),
                Ok(next) => run(next, world, table),
            },
            Ok(chunk) => match step_after_path_chunk(pid, at, to, scan, chunk) {
                Err(e) => (Err(e), table),
                Ok(next) => run(next, world, table),
            },
        },
        EntryStepView::Create { pid, path, to } => run(
            step_after_create(pid, path, to),
            world,
            table,
        ),
        EntryStepView::Stat { pid, path, follow, to } => match step_after_stat(
            pid,
            to,
            (world.stat)(path, follow),
            table,
        ) {
            (Err(e), after) => (Err(e), after),
            (Ok(next), after) => run(next, world, after),
        },
        EntryStepView::ReadName { target, op, scan } => match world.memory.read(
            scan.addr,
            chunk_len(scan.addr),
        ) {
            Err(e) => (Err(e), table),
            Ok(chunk) => match step_after_name_chunk(target, op, scan, chunk, table) {
                (Err(e), after) => (Err(e), after),
                (Ok(next), after) => run(next, world, after),
            },
        },
        EntryStepView::ReadValue { target, name, addr, len } => match world.memory.read(
            addr,
            len,
        ) {
            Err(e) => (Err(e), table),
            Ok(value) => {
                let (disposition, kept) = value_outcome(target, name, value, table);
                (Ok(disposition), kept)
            },
        },
    }
}

proof fn lemma_run_name(
    target: RealStat,
    op: XattrOp,
    scan: ScanView,
    world: World,
    table: TableView,
)
    requires
        scan.text.len() <= PATH_MAX,
    ensures
        run(EntryStepView::ReadName { target, op, scan }, world, table)
            == match world.memory.scan(scan) {
            Err(e) => (Err(e), table),
            Ok(name) => name_outcome(target, op, name, world, table),
        },
    decreases PATH_MAX + 1 - scan.text.len(),
{
    reveal_with_fuel(run, 3);
    match world.memory.read(scan.addr, chunk_len(scan.addr)) {
        Err(e) => {},
        Ok(chunk) => match scan.fed(chunk) {
            Ok(crate::mem::ScanStepView::More(next)) => {
                lemma_run_name(target, op, next, world, table);
            },
            _ => {},
        },
    }
}

/// How many more files a purpose may look for.
spec fn lookups(to: Purpose) -> nat {
    if to is Rename {
        1
    } else {
        0
    }
}

proof fn lemma_run_stat(
    pid: i32,
    to: Purpose,
    path: Seq<u8>,
    follow: bool,
    world: World,
    table: TableView,
)
    ensures
        run(EntryStepView::Stat { pid, path, follow, to }, world, table) == path_outcome(
            pid,
            to,
            path,
            follow,
            world,
            table,
        ),
    decreases lookups(to), 0nat, 0int,
{
    reveal_with_fuel(run, 2);
    match ((world.stat)(path, follow), to) {
        (Ok(target), Purpose::Xattr { name, op }) => {
            lemma_run_name(target, op, ScanView::at(name), world, table);
        },
        (Ok(target), Purpose::Rename { from }) => {
            lemma_run_locating(pid, from, Purpose::Replace { onto: target }, world, table);
        },
        _ => {},
    }
}

proof fn lemma_run_at_path(
    pid: i32,
    at: Lookup,
    to: Purpose,
    path: Seq<u8>,
    world: World,
    table: TableView,
)
    ensures
        run(step_at_path(pid, at, to, path), world, table) == path_outcome(
            pid,
            to,
            resolved(pid, at.dirfd, path, at.empty),
            looks_through(at, to, path),
            world,
            table,
        ),
    decreases lookups(to), 1nat, 0int,
{
    let full = resolved(pid, at.dirfd, path, at.empty);
    lemma_run_stat(pid, to, full, looks_through(at, to, path), world, table);
}

proof fn lemma_run_path(
    pid: i32,
    at: Lookup,
    to: Purpose,
    scan: ScanView,
    world: World,
    table: TableView,
)
    requires
        scan.text.len() <= PATH_MAX,
    ensures
        run(EntryStepView::ReadPath { pid, at, to, scan }, world, table)
            == match world.memory.scan(scan) {
            Err(e) => missing_outcome(to, e, table),
            Ok(path) => path_outcome(
                pid,
                to,
                resolved(pid, at.dirfd, path, at.empty),
                looks_through(at, to, path),
                world,
                table,
            ),
        },
    decreases lookups(to), 2nat, PATH_MAX + 1 - scan.text.len(),
{
    reveal_with_fuel(run, 2);
    match world.memory.read(scan.addr, chunk_len(scan.addr)) {
        Err(e) => {},
        Ok(chunk) => match scan.fed(chunk) {
            Ok(crate::mem::ScanStepView::More(next)) => {
                lemma_run_path(pid, at, to, next, world, table);
            },
            Ok(crate::mem::ScanStepView::Whole(path)) => {
                lemma_run_at_path(pid, at, to, path, world, table);
            },
            Err(e) => {},
        },
    }
}

proof fn lemma_run_locating(
    pid: i32,
    at: Lookup,
    to: Purpose,
    world: World,
    table: TableView,
)
    ensures
        run(locating_step(pid, at, to), world, table) == plan_outcome(
            pid,
            PlanView::Locate(at, to),
            world,
            table,
        ),
    decreases lookups(to), 3nat, 0int,
{
    match at.path {
        Some(addr) => {
            lemma_run_path(pid, at, to, ScanView::at(addr), world, table);
        },
        None => {
            lemma_run_at_path(pid, at, to, Seq::empty(), world, table);
        },
    }
}

/// Going through the steps of handling a syscall entry, and answering each request as
/// it comes, leads to the outcome that the registers, the tracee's memory, the files
/// and the table determine.
pub proof fn law_steps_reach_outcome<R: RegAccess>(
    pid: i32,
    regs: R,
    world: World,
    table: TableView,
)
    ensures
        run(entry(pid, regs), world, table) == entry_outcome(pid, regs, world, table),
{
    match decoded(R::abi(), regs.number()) {
        None => {},
        Some(call) => match planned(call, regs) {
            PlanView::Decided(disposition) => {},
            PlanView::Locate(at, to) => {
                lemma_run_locating(pid, at, to, world, table);
            },
        },
    }
}

} // verus!
