//! Applying what was decided about a syscall at its exit stop.
//!
//! [`apply_exit_action`] works on the tracee's registers and says what else has to be
//! done: memory to write and registers to store, in order, where the first failure ends
//! the handling. Some actions first need something from the tracee's memory.

use super::action::{ExitAction, ExitActionView};
use super::registry::StatKind;
use crate::arch::RegAccess;
use crate::bytes::{copy_bytes, holds, strings};
use crate::table::{OwnershipTable, TableView};
use vstd::prelude::*;

verus! {

/// The error number for a result that does not fit the buffer.
pub const ERANGE: i64 = 34;

/// Something to do to the tracee.
#[derive(Debug)]
pub enum Effect {
    /// Write bytes to its memory.
    Write { addr: u64, bytes: Vec<u8> },
    /// Store its registers.
    StoreRegs,
}

/// The mathematical value of an [`Effect`].
pub enum EffectView {
    Write { addr: u64, bytes: Seq<u8> },
    StoreRegs,
}

impl View for Effect {
    type V = EffectView;

    open spec fn view(&self) -> EffectView {
        match self {
            Effect::Write { addr, bytes } => EffectView::Write { addr: *addr, bytes: bytes@ },
            Effect::StoreRegs => EffectView::StoreRegs,
        }
    }
}

/// The mathematical values of a list of effects.
pub open spec fn effects(list: Seq<Effect>) -> Seq<EffectView> {
    Seq::new(list.len(), |i: int| list[i]@)
}

/// How far the handling of a syscall exit has come.
#[derive(Debug)]
pub enum ExitStep {
    /// These effects remain.
    Effects(Vec<Effect>),
    /// The stat buffer at `buf` has to be read, overlaid and written back.
    PatchStat { kind: StatKind, buf: u64 },
    /// The names that the kernel listed have to be read from the tracee's memory.
    ReadNames(NameList),
}

/// The names that the kernel listed: `len` bytes at `buf`, to be merged with others
/// into a buffer of `size` bytes.
#[derive(Debug)]
pub struct NameList {
    pub buf: u64,
    pub len: u64,
    pub size: u64,
    pub extra: Vec<Vec<u8>>,
}

/// The mathematical value of an [`ExitStep`].
pub enum ExitStepView {
    Effects(Seq<EffectView>),
    PatchStat { kind: StatKind, buf: u64 },
    ReadNames { buf: u64, len: u64, size: u64, extra: Seq<Seq<u8>> },
}

impl View for ExitStep {
    type V = ExitStepView;

    open spec fn view(&self) -> ExitStepView {
        match self {
            ExitStep::Effects(list) => ExitStepView::Effects(effects(list@)),
            ExitStep::PatchStat { kind, buf } => ExitStepView::PatchStat { kind: *kind, buf: *buf },
            ExitStep::ReadNames(list) => ExitStepView::ReadNames {
                buf: list.buf,
                len: list.len,
                size: list.size,
                extra: strings(list.extra@),
            },
        }
    }
}

/// The return value for content that goes into a buffer of `size` bytes. A size of 0
/// asks for the length only.
pub open spec fn reply_value(size: u64, content: Seq<u8>) -> i64 {
    if size == 0 || content.len() <= size {
        content.len() as i64
    } else {
        (-ERANGE) as i64
    }
}

/// What is done to return content in a buffer of `size` bytes.
pub open spec fn reply_effects(buf: u64, size: u64, content: Seq<u8>) -> Seq<EffectView> {
    if size != 0 && content.len() <= size {
        seq![EffectView::Write { addr: buf, bytes: content }, EffectView::StoreRegs]
    } else {
        seq![EffectView::StoreRegs]
    }
}

/// The writes that zero the ids behind those pointers that are not null.
pub open spec fn zero_ids(ptrs: Seq<u64>) -> Seq<EffectView>
    decreases ptrs.len(),
{
    if ptrs.len() == 0 {
        Seq::empty()
    } else if ptrs.last() == 0 {
        zero_ids(ptrs.drop_last())
    } else {
        zero_ids(ptrs.drop_last()).push(
            EffectView::Write { addr: ptrs.last(), bytes: seq![0u8, 0u8, 0u8, 0u8] },
        )
    }
}

/// The names in a list of NUL-terminated names. Empty ones do not count.
pub open spec fn names_in(list: Seq<u8>) -> Seq<Seq<u8>>
    decreases list.len(),
{
    if list.len() == 0 {
        Seq::empty()
    } else {
        let before = names_in(list.drop_last());
        let open = open_name(list.drop_last());
        if list.last() == 0 && open.len() > 0 {
            before.push(open)
        } else {
            before
        }
    }
}

/// What follows the last NUL of a list of names.
pub open spec fn open_name(list: Seq<u8>) -> Seq<u8>
    decreases list.len(),
{
    if list.len() == 0 || list.last() == 0 {
        Seq::empty()
    } else {
        open_name(list.drop_last()).push(list.last())
    }
}

/// All names in a list of names, with one at its end that lacks its NUL.
pub open spec fn listed_names(list: Seq<u8>) -> Seq<Seq<u8>> {
    if open_name(list).len() > 0 {
        names_in(list).push(open_name(list))
    } else {
        names_in(list)
    }
}

/// `names` with those of `extra` behind them that do not occur yet.
pub open spec fn merged(names: Seq<Seq<u8>>, extra: Seq<Seq<u8>>) -> Seq<Seq<u8>>
    decreases extra.len(),
{
    if extra.len() == 0 {
        names
    } else {
        let before = merged(names, extra.drop_last());
        if before.contains(extra.last()) {
            before
        } else {
            before.push(extra.last())
        }
    }
}

/// A list of NUL-terminated names.
pub open spec fn joined(names: Seq<Seq<u8>>) -> Seq<u8>
    decreases names.len(),
{
    if names.len() == 0 {
        Seq::empty()
    } else {
        joined(names.drop_last()) + names.last().push(0u8)
    }
}

/// The merged list of the names in `list` and those in `extra`.
pub open spec fn merged_list(list: Seq<u8>, extra: Seq<Seq<u8>>) -> Seq<u8> {
    joined(merged(listed_names(list), extra))
}

/// The step that an action at a syscall exit with return value `ret` leads to, and the
/// return value that it forces, where it forces one.
pub open spec fn exit_step(action: ExitActionView, ret: i64) -> (ExitStepView, Option<i64>) {
    let nothing = ExitStepView::Effects(Seq::empty());
    match action {
        ExitActionView::PatchStat { kind, buf } => (
            if ret == 0 {
                ExitStepView::PatchStat { kind, buf }
            } else {
                nothing
            },
            None,
        ),
        ExitActionView::ForceRet(value) => (
            ExitStepView::Effects(seq![EffectView::StoreRegs]),
            Some(value),
        ),
        ExitActionView::ZeroOnErr => if ret < 0 {
            (ExitStepView::Effects(seq![EffectView::StoreRegs]), Some(0))
        } else {
            (nothing, None)
        },
        ExitActionView::WriteResId { ptrs } => (
            ExitStepView::Effects(zero_ids(ptrs).push(EffectView::StoreRegs)),
            Some(0),
        ),
        ExitActionView::ReturnXattr { buf, size, value } => (
            ExitStepView::Effects(reply_effects(buf, size, value)),
            Some(reply_value(size, value)),
        ),
        ExitActionView::MergeXattrList { buf, size, extra } => if ret > 0 {
            (ExitStepView::ReadNames { buf, len: ret as u64, size, extra }, None)
        } else {
            let list = merged_list(Seq::empty(), extra);
            (ExitStepView::Effects(reply_effects(buf, size, list)), Some(reply_value(size, list)))
        },
        ExitActionView::UnlinkCommit { .. } => (nothing, None),
    }
}

/// What is done, and returned, once the names that the kernel listed are known.
pub open spec fn names_reply(buf: u64, size: u64, extra: Seq<Seq<u8>>, list: Seq<u8>) -> (
    Seq<EffectView>,
    i64,
) {
    let content = merged_list(list, extra);
    (reply_effects(buf, size, content), reply_value(size, content))
}

/// The table after an action at a syscall exit with return value `ret`: a record is
/// dropped once the last name of its inode has been removed. An inode that had other
/// names keeps its record.
pub open spec fn exit_table(action: ExitActionView, ret: i64, table: TableView) -> TableView {
    match action {
        ExitActionView::UnlinkCommit { dev, ino, nlink_before } => if ret == 0 && nlink_before
            <= 1 {
            table.remove((dev, ino))
        } else {
            table
        },
        _ => table,
    }
}

/// Whether `after` is `before` with the return value forced, where one is.
pub open spec fn forced<R: RegAccess>(before: R, after: R, value: Option<i64>) -> bool {
    match value {
        Some(value) => {
            &&& R::answered(before, value, after)
            &&& after.returned() == value
            &&& after.number() == before.number()
            &&& forall|i: int| 1 <= i <= 5 ==> #[trigger] after.argument(i) == before.argument(i)
        },
        None => after == before,
    }
}

/// Returns content in a buffer of `size` bytes.
fn reply<R: RegAccess>(buf: u64, size: u64, content: Vec<u8>, regs: &mut R) -> (list: Vec<Effect>)
    ensures
        effects(list@) == reply_effects(buf, size, content@),
        forced(*old(regs), *final(regs), Some(reply_value(size, content@))),
{
    let mut list: Vec<Effect> = Vec::new();
    let len: usize = content.len();
    if size == 0 {
        regs.set_ret(len as i64);
    } else if len as u64 <= size {
        list.push(Effect::Write { addr: buf, bytes: content });
        regs.set_ret(len as i64);
    } else {
        regs.set_ret(-ERANGE);
    }
    list.push(Effect::StoreRegs);
    assert(effects(list@) =~= reply_effects(buf, size, content@));
    list
}

/// The writes that zero the ids behind those pointers that are not null.
fn write_res_ids(ptrs: &[u64; 3]) -> (list: Vec<Effect>)
    ensures
        effects(list@) == zero_ids(ptrs@),
{
    let mut list: Vec<Effect> = Vec::new();
    let mut i: usize = 0;
    assert(effects(list@) =~= zero_ids(ptrs@.take(0)));
    while i < 3
        invariant
            i <= 3,
            effects(list@) == zero_ids(ptrs@.take(i as int)),
        decreases 3 - i,
    {
        let ghost taken = ptrs@.take(i + 1);
        let ghost before = list@;
        assert(taken.drop_last() =~= ptrs@.take(i as int));
        if ptrs[i] != 0 {
            let bytes: Vec<u8> = vec![0u8, 0u8, 0u8, 0u8];
            assert(bytes@ =~= seq![0u8, 0u8, 0u8, 0u8]);
            list.push(Effect::Write { addr: ptrs[i], bytes });
            assert(effects(list@) =~= effects(before).push(list@.last()@));
        }
        i = i + 1;
    }
    assert(ptrs@.take(3) =~= ptrs@);
    list
}

/// Splits a list of NUL-terminated names.
fn split_names(list: &[u8]) -> (names: Vec<Vec<u8>>)
    ensures
        strings(names@) == listed_names(list@),
{
    let mut names: Vec<Vec<u8>> = Vec::new();
    let mut open: Vec<u8> = Vec::new();
    let mut i: usize = 0;
    assert(strings(names@) =~= names_in(list@.take(0)));
    while i < list.len()
        invariant
            i <= list@.len(),
            strings(names@) == names_in(list@.take(i as int)),
            open@ == open_name(list@.take(i as int)),
        decreases list@.len() - i,
    {
        let ghost taken = list@.take(i + 1);
        let ghost before = names@;
        assert(taken.drop_last() =~= list@.take(i as int));
        if list[i] == 0 {
            if open.len() > 0 {
                names.push(open);
                assert(strings(names@) =~= strings(before).push(open@));
            }
            open = Vec::new();
        } else {
            open.push(list[i]);
        }
        i = i + 1;
    }
    assert(list@.take(i as int) =~= list@);
    if open.len() > 0 {
        let ghost before = names@;
        names.push(open);
        assert(strings(names@) =~= strings(before).push(open@));
    }
    names
}

/// Merges the names that the kernel listed with others into one list.
fn merge_names(list: &[u8], extra: &Vec<Vec<u8>>) -> (blob: Vec<u8>)
    ensures
        blob@ == merged_list(list@, strings(extra@)),
{
    let mut names: Vec<Vec<u8>> = split_names(list);
    let ghost real_names = strings(names@);
    let ghost more = strings(extra@);
    let mut i: usize = 0;
    assert(more.take(0) =~= Seq::empty());
    while i < extra.len()
        invariant
            i <= extra@.len(),
            more == strings(extra@),
            strings(names@) == merged(real_names, more.take(i as int)),
        decreases extra@.len() - i,
    {
        let ghost taken = more.take(i + 1);
        let ghost before = names@;
        assert(taken.drop_last() =~= more.take(i as int));
        assert(taken.last() == extra@[i as int]@);
        if !holds(&names, extra[i].as_slice()) {
            names.push(copy_bytes(extra[i].as_slice()));
            assert(strings(names@) =~= strings(before).push(extra@[i as int]@));
        }
        i = i + 1;
    }
    assert(more.take(i as int) =~= more);
    let ghost all = strings(names@);
    let mut blob: Vec<u8> = Vec::new();
    let mut k: usize = 0;
    assert(blob@ =~= joined(all.take(0)));
    while k < names.len()
        invariant
            k <= names@.len(),
            all == strings(names@),
            blob@ == joined(all.take(k as int)),
        decreases names@.len() - k,
    {
        let ghost taken = all.take(k + 1);
        assert(taken.drop_last() =~= all.take(k as int));
        assert(taken.last() == names@[k as int]@);
        let ghost before = blob@;
        blob.extend_from_slice(names[k].as_slice());
        blob.push(0);
        assert(blob@ =~= before + names@[k as int]@.push(0u8));
        k = k + 1;
    }
    assert(all.take(k as int) =~= all);
    blob
}

/// Applies an action at a syscall-exit stop.
pub fn apply_exit_action<R: RegAccess>(
    table: &mut OwnershipTable,
    action: ExitAction,
    regs: &mut R,
) -> (step: ExitStep)
    ensures
        step@ == exit_step(action@, old(regs).returned()).0,
        forced(*old(regs), *final(regs), exit_step(action@, old(regs).returned()).1),
        final(table)@ == exit_table(action@, old(regs).returned(), old(table)@),
{
    match action {
        ExitAction::PatchStat { kind, buf } => {
            if regs.ret() == 0 {
                return ExitStep::PatchStat { kind, buf };
            }
            nothing_to_do()
        },
        ExitAction::ForceRet(value) => {
            regs.set_ret(value);
            store_only()
        },
        ExitAction::ZeroOnErr => {
            if regs.ret() < 0 {
                regs.set_ret(0);
                return store_only();
            }
            nothing_to_do()
        },
        ExitAction::WriteResId { ptrs } => {
            let mut list = write_res_ids(&ptrs);
            let ghost before = list@;
            list.push(Effect::StoreRegs);
            assert(effects(list@) =~= effects(before).push(EffectView::StoreRegs));
            regs.set_ret(0);
            ExitStep::Effects(list)
        },
        ExitAction::ReturnXattr { buf, size, value } => ExitStep::Effects(
            reply(buf, size, value, regs),
        ),
        ExitAction::MergeXattrList { buf, size, extra } => {
            let ret: i64 = regs.ret();
            if ret > 0 {
                return ExitStep::ReadNames(NameList { buf, len: ret as u64, size, extra });
            }
            let none: Vec<u8> = Vec::new();
            assert(none@ =~= Seq::empty());
            let list = merge_names(none.as_slice(), &extra);
            ExitStep::Effects(reply(buf, size, list, regs))
        },
        ExitAction::UnlinkCommit { dev, ino, nlink_before } => {
            if regs.ret() == 0 && nlink_before <= 1 {
                table.remove(dev, ino);
            }
            nothing_to_do()
        },
    }
}

fn nothing_to_do() -> (step: ExitStep)
    ensures
        step@ == ExitStepView::Effects(Seq::empty()),
{
    let list: Vec<Effect> = Vec::new();
    assert(effects(list@) =~= Seq::empty());
    ExitStep::Effects(list)
}

fn store_only() -> (step: ExitStep)
    ensures
        step@ == ExitStepView::Effects(seq![EffectView::StoreRegs]),
{
    let list: Vec<Effect> = vec![Effect::StoreRegs];
    assert(effects(list@) =~= seq![EffectView::StoreRegs]);
    ExitStep::Effects(list)
}

impl NameList {
    /// Goes on with the list that the kernel wrote.
    pub fn supply<R: RegAccess>(self, list: &[u8], regs: &mut R) -> (remaining: Vec<Effect>)
        ensures
            effects(remaining@) == names_reply(
                self.buf,
                self.size,
                strings(self.extra@),
                list@,
            ).0,
            forced(
                *old(regs),
                *final(regs),
                Some(names_reply(self.buf, self.size, strings(self.extra@), list@).1),
            ),
    {
        let blob = merge_names(list, &self.extra);
        reply(self.buf, self.size, blob, regs)
    }
}

} // verus!
