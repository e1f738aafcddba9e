//! What the extended-attribute syscalls do, from their registers to what is recorded,
//! written and returned, and what each gives back of another.

use super::action::{DispositionView, ExitActionView};
use super::exit::{
    exit_step, exit_table, joined, merged, merged_list, names_reply, EffectView, ExitStepView,
};
use super::laws::{are_names, law_name_list_round_trip, law_xattr_names_kept};
use super::outcome::{entry_outcome, World};
use super::registry::{law_number_decodes, Syscall};
use super::syscalls::{fd_file, path_file, returns_zero_unrun, same_but_for};
use crate::arch::{Arch, RegAccess};
use crate::error::ErrorView;
use crate::path::{RealStat, AT_FDCWD};
use crate::table::{node_at, TableView, XattrsView};
use vstd::prelude::*;

verus! {

/// Whether a number is one of three in a row: those of the plain variant of a syscall, of
/// the one that leaves a final symlink alone, and of the one that takes a descriptor.
pub open spec fn is_variant(arch: Arch, nr: i64, x86_64: i64, generic: i64) -> bool {
    match arch {
        Arch::X86_64 => x86_64 <= nr <= x86_64 + 2,
        _ => generic <= nr <= generic + 2,
    }
}

/// The file that the first argument of such a syscall names.
pub open spec fn attributed_file<R: RegAccess>(
    pid: i32,
    regs: R,
    world: World,
    x86_64: i64,
    generic: i64,
) -> Result<RealStat, ErrorView> {
    let variant = match R::abi() {
        Arch::X86_64 => regs.number() - x86_64,
        _ => regs.number() - generic,
    };
    if variant == 0 {
        path_file(pid, world, AT_FDCWD, regs.argument(0), true)
    } else if variant == 1 {
        path_file(pid, world, AT_FDCWD, regs.argument(0), false)
    } else {
        fd_file(pid, world, regs.argument(0) as i32)
    }
}

/// The value that a set takes from memory: as many bytes as its size says, but no more
/// than 65536.
pub open spec fn value_at(world: World, addr: u64, size: u64) -> Result<Seq<u8>, ErrorView> {
    if size == 0 {
        Ok(Seq::empty())
    } else if size <= 65536 {
        world.memory.read(addr, size as int)
    } else {
        world.memory.read(addr, 65536)
    }
}

/// Whether a table says of a file what another does, except for its attributes.
pub open spec fn only_attributes_differ(
    table: TableView,
    after: TableView,
    target: RealStat,
) -> bool {
    let then = node_at(table, target.dev, target.ino);
    let now = node_at(after, target.dev, target.ino);
    &&& same_but_for(table, after, target)
    &&& now.uid == then.uid
    &&& now.gid == then.gid
    &&& now.mode == then.mode
    &&& now.rdev == then.rdev
    &&& now.nlink == then.nlink
}

/// The attributes that a table has of a file.
pub open spec fn attributes(table: TableView, target: RealStat) -> XattrsView {
    node_at(table, target.dev, target.ino).xattrs
}

/// `setxattr(path, name, value, size, flags)`, `lsetxattr` and `fsetxattr` give the named
/// attribute of the file the value in memory, return 0 and never run. What cannot be read
/// or found ends the run with its error, and nothing is recorded then.
pub proof fn law_setxattr<R: RegAccess>(pid: i32, regs: R, world: World, table: TableView)
    requires
        is_variant(R::abi(), regs.number(), 188, 5),
    ensures
        ({
            let (decision, after) = entry_outcome(pid, regs, world, table);
            let failed = |e: ErrorView|
                decision == Err::<DispositionView, ErrorView>(e) && after == table;
            match attributed_file(pid, regs, world, 188, 5) {
                Err(e) => failed(e),
                Ok(target) => match world.memory.cstring(regs.argument(1)) {
                    Err(e) => failed(e),
                    Ok(name) => match value_at(world, regs.argument(2), regs.argument(3)) {
                        Err(e) => failed(e),
                        Ok(value) => {
                            let then = attributes(table, target);
                            let now = attributes(after, target);
                            &&& returns_zero_unrun(decision)
                            &&& only_attributes_differ(table, after, target)
                            &&& now.values == then.values.insert(name, value)
                            &&& now.names == if then.values.contains_key(name) {
                                then.names
                            } else {
                                then.names.push(name)
                            }
                        },
                    },
                },
            }
        }),
{
    law_number_decodes(R::abi(), Syscall::Setxattr);
    law_number_decodes(R::abi(), Syscall::Lsetxattr);
    law_number_decodes(R::abi(), Syscall::Fsetxattr);
}

/// Whether a syscall returns content in a buffer: the length where the size is 0, which
/// asks for it alone; the content, from the start of the buffer, and its length where it
/// fits; and else the error number 34 (`ERANGE`).
pub open spec fn returns_content(
    effects: Seq<EffectView>,
    value: Option<i64>,
    buf: u64,
    size: u64,
    content: Seq<u8>,
) -> bool {
    if size == 0 {
        effects == seq![EffectView::StoreRegs] && value == Some(content.len() as i64)
    } else if content.len() <= size {
        effects == seq![EffectView::Write { addr: buf, bytes: content }, EffectView::StoreRegs]
            && value == Some(content.len() as i64)
    } else {
        effects == seq![EffectView::StoreRegs] && value == Some((-34) as i64)
    }
}

/// `getxattr(path, name, value, size)`, `lgetxattr` and `fgetxattr` return a faked value
/// without the kernel, and leave an attribute that is not faked to it. Nothing is
/// recorded.
pub proof fn law_getxattr<R: RegAccess>(
    pid: i32,
    regs: R,
    world: World,
    table: TableView,
    ret: i64,
)
    requires
        is_variant(R::abi(), regs.number(), 191, 8),
    ensures
        ({
            let (decision, after) = entry_outcome(pid, regs, world, table);
            &&& after == table
            &&& match attributed_file(pid, regs, world, 191, 8) {
                Err(e) => decision == Err::<DispositionView, ErrorView>(e),
                Ok(target) => match world.memory.cstring(regs.argument(1)) {
                    Err(e) => decision == Err::<DispositionView, ErrorView>(e),
                    Ok(name) => if attributes(table, target).values.contains_key(name) {
                        &&& decision matches Ok(DispositionView::Skip(action))
                        &&& exit_step(action, ret).0 matches ExitStepView::Effects(effects)
                        &&& returns_content(
                            effects,
                            exit_step(action, ret).1,
                            regs.argument(2),
                            regs.argument(3),
                            attributes(table, target).values[name],
                        )
                        &&& exit_table(action, ret, table) == table
                    } else {
                        decision == Ok::<DispositionView, ErrorView>(DispositionView::Passthrough)
                    },
                },
            }
        }),
{
    law_number_decodes(R::abi(), Syscall::Getxattr);
    law_number_decodes(R::abi(), Syscall::Lgetxattr);
    law_number_decodes(R::abi(), Syscall::Fgetxattr);
}

/// `removexattr(path, name)`, `lremovexattr` and `fremovexattr` take the named attribute
/// of the file out, return 0 and never run.
pub proof fn law_removexattr<R: RegAccess>(pid: i32, regs: R, world: World, table: TableView)
    requires
        is_variant(R::abi(), regs.number(), 197, 14),
        attributed_file(pid, regs, world, 197, 14) matches Ok(target) ==> attributes(
            table,
            target,
        ).wf(),
    ensures
        ({
            let (decision, after) = entry_outcome(pid, regs, world, table);
            let failed = |e: ErrorView|
                decision == Err::<DispositionView, ErrorView>(e) && after == table;
            match attributed_file(pid, regs, world, 197, 14) {
                Err(e) => failed(e),
                Ok(target) => match world.memory.cstring(regs.argument(1)) {
                    Err(e) => failed(e),
                    Ok(name) => {
                        &&& returns_zero_unrun(decision)
                        &&& only_attributes_differ(table, after, target)
                        &&& attributes(after, target).wf()
                        &&& attributes(after, target).values == attributes(
                            table,
                            target,
                        ).values.remove(name)
                    },
                },
            }
        }),
{
    law_number_decodes(R::abi(), Syscall::Removexattr);
    law_number_decodes(R::abi(), Syscall::Lremovexattr);
    law_number_decodes(R::abi(), Syscall::Fremovexattr);
    if let Ok(target) = attributed_file(pid, regs, world, 197, 14) {
        if let Ok(name) = world.memory.cstring(regs.argument(1)) {
            law_xattr_names_kept(table, target, name, Seq::empty());
        }
    }
}

/// A list of names as listxattr gives it: each name with a NUL behind it.
pub open spec fn nul_list(names: Seq<Seq<u8>>) -> Seq<u8>
    decreases names.len(),
{
    if names.len() == 0 {
        Seq::empty()
    } else {
        nul_list(names.drop_last()) + names.last() + seq![0u8]
    }
}

proof fn lemma_joined_is_nul_list(names: Seq<Seq<u8>>)
    ensures
        joined(names) == nul_list(names),
    decreases names.len(),
{
    if names.len() > 0 {
        lemma_joined_is_nul_list(names.drop_last());
    }
    assert(joined(names) =~= nul_list(names));
}

/// Those of `extra` that are not among `names`, in their order.
pub open spec fn missing_from(names: Seq<Seq<u8>>, extra: Seq<Seq<u8>>) -> Seq<Seq<u8>> {
    extra.filter(|name: Seq<u8>| !names.contains(name))
}

proof fn lemma_merged_adds_missing(names: Seq<Seq<u8>>, extra: Seq<Seq<u8>>)
    requires
        extra.no_duplicates(),
    ensures
        merged(names, extra) == names + missing_from(names, extra),
    decreases extra.len(),
{
    reveal(Seq::filter);
    let absent = |name: Seq<u8>| !names.contains(name);
    if extra.len() == 0 {
        assert(missing_from(names, extra) =~= Seq::empty());
        assert(names + missing_from(names, extra) =~= names);
    } else {
        let fewer = extra.drop_last();
        let last = extra.last();
        assert(fewer.no_duplicates()) by {
            assert forall|i: int, j: int|
                0 <= i < fewer.len() && 0 <= j < fewer.len() && i != j implies fewer[i]
                != fewer[j] by {
                assert(extra[i] != extra[j]);
            }
        }
        lemma_merged_adds_missing(names, fewer);
        let before = names + missing_from(names, fewer);
        assert(before.contains(last) == names.contains(last)) by {
            if names.contains(last) {
                let i = choose|i: int| 0 <= i < names.len() && names[i] == last;
                assert(before[i] == last);
            }
            if before.contains(last) && !names.contains(last) {
                let i = choose|i: int| 0 <= i < before.len() && before[i] == last;
                let kept = missing_from(names, fewer);
                assert(kept[i - names.len()] == last);
                fewer.lemma_filter_contains_rev(absent, last);
                let k = choose|k: int| 0 <= k < fewer.len() && fewer[k] == last;
                assert(extra[k] == extra[extra.len() - 1]);
            }
        }
        assert(missing_from(names, extra) =~= if names.contains(last) {
            missing_from(names, fewer)
        } else {
            missing_from(names, fewer).push(last)
        });
        assert(merged(names, extra) =~= names + missing_from(names, extra));
    }
}

/// What an action does, and makes the syscall return, at an exit with return value `ret`,
/// where `list` are the bytes that are then read from memory, if any are.
pub open spec fn exit_reply(action: ExitActionView, ret: i64, list: Seq<u8>) -> (
    Seq<EffectView>,
    Option<i64>,
) {
    match exit_step(action, ret) {
        (ExitStepView::Effects(effects), value) => (effects, value),
        (ExitStepView::ReadNames { buf, len, size, extra }, _) => {
            let (effects, value) = names_reply(buf, size, extra, list);
            (effects, Some(value))
        },
        (ExitStepView::PatchStat { .. }, value) => (Seq::empty(), value),
    }
}

/// `listxattr(path, list, size)`, `llistxattr` and `flistxattr` run. Where attributes of
/// the file are faked, the list that is returned then holds the names that the kernel
/// listed (`kernel`; none where it listed none or failed) and behind them the faked names
/// that are not among those. Where the kernel listed some, they are read from the buffer,
/// as many bytes as it returned. Without faked attributes nothing is changed.
pub proof fn law_listxattr<R: RegAccess>(
    pid: i32,
    regs: R,
    world: World,
    table: TableView,
    ret: i64,
    kernel: Seq<Seq<u8>>,
)
    requires
        is_variant(R::abi(), regs.number(), 194, 11),
        attributed_file(pid, regs, world, 194, 11) matches Ok(target) ==> attributes(
            table,
            target,
        ).wf(),
        are_names(kernel),
        ret <= 0 ==> kernel.len() == 0,
    ensures
        ({
            let (decision, after) = entry_outcome(pid, regs, world, table);
            &&& after == table
            &&& match attributed_file(pid, regs, world, 194, 11) {
                Err(e) => decision == Err::<DispositionView, ErrorView>(e),
                Ok(target) => {
                    let faked = attributes(table, target).names;
                    if faked.len() == 0 {
                        decision == Ok::<DispositionView, ErrorView>(DispositionView::Passthrough)
                    } else {
                        &&& decision matches Ok(DispositionView::Step(action))
                        &&& exit_table(action, ret, table) == table
                        &&& ret > 0 ==> (exit_step(action, ret).0 matches ExitStepView::ReadNames {
                            buf,
                            len,
                            ..
                        } && buf == regs.argument(1) && len == ret)
                        &&& returns_content(
                            exit_reply(action, ret, nul_list(kernel)).0,
                            exit_reply(action, ret, nul_list(kernel)).1,
                            regs.argument(1),
                            regs.argument(2),
                            nul_list(kernel + missing_from(kernel, faked)),
                        )
                    }
                },
            }
        }),
{
    law_number_decodes(R::abi(), Syscall::Listxattr);
    law_number_decodes(R::abi(), Syscall::Llistxattr);
    law_number_decodes(R::abi(), Syscall::Flistxattr);
    if let Ok(target) = attributed_file(pid, regs, world, 194, 11) {
        let faked = attributes(table, target).names;
        let list = nul_list(kernel);
        lemma_joined_is_nul_list(kernel);
        law_name_list_round_trip(kernel);
        lemma_merged_adds_missing(kernel, faked);
        lemma_joined_is_nul_list(kernel + missing_from(kernel, faked));
        assert(merged_list(list, faked) == nul_list(kernel + missing_from(kernel, faked)));
        if kernel.len() == 0 {
            assert(kernel =~= Seq::empty());
            assert(list =~= Seq::empty());
        }
    }
}

/// What was set is got: after a set of an attribute, a get of the same attribute of the
/// same file returns the value that was in memory at the set, cut to 65536 bytes.
pub proof fn law_set_value_is_got<R: RegAccess>(
    pid: i32,
    set: R,
    set_world: World,
    get: R,
    get_world: World,
    table: TableView,
    target: RealStat,
    name: Seq<u8>,
    value: Seq<u8>,
    ret: i64,
)
    requires
        is_variant(R::abi(), set.number(), 188, 5),
        is_variant(R::abi(), get.number(), 191, 8),
        attributed_file(pid, set, set_world, 188, 5) == Ok::<RealStat, ErrorView>(target),
        attributed_file(pid, get, get_world, 191, 8) == Ok::<RealStat, ErrorView>(target),
        set_world.memory.cstring(set.argument(1)) == Ok::<Seq<u8>, ErrorView>(name),
        get_world.memory.cstring(get.argument(1)) == Ok::<Seq<u8>, ErrorView>(name),
        value_at(set_world, set.argument(2), set.argument(3)) == Ok::<Seq<u8>, ErrorView>(value),
    ensures
        ({
            let after = entry_outcome(pid, set, set_world, table).1;
            &&& entry_outcome(pid, get, get_world, after).0 matches Ok(
                DispositionView::Skip(action),
            )
            &&& returns_content(
                exit_reply(action, ret, Seq::empty()).0,
                exit_reply(action, ret, Seq::empty()).1,
                get.argument(2),
                get.argument(3),
                value,
            )
        }),
{
    law_setxattr(pid, set, set_world, table);
    law_getxattr(pid, get, get_world, entry_outcome(pid, set, set_world, table).1, ret);
}

/// What was set is listed: after a set of an attribute, a list of the same file returns
/// names among which its name is, and with it every name that the kernel listed, whatever
/// those are and whether or not the kernel's own list failed.
pub proof fn law_set_name_is_listed<R: RegAccess>(
    pid: i32,
    set: R,
    set_world: World,
    list: R,
    list_world: World,
    table: TableView,
    target: RealStat,
    name: Seq<u8>,
    ret: i64,
    kernel: Seq<Seq<u8>>,
)
    requires
        is_variant(R::abi(), set.number(), 188, 5),
        is_variant(R::abi(), list.number(), 194, 11),
        attributed_file(pid, set, set_world, 188, 5) == Ok::<RealStat, ErrorView>(target),
        attributed_file(pid, list, list_world, 194, 11) == Ok::<RealStat, ErrorView>(target),
        set_world.memory.cstring(set.argument(1)) == Ok::<Seq<u8>, ErrorView>(name),
        value_at(set_world, set.argument(2), set.argument(3)) is Ok,
        attributes(table, target).wf(),
        are_names(kernel),
        ret <= 0 ==> kernel.len() == 0,
    ensures
        ({
            let after = entry_outcome(pid, set, set_world, table).1;
            &&& entry_outcome(pid, list, list_world, after).0 matches Ok(
                DispositionView::Step(action),
            )
            &&& exists|names: Seq<Seq<u8>>|
                {
                    &&& names.contains(name)
                    &&& kernel.is_prefix_of(names)
                    &&& returns_content(
                        exit_reply(action, ret, nul_list(kernel)).0,
                        exit_reply(action, ret, nul_list(kernel)).1,
                        list.argument(1),
                        list.argument(2),
                        #[trigger] nul_list(names),
                    )
                }
        }),
{
    let after = entry_outcome(pid, set, set_world, table).1;
    let value = value_at(set_world, set.argument(2), set.argument(3))->Ok_0;
    law_setxattr(pid, set, set_world, table);
    law_xattr_names_kept(table, target, name, value);
    let faked = attributes(after, target);
    assert(faked == attributes(table, target).set(name, value));
    assert(faked.names.contains(name));
    law_listxattr(pid, list, list_world, after, ret, kernel);
    let names = kernel + missing_from(kernel, faked.names);
    assert(names.contains(name)) by {
        if kernel.contains(name) {
            let i = choose|i: int| 0 <= i < kernel.len() && kernel[i] == name;
            assert(names[i] == name);
        } else {
            let i = choose|i: int| 0 <= i < faked.names.len() && faked.names[i] == name;
            let absent = |n: Seq<u8>| !kernel.contains(n);
            faked.names.lemma_filter_contains(absent, i);
            let kept = missing_from(kernel, faked.names);
            let k = choose|k: int| 0 <= k < kept.len() && kept[k] == name;
            assert(names[kernel.len() + k] == name);
        }
    }
    assert(kernel.is_prefix_of(names));
}

} // verus!
