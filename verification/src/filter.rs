//! The seccomp filter that narrows ptrace to just the syscalls that matter.
//!
//! Everything not in the trap set runs at full speed (`RET_ALLOW`); the trapped
//! syscalls return `RET_TRACE`, which delivers a `PTRACE_EVENT_SECCOMP` to the
//! supervisor. This is what makes faking cheap, and able to install itself with no
//! privileges under Docker's default seccomp (only `prctl` is needed).

use crate::arch::Arch;
use crate::bytes::decimal_text;
use crate::error::{Error, ErrorView};
use crate::handlers::registry::{
    classified, is_intercepted, law_intercepted_numbers, law_number_decodes,
    law_trapped_iff_handled, law_trapped_numbers_small, law_trapped_once, numbers_of, registry,
    trapped_syscalls, Syscall,
};
use seccompiler::{BpfProgram, SeccompAction, SeccompFilter, SeccompRule, TargetArch};
use std::collections::BTreeMap;
use vstd::prelude::*;
use vstd::std_specs::btree::*;

verus! {

broadcast use group_btree_axioms;

/// The verdict for a syscall of another architecture's ABI: kill the process.
pub const RET_KILL_PROCESS: u32 = 0x8000_0000;

/// The verdict that notifies the tracer.
pub const RET_TRACE: u32 = 0x7ff0_0000;

/// The verdict that lets a syscall run.
pub const RET_ALLOW: u32 = 0x7fff_0000;

/// The bits of a verdict that carry data.
pub const RET_DATA: u32 = 0xffff;

/// Where a filter finds the syscall number in its input.
pub const DATA_NR: u32 = 0;

/// Where a filter finds the architecture in its input.
pub const DATA_ARCH: u32 = 4;

/// Loads a word of the input.
pub const CODE_LOAD: u16 = 0x20;

/// Jumps by `k`.
pub const CODE_JUMP: u16 = 0x05;

/// Jumps by `jt` if the loaded word is `k`, by `jf` if it is not.
pub const CODE_JUMP_EQ: u16 = 0x15;

/// Ends the program with the verdict `k`.
pub const CODE_RETURN: u16 = 0x06;

/// No program may be as long as this.
pub const MAX_PROGRAM: usize = 4096;

/// What a filter does about a syscall.
#[derive(Clone, Copy, Debug, PartialEq, Eq, Structural)]
pub enum FilterAction {
    /// Let it run.
    Allow,
    /// Notify the tracer, with some data.
    Trace(u32),
}

impl FilterAction {
    /// The verdict that stands for the action.
    pub open spec fn verdict(self) -> u32 {
        match self {
            FilterAction::Allow => RET_ALLOW,
            FilterAction::Trace(data) => RET_TRACE | (data & RET_DATA),
        }
    }
}

/// The number by which a filter knows an architecture.
pub open spec fn audit_arch(arch: Arch) -> u32 {
    match arch {
        Arch::X86_64 => 0xc000_003e,
        Arch::Aarch64 => 0xc000_00b7,
        Arch::Riscv64 => 0xc000_00f3,
    }
}

/// One instruction of a filter program.
#[derive(Clone, Copy, Debug, PartialEq, Eq, Structural)]
pub struct Instruction {
    /// The operation.
    pub code: u16,
    /// The jump offset where a comparison holds.
    pub jt: u8,
    /// The jump offset where it does not hold.
    pub jf: u8,
    /// The operand.
    pub k: u32,
}

/// The verdict of a program on a syscall, from the instruction at `at` on, with a word
/// loaded. There is none where the program runs off its end or holds an operation
/// other than those above.
pub open spec fn verdict_from(
    program: Seq<Instruction>,
    at: int,
    word: u32,
    arch: u32,
    nr: u32,
) -> Option<u32>
    decreases
            (if at <= program.len() {
                program.len() - at
            } else {
                0
            }),
{
    if at < 0 || at >= program.len() {
        None
    } else {
        let next = program[at];
        if next.code == CODE_RETURN {
            Some(next.k)
        } else if next.code == CODE_LOAD && next.k == DATA_NR {
            verdict_from(program, at + 1, nr, arch, nr)
        } else if next.code == CODE_LOAD && next.k == DATA_ARCH {
            verdict_from(program, at + 1, arch, arch, nr)
        } else if next.code == CODE_JUMP {
            verdict_from(program, at + 1 + next.k, word, arch, nr)
        } else if next.code == CODE_JUMP_EQ {
            let offset = if word == next.k {
                next.jt
            } else {
                next.jf
            };
            verdict_from(program, at + 1 + offset, word, arch, nr)
        } else {
            None
        }
    }
}

/// The verdict of a program on a syscall.
pub open spec fn verdict(program: Seq<Instruction>, arch: u32, nr: u32) -> Option<u32> {
    verdict_from(program, 0, 0, arch, nr)
}

/// A `seccompiler::SeccompFilter`, whose contents [`filter_chains`] and
/// [`filter_settings`] name.
#[verifier::external_type_specification]
#[verifier::external_body]
pub struct ExSeccompFilter(seccompiler::SeccompFilter);

/// A `seccompiler::SeccompRule`: a rule of a chain. None is ever made here, so nothing is
/// said of it.
#[verifier::external_type_specification]
#[verifier::external_body]
pub struct ExSeccompRule(seccompiler::SeccompRule);

/// The syscall numbers that a filter has rules for, each with the length of its chain
/// of rules.
pub uninterp spec fn filter_chains(filter: SeccompFilter) -> Map<i64, nat>;

/// The settings that a filter was made with: the verdict on a syscall that it has no
/// rule for, the verdict on one that matches a rule, and the architecture's number.
pub uninterp spec fn filter_settings(filter: SeccompFilter) -> Seq<u32>;

/// The length of each chain in a table of rules.
pub open spec fn chain_lengths(rules: Map<i64, Vec<SeccompRule>>) -> Map<i64, nat> {
    rules.map_values(|chain: Vec<SeccompRule>| chain@.len())
}

/// Makes a filter with `seccompiler::SeccompFilter::new`. It holds the rules, the two
/// actions and the architecture that it is given. It is refused where the two actions
/// are the same, and for no other reason.
#[verifier::external_body]
fn new_filter(
    rules: BTreeMap<i64, Vec<SeccompRule>>,
    mismatch: FilterAction,
    matched: FilterAction,
    arch: Arch,
) -> (made: Result<SeccompFilter, String>)
    ensures
        match made {
            Ok(filter) => {
                &&& mismatch != matched
                &&& filter_chains(filter) == chain_lengths(rules@)
                &&& filter_settings(filter) == seq![
                    mismatch.verdict(),
                    matched.verdict(),
                    audit_arch(arch),
                ]
            },
            Err(text) => mismatch == matched && text@
                == "`match_action` and `mismatch_action` are equal."@,
        },
{
    let mismatch = match mismatch {
        FilterAction::Allow => SeccompAction::Allow,
        FilterAction::Trace(data) => SeccompAction::Trace(data),
    };
    let matched = match matched {
        FilterAction::Allow => SeccompAction::Allow,
        FilterAction::Trace(data) => SeccompAction::Trace(data),
    };
    let target = match arch {
        Arch::X86_64 => TargetArch::x86_64,
        Arch::Aarch64 => TargetArch::aarch64,
        Arch::Riscv64 => TargetArch::riscv64,
    };
    SeccompFilter::new(rules, mismatch, matched, target).map_err(|e| e.to_string())
}

/// The length of the program for a filter with empty chains only.
pub open spec fn program_len(numbers: Set<i64>) -> nat {
    if numbers.len() == 0 {
        4
    } else {
        5 * numbers.len() + 5
    }
}

/// What a filter with empty chains only decides about a syscall.
pub open spec fn decision(numbers: Set<i64>, settings: Seq<u32>, arch: u32, nr: u32) -> u32 {
    if arch != settings[2] {
        RET_KILL_PROCESS
    } else if numbers.contains(nr as i64) {
        settings[1]
    } else {
        settings[0]
    }
}

/// Compiles a filter with seccompiler's `TryFrom<SeccompFilter>` for `BpfProgram`. It
/// panics on a number that is no `u32`, and a chain of rules would go into the program
/// with its conditions, so each number has an empty chain here: it matches whatever
/// the arguments are. The program decides about every syscall as the filter says, and
/// is refused only where it would be too long. Which instructions it is made of is left
/// open; how many, and what they decide, is not.
#[verifier::external_body]
fn compile(filter: SeccompFilter) -> (compiled: Result<Vec<Instruction>, String>)
    requires
        forall|nr: i64| #[trigger]
            filter_chains(filter).contains_key(nr) ==> 0 <= nr <= u32::MAX && filter_chains(
                filter,
            )[nr] == 0,
    ensures
        match compiled {
            Ok(program) => {
                &&& program@.len() == program_len(filter_chains(filter).dom())
                &&& program@.len() < MAX_PROGRAM
                &&& forall|arch: u32, nr: u32| #[trigger]
                    verdict(program@, arch, nr) == Some(
                        decision(filter_chains(filter).dom(), filter_settings(filter), arch, nr),
                    )
            },
            Err(text) => {
                &&& program_len(filter_chains(filter).dom()) >= MAX_PROGRAM
                &&& text@ == "The seccomp filter contains too many BPF instructions: "@
                    + decimal_text(program_len(filter_chains(filter).dom()))
                    + ". Max length is 4096."@
            },
        },
{
    let program: Result<BpfProgram, seccompiler::BackendError> = filter.try_into();
    match program {
        Ok(program) => Ok(
            program.iter().map(
                |i| Instruction { code: i.code, jt: i.jt, jf: i.jf, k: i.k },
            ).collect(),
        ),
        Err(e) => Err(e.to_string()),
    }
}

/// An error that says what failed, and why.
fn failure(doing: &str, why: String) -> (error: Error)
    ensures
        error@ == ErrorView::Other(doing@ + why@),
{
    let mut text = doing.to_string();
    text.append(why.as_str());
    Error::Other(text)
}

/// What the filter decides about a syscall of `arch`: the syscalls that have a handler
/// go to the tracer, and all others run normally.
pub open spec fn filtered(arch: Arch, nr: u32) -> u32 {
    if classified(arch, nr as i64) is Some {
        RET_TRACE
    } else {
        RET_ALLOW
    }
}

/// Compiles the seccomp filter that traps the handlers' registry of syscalls with
/// `RET_TRACE` and lets everything else through. The trap set is derived from
/// [`trapped_syscalls`], so the filter and the dispatcher cannot drift apart.
pub fn build(arch: Arch) -> (built: Result<Vec<Instruction>, Error>)
    ensures
        built matches Ok(program) && {
            &&& program@.len() == 5 * numbers_of(registry(), arch).len() + 5
            &&& forall|number: u32, nr: u32| #[trigger]
                verdict(program@, number, nr) == Some(
                    if number == audit_arch(arch) {
                        filtered(arch, nr)
                    } else {
                        RET_KILL_PROCESS
                    },
                )
        },
{
    let numbers = trapped_syscalls(arch);
    let mut rules: BTreeMap<i64, Vec<SeccompRule>> = BTreeMap::new();
    let mut i: usize = 0;
    while i < numbers.len()
        invariant
            i <= numbers@.len(),
            rules@.dom() =~= numbers@.take(i as int).to_set(),
            forall|nr: i64| #[trigger] rules@.contains_key(nr) ==> rules@[nr]@.len() == 0,
        decreases numbers.len() - i,
    {
        rules.insert(numbers[i], Vec::new());
        proof {
            let done = numbers@.take(i as int);
            assert(numbers@.take(i + 1) =~= done.push(numbers@[i as int]));
            broadcast use vstd::seq_lib::group_seq_properties;
        }
        i += 1;
    }
    proof {
        assert(numbers@.take(i as int) =~= numbers@);
        law_trapped_once(arch);
        law_trapped_numbers_small(arch);
        law_number_decodes(arch, Syscall::Fstat);
        law_trapped_iff_handled(arch, Syscall::Fstat.number_on(arch)->0);
        numbers@.unique_seq_to_set();
        assert forall|nr: u32| #[trigger]
            numbers@.contains(nr as i64) == (classified(arch, nr as i64) is Some) by {
            law_trapped_iff_handled(arch, nr as i64);
        }
        assert(RET_TRACE | (0u32 & RET_DATA) == RET_TRACE) by (bit_vector);
    }
    let filter = match new_filter(rules, FilterAction::Allow, FilterAction::Trace(0), arch) {
        Ok(filter) => filter,
        Err(text) => {
            return Err(failure("building seccomp filter: ", text));
        },
    };
    assert(filter_chains(filter).dom() =~= numbers@.to_set());
    match compile(filter) {
        Ok(program) => Ok(program),
        Err(text) => Err(failure("compiling seccomp filter: ", text)),
    }
}

/// What the filter decides about a syscall, in the kernel's own codes: one that is
/// intercepted is traced with no data, and every other one is allowed.
pub proof fn law_filter_verdicts(arch: Arch, nr: u32)
    ensures
        filtered(arch, nr) == if is_intercepted(arch, nr as i64) {
            0x7ff0_0000u32
        } else {
            0x7fff_0000u32
        },
        audit_arch(Arch::X86_64) == 62 + 0xc000_0000,
        audit_arch(Arch::Aarch64) == 183 + 0xc000_0000,
        audit_arch(Arch::Riscv64) == 243 + 0xc000_0000,
{
    law_intercepted_numbers(arch, nr as i64);
}

} // verus!
