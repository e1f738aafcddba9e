//! The compiled seccomp filter, run on syscalls.

use fakeroost::arch::Arch;
use fakeroost::filter::{
    build, Instruction, CODE_JUMP, CODE_JUMP_EQ, CODE_LOAD, CODE_RETURN, DATA_ARCH, DATA_NR,
    RET_ALLOW, RET_KILL_PROCESS, RET_TRACE,
};
use fakeroost::handlers::registry::{classify, trapped_syscalls};

fn verdict(program: &[Instruction], arch: u32, nr: u32) -> Option<u32> {
    let mut at = 0;
    let mut word = 0;
    while at < program.len() {
        let next = program[at];
        at += 1;
        if next.code == CODE_RETURN {
            return Some(next.k);
        } else if next.code == CODE_LOAD && next.k == DATA_NR {
            word = nr;
        } else if next.code == CODE_LOAD && next.k == DATA_ARCH {
            word = arch;
        } else if next.code == CODE_JUMP {
            at += next.k as usize;
        } else if next.code == CODE_JUMP_EQ {
            at += if word == next.k { next.jt } else { next.jf } as usize;
        } else {
            return None;
        }
    }
    None
}

fn audit(arch: Arch) -> u32 {
    match arch {
        Arch::X86_64 => 0xc000_003e,
        Arch::Aarch64 => 0xc000_00b7,
        Arch::Riscv64 => 0xc000_00f3,
    }
}

#[test]
fn filter_traces_handled_syscalls_and_allows_all_others() {
    for arch in [Arch::X86_64, Arch::Aarch64, Arch::Riscv64] {
        let program = build(arch).unwrap();
        assert_eq!(program.len(), 5 * trapped_syscalls(arch).len() + 5);
        for nr in 0..700 {
            let expected = if classify(arch, nr).is_some() {
                RET_TRACE
            } else {
                RET_ALLOW
            };
            assert_eq!(verdict(&program, audit(arch), nr as u32), Some(expected));
        }
        assert_eq!(verdict(&program, audit(arch), u32::MAX), Some(RET_ALLOW));
    }
}

#[test]
fn filter_kills_syscalls_of_another_architecture() {
    let program = build(Arch::X86_64).unwrap();
    let other = audit(Arch::Aarch64);
    assert_eq!(verdict(&program, other, 0), Some(RET_KILL_PROCESS));
    assert_eq!(
        verdict(&program, other, libc::SYS_chown as u32),
        Some(RET_KILL_PROCESS)
    );
}

#[test]
fn filter_verdicts_are_those_of_the_platform() {
    assert_eq!(RET_ALLOW, libc::SECCOMP_RET_ALLOW);
    assert_eq!(RET_TRACE, libc::SECCOMP_RET_TRACE);
    assert_eq!(RET_KILL_PROCESS, libc::SECCOMP_RET_KILL_PROCESS);
}

#[test]
fn filter_begins_by_checking_the_architecture() {
    let program = build(Arch::Riscv64).unwrap();
    let expected = [
        Instruction { code: CODE_LOAD, jt: 0, jf: 0, k: DATA_ARCH },
        Instruction { code: CODE_JUMP_EQ, jt: 1, jf: 0, k: 0xc000_00f3 },
        Instruction { code: CODE_RETURN, jt: 0, jf: 0, k: RET_KILL_PROCESS },
        Instruction { code: CODE_LOAD, jt: 0, jf: 0, k: DATA_NR },
    ];
    assert_eq!(program[..4], expected);
}
