//! x86_64 registers.
//!
//! Syscall ABI: the number is in `orig_rax`, the arguments in `rdi`, `rsi`, `rdx`,
//! `r10`, `r8`, `r9`, the return value in `rax`. (Argument 3 is `r10`, not `rcx`.)

use super::{lemma_register_holds, Arch, RegAccess};
use vstd::prelude::*;

verus! {

/// The registers that an x86_64 syscall uses.
#[derive(Clone, Copy, Debug, PartialEq, Eq, Structural)]
pub struct Regs {
    pub orig_rax: u64,
    pub rax: u64,
    pub rdi: u64,
    pub rsi: u64,
    pub rdx: u64,
    pub r10: u64,
    pub r8: u64,
    pub r9: u64,
}

impl RegAccess for Regs {
    open spec fn abi() -> Arch {
        Arch::X86_64
    }

    open spec fn number(&self) -> i64 {
        self.orig_rax as i64
    }

    open spec fn argument(&self, i: int) -> u64 {
        if i == 0 {
            self.rdi
        } else if i == 1 {
            self.rsi
        } else if i == 2 {
            self.rdx
        } else if i == 3 {
            self.r10
        } else if i == 4 {
            self.r8
        } else {
            self.r9
        }
    }

    open spec fn returned(&self) -> i64 {
        self.rax as i64
    }

    open spec fn renumbered(before: Regs, no: i64, after: Regs) -> bool {
        after == (Regs { orig_rax: no as u64, ..before })
    }

    open spec fn answered(before: Regs, value: i64, after: Regs) -> bool {
        after == (Regs { rax: value as u64, ..before })
    }

    fn arch() -> (arch: Arch) {
        Arch::X86_64
    }

    fn syscall_no(&self) -> (no: i64) {
        self.orig_rax as i64
    }

    fn arg(&self, i: usize) -> (value: u64) {
        match i {
            0 => self.rdi,
            1 => self.rsi,
            2 => self.rdx,
            3 => self.r10,
            4 => self.r8,
            _ => self.r9,
        }
    }

    fn ret(&self) -> (value: i64) {
        self.rax as i64
    }

    fn set_syscall_no(&mut self, no: i64) {
        proof {
            lemma_register_holds(no);
        }
        self.orig_rax = no as u64;
    }

    fn set_ret(&mut self, value: i64) {
        proof {
            lemma_register_holds(value);
        }
        self.rax = value as u64;
    }
}

/// The syscall ABI of x86_64, and what a replaced number or return value leaves alone.
pub proof fn law_abi(regs: Regs, after: Regs, value: i64)
    ensures
        Regs::abi() == Arch::X86_64,
        regs.number() == regs.orig_rax as i64,
        regs.argument(0) == regs.rdi,
        regs.argument(1) == regs.rsi,
        regs.argument(2) == regs.rdx,
        regs.argument(3) == regs.r10,
        regs.argument(4) == regs.r8,
        regs.argument(5) == regs.r9,
        regs.returned() == regs.rax as i64,
        Regs::renumbered(regs, value, after) ==> after.orig_rax == value as u64 && after.rax
            == regs.rax,
        Regs::answered(regs, value, after) ==> after.rax == value as u64 && after.orig_rax
            == regs.orig_rax,
        Regs::renumbered(regs, value, after) || Regs::answered(regs, value, after) ==> after.rdi
            == regs.rdi && after.rsi == regs.rsi && after.rdx == regs.rdx && after.r10 == regs.r10
            && after.r8 == regs.r8 && after.r9 == regs.r9,
{
}

} // verus!
