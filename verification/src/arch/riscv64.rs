//! riscv64 registers.
//!
//! Syscall ABI: the number is in `a7`, the arguments in `a0..a5`, the return value in
//! `a0`. The number can be changed by writing `a7`: the return value lands in `a0`, so
//! the kernel never clobbers `a7`, and it reads `a7` again before it runs the syscall.

use super::{lemma_register_holds, Arch, RegAccess};
use vstd::prelude::*;

verus! {

/// The registers that a riscv64 syscall uses.
#[derive(Clone, Copy, Debug, PartialEq, Eq, Structural)]
pub struct Regs {
    pub a0: u64,
    pub a1: u64,
    pub a2: u64,
    pub a3: u64,
    pub a4: u64,
    pub a5: u64,
    pub a7: u64,
}

impl RegAccess for Regs {
    open spec fn abi() -> Arch {
        Arch::Riscv64
    }

    open spec fn number(&self) -> i64 {
        self.a7 as i64
    }

    open spec fn argument(&self, i: int) -> u64 {
        if i == 0 {
            self.a0
        } else if i == 1 {
            self.a1
        } else if i == 2 {
            self.a2
        } else if i == 3 {
            self.a3
        } else if i == 4 {
            self.a4
        } else {
            self.a5
        }
    }

    open spec fn returned(&self) -> i64 {
        self.a0 as i64
    }

    open spec fn renumbered(before: Regs, no: i64, after: Regs) -> bool {
        after == (Regs { a7: no as u64, ..before })
    }

    open spec fn answered(before: Regs, value: i64, after: Regs) -> bool {
        after == (Regs { a0: value as u64, ..before })
    }

    fn arch() -> (arch: Arch) {
        Arch::Riscv64
    }

    fn syscall_no(&self) -> (no: i64) {
        self.a7 as i64
    }

    fn arg(&self, i: usize) -> (value: u64) {
        match i {
            0 => self.a0,
            1 => self.a1,
            2 => self.a2,
            3 => self.a3,
            4 => self.a4,
            _ => self.a5,
        }
    }

    fn ret(&self) -> (value: i64) {
        self.a0 as i64
    }

    fn set_syscall_no(&mut self, no: i64) {
        proof {
            lemma_register_holds(no);
        }
        self.a7 = no as u64;
    }

    fn set_ret(&mut self, value: i64) {
        proof {
            lemma_register_holds(value);
        }
        self.a0 = value as u64;
    }
}

/// The syscall ABI of riscv64, and what a replaced number or return value leaves alone.
pub proof fn law_abi(regs: Regs, after: Regs, value: i64)
    ensures
        Regs::abi() == Arch::Riscv64,
        regs.number() == regs.a7 as i64,
        regs.argument(0) == regs.a0,
        regs.argument(1) == regs.a1,
        regs.argument(2) == regs.a2,
        regs.argument(3) == regs.a3,
        regs.argument(4) == regs.a4,
        regs.argument(5) == regs.a5,
        regs.returned() == regs.a0 as i64,
        Regs::renumbered(regs, value, after) ==> after.a7 == value as u64 && after.a0 == regs.a0,
        Regs::answered(regs, value, after) ==> after.a0 == value as u64 && after.a7 == regs.a7,
        Regs::renumbered(regs, value, after) || Regs::answered(regs, value, after) ==> after.a1
            == regs.a1 && after.a2 == regs.a2 && after.a3 == regs.a3 && after.a4 == regs.a4
            && after.a5 == regs.a5,
{
}

} // verus!
