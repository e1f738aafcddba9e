//! aarch64 registers.
//!
//! Syscall ABI: the number is in `x8`, the arguments in `x0..x5`, the return value in
//! `x0`.
//!
//! After entry the syscall number cannot be changed by writing `x8` back with the
//! general registers: it has to be set through the `NT_ARM_SYSTEM_CALL` register set.
//! The replacement is kept in [`Regs::sysno_override`] for whoever stores the registers.

use super::{lemma_register_holds, Arch, RegAccess};
use vstd::prelude::*;

verus! {

/// The general registers of aarch64, with the pending replacement of the syscall number.
#[derive(Clone, Copy, Debug)]
pub struct Regs {
    /// `x0..x30`.
    pub regs: [u64; 31],
    /// The syscall number to set through `NT_ARM_SYSTEM_CALL` when the registers are
    /// stored.
    pub sysno_override: Option<i32>,
}

impl RegAccess for Regs {
    open spec fn abi() -> Arch {
        Arch::Aarch64
    }

    open spec fn number(&self) -> i64 {
        self.regs@[8] as i64
    }

    open spec fn argument(&self, i: int) -> u64 {
        self.regs@[i]
    }

    open spec fn returned(&self) -> i64 {
        self.regs@[0] as i64
    }

    open spec fn renumbered(before: Regs, no: i64, after: Regs) -> bool {
        &&& after.regs@ == before.regs@.update(8, no as u64)
        &&& after.sysno_override == Some(no as i32)
    }

    open spec fn answered(before: Regs, value: i64, after: Regs) -> bool {
        &&& after.regs@ == before.regs@.update(0, value as u64)
        &&& after.sysno_override == before.sysno_override
    }

    fn arch() -> (arch: Arch) {
        Arch::Aarch64
    }

    fn syscall_no(&self) -> (no: i64) {
        self.regs[8] as i64
    }

    fn arg(&self, i: usize) -> (value: u64) {
        self.regs[i]
    }

    fn ret(&self) -> (value: i64) {
        self.regs[0] as i64
    }

    fn set_syscall_no(&mut self, no: i64) {
        proof {
            lemma_register_holds(no);
        }
        self.regs[8] = no as u64;
        self.sysno_override = Some(no as i32);
    }

    fn set_ret(&mut self, value: i64) {
        proof {
            lemma_register_holds(value);
        }
        self.regs[0] = value as u64;
    }
}

/// The syscall ABI of aarch64, and what a replaced number or return value leaves alone. A
/// replaced number is kept apart too.
pub proof fn law_abi(regs: Regs, after: Regs, value: i64)
    ensures
        Regs::abi() == Arch::Aarch64,
        regs.number() == regs.regs@[8] as i64,
        forall|i: int| 0 <= i <= 5 ==> #[trigger] regs.argument(i) == regs.regs@[i],
        regs.returned() == regs.regs@[0] as i64,
        Regs::renumbered(regs, value, after) ==> after.regs@[8] == value as u64
            && after.sysno_override == Some(value as i32) && forall|i: int|
            0 <= i < 31 && i != 8 ==> #[trigger] after.regs@[i] == regs.regs@[i],
        Regs::answered(regs, value, after) ==> after.regs@[0] == value as u64
            && after.sysno_override == regs.sysno_override && forall|i: int|
            1 <= i < 31 ==> #[trigger] after.regs@[i] == regs.regs@[i],
{
}

} // verus!
