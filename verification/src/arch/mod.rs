//! The register file of a stopped tracee, per architecture.
//!
//! Supported are `x86_64` (amd64), `aarch64` (arm64) and `riscv64`. Each register file
//! here holds the registers that the Linux syscall ABI of its architecture uses; the
//! others are never looked at.

pub mod aarch64;
pub mod riscv64;
pub mod x86_64;

use vstd::prelude::*;

verus! {

/// A supported architecture.
#[derive(Clone, Copy, Debug, PartialEq, Eq, Structural)]
pub enum Arch {
    X86_64,
    Aarch64,
    Riscv64,
}

/// A register file, seen through the syscall ABI of its architecture.
///
/// The syscall number and the arguments mean something at a syscall-entry stop, the
/// return value at a syscall-exit stop.
pub trait RegAccess: Sized {
    /// The architecture whose ABI this register file follows.
    spec fn abi() -> Arch;

    /// The syscall number.
    spec fn number(&self) -> i64;

    /// Syscall argument `i`, for `i` in `0..=5`.
    spec fn argument(&self, i: int) -> u64;

    /// The return value.
    spec fn returned(&self) -> i64;

    /// Whether `after` is `before` with its syscall number replaced.
    spec fn renumbered(before: Self, no: i64, after: Self) -> bool;

    /// Whether `after` is `before` with its return value replaced.
    spec fn answered(before: Self, value: i64, after: Self) -> bool;

    /// The architecture whose ABI this register file follows.
    fn arch() -> (arch: Arch)
        ensures
            arch == Self::abi(),
    ;

    /// The syscall number being invoked.
    fn syscall_no(&self) -> (no: i64)
        ensures
            no == self.number(),
    ;

    /// Syscall argument `i`, where `i` is in `0..=5`.
    fn arg(&self, i: usize) -> (value: u64)
        requires
            i <= 5,
        ensures
            value == self.argument(i as int),
    ;

    /// The syscall's return value.
    fn ret(&self) -> (value: i64)
        ensures
            value == self.returned(),
    ;

    /// Replaces the syscall number. With `-1` the kernel skips the real syscall and
    /// makes it return `-ENOSYS`, which [`RegAccess::set_ret`] then replaces.
    fn set_syscall_no(&mut self, no: i64)
        ensures
            Self::renumbered(*old(self), no, *final(self)),
            final(self).number() == no,
            final(self).returned() == old(self).returned(),
            forall|i: int|
                0 <= i <= 5 ==> #[trigger] final(self).argument(i) == old(self).argument(i),
    ;

    /// Replaces the return value. Where the ABI returns in the register of argument 0,
    /// that argument is overwritten.
    fn set_ret(&mut self, value: i64)
        ensures
            Self::answered(*old(self), value, *final(self)),
            final(self).returned() == value,
            final(self).number() == old(self).number(),
            forall|i: int|
                1 <= i <= 5 ==> #[trigger] final(self).argument(i) == old(self).argument(i),
    ;
}

/// A number survives its passage through a register.
pub proof fn lemma_register_holds(value: i64)
    ensures
        (value as u64) as i64 == value,
{
    assert((value as u64) as i64 == value) by (bit_vector);
}

} // verus!
