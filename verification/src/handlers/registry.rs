//! The single source of truth for which syscalls are intercepted, and how.
//!
//! [`Syscall`] names every intercepted syscall. Both the set of numbers that the
//! seccomp filter traps ([`trapped_syscalls`]) and the dispatch at a syscall's entry
//! ([`classify`]) are derived from it.
//!
//! The bare, non-`*at` syscalls (`stat`, `chown`, `chmod`, `rename`, ...) are the
//! original kernel interfaces. aarch64 and riscv64 were added to Linux after the `*at`
//! family, so their shared syscall table lacks the bare forms, and those are intercepted
//! on x86_64 only.

use crate::arch::Arch;
use vstd::prelude::*;

verus! {

/// Which flavor of stat buffer a syscall fills.
#[derive(Clone, Copy, Debug, PartialEq, Eq, Structural)]
pub enum StatKind {
    /// Kernel `struct stat` (stat/lstat/fstat/newfstatat).
    Native,
    /// `struct statx`.
    Statx,
}

/// The handler family that a trapped syscall is routed to.
#[derive(Clone, Copy, Debug, PartialEq, Eq, Structural)]
pub enum Family {
    /// stat/lstat/fstat/newfstatat/statx: overlay ownership onto the result buffer
    /// at the given argument index.
    Stat(StatKind, usize),
    /// getuid/geteuid/getgid/getegid and every credential setter: faked to 0.
    Cred,
    /// getresuid/getresgid: write fake ids into the (up to three) out-parameters.
    CredRes,
    /// chown/lchown/fchown/fchownat: record the fake owner, skip the real call.
    Chown,
    /// chmod/fchmod/fchmodat: record the fake mode, let the real call run.
    Chmod,
    /// mknod/mknodat: make a placeholder file, record the intended device node.
    Mknod,
    /// The twelve `*xattr` syscalls: keep extended attributes in the table.
    Xattr,
    /// unlink/rmdir/unlinkat: drop the record once the inode's last link is gone.
    Unlink,
    /// rename/renameat/renameat2: clean up after an overwritten destination.
    Rename,
}

/// An intercepted syscall.
#[derive(Clone, Copy, Debug, PartialEq, Eq, Structural)]
pub enum Syscall {
    Stat,
    Lstat,
    Fstat,
    Newfstatat,
    Statx,
    Chown,
    Lchown,
    Fchown,
    Fchownat,
    Chmod,
    Fchmod,
    Fchmodat,
    Mknod,
    Mknodat,
    Getuid,
    Geteuid,
    Getgid,
    Getegid,
    Getresuid,
    Getresgid,
    Setuid,
    Setgid,
    Setreuid,
    Setregid,
    Setresuid,
    Setresgid,
    Setfsuid,
    Setfsgid,
    Setgroups,
    Capset,
    Unlink,
    Unlinkat,
    Rmdir,
    Rename,
    Renameat,
    Renameat2,
    Setxattr,
    Lsetxattr,
    Fsetxattr,
    Getxattr,
    Lgetxattr,
    Fgetxattr,
    Listxattr,
    Llistxattr,
    Flistxattr,
    Removexattr,
    Lremovexattr,
    Fremovexattr,
}

/// The number of a syscall on x86_64.
pub open spec fn x86_64_number(call: Syscall) -> i64 {
    match call {
        Syscall::Stat => 4,
        Syscall::Lstat => 6,
        Syscall::Fstat => 5,
        Syscall::Newfstatat => 262,
        Syscall::Statx => 332,
        Syscall::Chown => 92,
        Syscall::Lchown => 94,
        Syscall::Fchown => 93,
        Syscall::Fchownat => 260,
        Syscall::Chmod => 90,
        Syscall::Fchmod => 91,
        Syscall::Fchmodat => 268,
        Syscall::Mknod => 133,
        Syscall::Mknodat => 259,
        Syscall::Getuid => 102,
        Syscall::Geteuid => 107,
        Syscall::Getgid => 104,
        Syscall::Getegid => 108,
        Syscall::Getresuid => 118,
        Syscall::Getresgid => 120,
        Syscall::Setuid => 105,
        Syscall::Setgid => 106,
        Syscall::Setreuid => 113,
        Syscall::Setregid => 114,
        Syscall::Setresuid => 117,
        Syscall::Setresgid => 119,
        Syscall::Setfsuid => 122,
        Syscall::Setfsgid => 123,
        Syscall::Setgroups => 116,
        Syscall::Capset => 126,
        Syscall::Unlink => 87,
        Syscall::Unlinkat => 263,
        Syscall::Rmdir => 84,
        Syscall::Rename => 82,
        Syscall::Renameat => 264,
        Syscall::Renameat2 => 316,
        Syscall::Setxattr => 188,
        Syscall::Lsetxattr => 189,
        Syscall::Fsetxattr => 190,
        Syscall::Getxattr => 191,
        Syscall::Lgetxattr => 192,
        Syscall::Fgetxattr => 193,
        Syscall::Listxattr => 194,
        Syscall::Llistxattr => 195,
        Syscall::Flistxattr => 196,
        Syscall::Removexattr => 197,
        Syscall::Lremovexattr => 198,
        Syscall::Fremovexattr => 199,
    }
}

/// The number of a syscall in the table that aarch64 and riscv64 share, where it is
/// intercepted on them.
pub open spec fn generic_number(call: Syscall) -> Option<i64> {
    match call {
        Syscall::Fstat => Some(80),
        Syscall::Newfstatat => Some(79),
        Syscall::Statx => Some(291),
        Syscall::Fchown => Some(55),
        Syscall::Fchownat => Some(54),
        Syscall::Fchmod => Some(52),
        Syscall::Fchmodat => Some(53),
        Syscall::Mknodat => Some(33),
        Syscall::Getuid => Some(174),
        Syscall::Geteuid => Some(175),
        Syscall::Getgid => Some(176),
        Syscall::Getegid => Some(177),
        Syscall::Getresuid => Some(148),
        Syscall::Getresgid => Some(150),
        Syscall::Setuid => Some(146),
        Syscall::Setgid => Some(144),
        Syscall::Setreuid => Some(145),
        Syscall::Setregid => Some(143),
        Syscall::Setresuid => Some(147),
        Syscall::Setresgid => Some(149),
        Syscall::Setfsuid => Some(151),
        Syscall::Setfsgid => Some(152),
        Syscall::Setgroups => Some(159),
        Syscall::Capset => Some(91),
        Syscall::Unlinkat => Some(35),
        Syscall::Renameat2 => Some(276),
        Syscall::Setxattr => Some(5),
        Syscall::Lsetxattr => Some(6),
        Syscall::Fsetxattr => Some(7),
        Syscall::Getxattr => Some(8),
        Syscall::Lgetxattr => Some(9),
        Syscall::Fgetxattr => Some(10),
        Syscall::Listxattr => Some(11),
        Syscall::Llistxattr => Some(12),
        Syscall::Flistxattr => Some(13),
        Syscall::Removexattr => Some(14),
        Syscall::Lremovexattr => Some(15),
        Syscall::Fremovexattr => Some(16),
        _ => None,
    }
}

impl Syscall {
    /// The number under which this syscall is intercepted.
    pub open spec fn number_on(self, arch: Arch) -> Option<i64> {
        match arch {
            Arch::X86_64 => Some(x86_64_number(self)),
            Arch::Aarch64 => generic_number(self),
            Arch::Riscv64 => generic_number(self),
        }
    }

    /// The family that handles this syscall.
    pub open spec fn handled_by(self) -> Family {
        match self {
            Syscall::Stat
            | Syscall::Lstat
            | Syscall::Fstat => Family::Stat(StatKind::Native, 1),
            Syscall::Newfstatat => Family::Stat(StatKind::Native, 2),
            Syscall::Statx => Family::Stat(StatKind::Statx, 4),
            Syscall::Chown
            | Syscall::Lchown
            | Syscall::Fchown
            | Syscall::Fchownat => Family::Chown,
            Syscall::Chmod
            | Syscall::Fchmod
            | Syscall::Fchmodat => Family::Chmod,
            Syscall::Mknod
            | Syscall::Mknodat => Family::Mknod,
            Syscall::Getuid
            | Syscall::Geteuid
            | Syscall::Getgid
            | Syscall::Getegid
            | Syscall::Setuid
            | Syscall::Setgid
            | Syscall::Setreuid
            | Syscall::Setregid
            | Syscall::Setresuid
            | Syscall::Setresgid
            | Syscall::Setfsuid
            | Syscall::Setfsgid
            | Syscall::Setgroups
            | Syscall::Capset => Family::Cred,
            Syscall::Getresuid
            | Syscall::Getresgid => Family::CredRes,
            Syscall::Unlink
            | Syscall::Unlinkat
            | Syscall::Rmdir => Family::Unlink,
            Syscall::Rename
            | Syscall::Renameat
            | Syscall::Renameat2 => Family::Rename,
            Syscall::Setxattr
            | Syscall::Lsetxattr
            | Syscall::Fsetxattr
            | Syscall::Getxattr
            | Syscall::Lgetxattr
            | Syscall::Fgetxattr
            | Syscall::Listxattr
            | Syscall::Llistxattr
            | Syscall::Flistxattr
            | Syscall::Removexattr
            | Syscall::Lremovexattr
            | Syscall::Fremovexattr => Family::Xattr,
        }
    }

    /// The number under which this syscall is intercepted.
    pub fn number(self, arch: Arch) -> (no: Option<i64>)
        ensures
            no == self.number_on(arch),
    {
        match arch {
            Arch::X86_64 => Some(self.number_x86_64()),
            Arch::Aarch64 => self.number_generic(),
            Arch::Riscv64 => self.number_generic(),
        }
    }

    fn number_x86_64(self) -> (no: i64)
        ensures
            no == x86_64_number(self),
    {
        match self {
            Syscall::Stat => 4,
            Syscall::Lstat => 6,
            Syscall::Fstat => 5,
            Syscall::Newfstatat => 262,
            Syscall::Statx => 332,
            Syscall::Chown => 92,
            Syscall::Lchown => 94,
            Syscall::Fchown => 93,
            Syscall::Fchownat => 260,
            Syscall::Chmod => 90,
            Syscall::Fchmod => 91,
            Syscall::Fchmodat => 268,
            Syscall::Mknod => 133,
            Syscall::Mknodat => 259,
            Syscall::Getuid => 102,
            Syscall::Geteuid => 107,
            Syscall::Getgid => 104,
            Syscall::Getegid => 108,
            Syscall::Getresuid => 118,
            Syscall::Getresgid => 120,
            Syscall::Setuid => 105,
            Syscall::Setgid => 106,
            Syscall::Setreuid => 113,
            Syscall::Setregid => 114,
            Syscall::Setresuid => 117,
            Syscall::Setresgid => 119,
            Syscall::Setfsuid => 122,
            Syscall::Setfsgid => 123,
            Syscall::Setgroups => 116,
            Syscall::Capset => 126,
            Syscall::Unlink => 87,
            Syscall::Unlinkat => 263,
            Syscall::Rmdir => 84,
            Syscall::Rename => 82,
            Syscall::Renameat => 264,
            Syscall::Renameat2 => 316,
            Syscall::Setxattr => 188,
            Syscall::Lsetxattr => 189,
            Syscall::Fsetxattr => 190,
            Syscall::Getxattr => 191,
            Syscall::Lgetxattr => 192,
            Syscall::Fgetxattr => 193,
            Syscall::Listxattr => 194,
            Syscall::Llistxattr => 195,
            Syscall::Flistxattr => 196,
            Syscall::Removexattr => 197,
            Syscall::Lremovexattr => 198,
            Syscall::Fremovexattr => 199,
        }
    }

    fn number_generic(self) -> (no: Option<i64>)
        ensures
            no == generic_number(self),
    {
        match self {
            Syscall::Fstat => Some(80),
            Syscall::Newfstatat => Some(79),
            Syscall::Statx => Some(291),
            Syscall::Fchown => Some(55),
            Syscall::Fchownat => Some(54),
            Syscall::Fchmod => Some(52),
            Syscall::Fchmodat => Some(53),
            Syscall::Mknodat => Some(33),
            Syscall::Getuid => Some(174),
            Syscall::Geteuid => Some(175),
            Syscall::Getgid => Some(176),
            Syscall::Getegid => Some(177),
            Syscall::Getresuid => Some(148),
            Syscall::Getresgid => Some(150),
            Syscall::Setuid => Some(146),
            Syscall::Setgid => Some(144),
            Syscall::Setreuid => Some(145),
            Syscall::Setregid => Some(143),
            Syscall::Setresuid => Some(147),
            Syscall::Setresgid => Some(149),
            Syscall::Setfsuid => Some(151),
            Syscall::Setfsgid => Some(152),
            Syscall::Setgroups => Some(159),
            Syscall::Capset => Some(91),
            Syscall::Unlinkat => Some(35),
            Syscall::Renameat2 => Some(276),
            Syscall::Setxattr => Some(5),
            Syscall::Lsetxattr => Some(6),
            Syscall::Fsetxattr => Some(7),
            Syscall::Getxattr => Some(8),
            Syscall::Lgetxattr => Some(9),
            Syscall::Fgetxattr => Some(10),
            Syscall::Listxattr => Some(11),
            Syscall::Llistxattr => Some(12),
            Syscall::Flistxattr => Some(13),
            Syscall::Removexattr => Some(14),
            Syscall::Lremovexattr => Some(15),
            Syscall::Fremovexattr => Some(16),
            _ => None,
        }
    }

    /// The family that handles this syscall.
    pub fn family(self) -> (family: Family)
        ensures
            family == self.handled_by(),
    {
        match self {
            Syscall::Stat
            | Syscall::Lstat
            | Syscall::Fstat => Family::Stat(StatKind::Native, 1),
            Syscall::Newfstatat => Family::Stat(StatKind::Native, 2),
            Syscall::Statx => Family::Stat(StatKind::Statx, 4),
            Syscall::Chown
            | Syscall::Lchown
            | Syscall::Fchown
            | Syscall::Fchownat => Family::Chown,
            Syscall::Chmod
            | Syscall::Fchmod
            | Syscall::Fchmodat => Family::Chmod,
            Syscall::Mknod
            | Syscall::Mknodat => Family::Mknod,
            Syscall::Getuid
            | Syscall::Geteuid
            | Syscall::Getgid
            | Syscall::Getegid
            | Syscall::Setuid
            | Syscall::Setgid
            | Syscall::Setreuid
            | Syscall::Setregid
            | Syscall::Setresuid
            | Syscall::Setresgid
            | Syscall::Setfsuid
            | Syscall::Setfsgid
            | Syscall::Setgroups
            | Syscall::Capset => Family::Cred,
            Syscall::Getresuid
            | Syscall::Getresgid => Family::CredRes,
            Syscall::Unlink
            | Syscall::Unlinkat
            | Syscall::Rmdir => Family::Unlink,
            Syscall::Rename
            | Syscall::Renameat
            | Syscall::Renameat2 => Family::Rename,
            Syscall::Setxattr
            | Syscall::Lsetxattr
            | Syscall::Fsetxattr
            | Syscall::Getxattr
            | Syscall::Lgetxattr
            | Syscall::Fgetxattr
            | Syscall::Listxattr
            | Syscall::Llistxattr
            | Syscall::Flistxattr
            | Syscall::Removexattr
            | Syscall::Lremovexattr
            | Syscall::Fremovexattr => Family::Xattr,
        }
    }
}

/// The syscall that a number stands for on x86_64.
fn decode_x86_64(nr: i64) -> (call: Option<Syscall>)
    ensures
        match call {
            Some(c) => x86_64_number(c) == nr,
            None => forall|c: Syscall| x86_64_number(c) != nr,
        },
{
    match nr {
        4 => Some(Syscall::Stat),
        6 => Some(Syscall::Lstat),
        5 => Some(Syscall::Fstat),
        262 => Some(Syscall::Newfstatat),
        332 => Some(Syscall::Statx),
        92 => Some(Syscall::Chown),
        94 => Some(Syscall::Lchown),
        93 => Some(Syscall::Fchown),
        260 => Some(Syscall::Fchownat),
        90 => Some(Syscall::Chmod),
        91 => Some(Syscall::Fchmod),
        268 => Some(Syscall::Fchmodat),
        133 => Some(Syscall::Mknod),
        259 => Some(Syscall::Mknodat),
        102 => Some(Syscall::Getuid),
        107 => Some(Syscall::Geteuid),
        104 => Some(Syscall::Getgid),
        108 => Some(Syscall::Getegid),
        118 => Some(Syscall::Getresuid),
        120 => Some(Syscall::Getresgid),
        105 => Some(Syscall::Setuid),
        106 => Some(Syscall::Setgid),
        113 => Some(Syscall::Setreuid),
        114 => Some(Syscall::Setregid),
        117 => Some(Syscall::Setresuid),
        119 => Some(Syscall::Setresgid),
        122 => Some(Syscall::Setfsuid),
        123 => Some(Syscall::Setfsgid),
        116 => Some(Syscall::Setgroups),
        126 => Some(Syscall::Capset),
        87 => Some(Syscall::Unlink),
        263 => Some(Syscall::Unlinkat),
        84 => Some(Syscall::Rmdir),
        82 => Some(Syscall::Rename),
        264 => Some(Syscall::Renameat),
        316 => Some(Syscall::Renameat2),
        188 => Some(Syscall::Setxattr),
        189 => Some(Syscall::Lsetxattr),
        190 => Some(Syscall::Fsetxattr),
        191 => Some(Syscall::Getxattr),
        192 => Some(Syscall::Lgetxattr),
        193 => Some(Syscall::Fgetxattr),
        194 => Some(Syscall::Listxattr),
        195 => Some(Syscall::Llistxattr),
        196 => Some(Syscall::Flistxattr),
        197 => Some(Syscall::Removexattr),
        198 => Some(Syscall::Lremovexattr),
        199 => Some(Syscall::Fremovexattr),
        _ => None,
    }
}

/// The syscall that a number stands for on aarch64 and riscv64.
fn decode_generic(nr: i64) -> (call: Option<Syscall>)
    ensures
        match call {
            Some(c) => generic_number(c) == Some(nr),
            None => forall|c: Syscall| generic_number(c) != Some(nr),
        },
{
    match nr {
        80 => Some(Syscall::Fstat),
        79 => Some(Syscall::Newfstatat),
        291 => Some(Syscall::Statx),
        55 => Some(Syscall::Fchown),
        54 => Some(Syscall::Fchownat),
        52 => Some(Syscall::Fchmod),
        53 => Some(Syscall::Fchmodat),
        33 => Some(Syscall::Mknodat),
        174 => Some(Syscall::Getuid),
        175 => Some(Syscall::Geteuid),
        176 => Some(Syscall::Getgid),
        177 => Some(Syscall::Getegid),
        148 => Some(Syscall::Getresuid),
        150 => Some(Syscall::Getresgid),
        146 => Some(Syscall::Setuid),
        144 => Some(Syscall::Setgid),
        145 => Some(Syscall::Setreuid),
        143 => Some(Syscall::Setregid),
        147 => Some(Syscall::Setresuid),
        149 => Some(Syscall::Setresgid),
        151 => Some(Syscall::Setfsuid),
        152 => Some(Syscall::Setfsgid),
        159 => Some(Syscall::Setgroups),
        91 => Some(Syscall::Capset),
        35 => Some(Syscall::Unlinkat),
        276 => Some(Syscall::Renameat2),
        5 => Some(Syscall::Setxattr),
        6 => Some(Syscall::Lsetxattr),
        7 => Some(Syscall::Fsetxattr),
        8 => Some(Syscall::Getxattr),
        9 => Some(Syscall::Lgetxattr),
        10 => Some(Syscall::Fgetxattr),
        11 => Some(Syscall::Listxattr),
        12 => Some(Syscall::Llistxattr),
        13 => Some(Syscall::Flistxattr),
        14 => Some(Syscall::Removexattr),
        15 => Some(Syscall::Lremovexattr),
        16 => Some(Syscall::Fremovexattr),
        _ => None,
    }
}

/// The intercepted syscall that a number stands for.
pub open spec fn decoded(arch: Arch, nr: i64) -> Option<Syscall> {
    if exists|c: Syscall| #[trigger] c.number_on(arch) == Some(nr) {
        Some(choose|c: Syscall| #[trigger] c.number_on(arch) == Some(nr))
    } else {
        None
    }
}

/// The family that handles the syscall with a given number.
pub open spec fn classified(arch: Arch, nr: i64) -> Option<Family> {
    match decoded(arch, nr) {
        Some(call) => Some(call.handled_by()),
        None => None,
    }
}

/// The intercepted syscall that a number stands for.
pub fn decode(arch: Arch, nr: i64) -> (call: Option<Syscall>)
    ensures
        call == decoded(arch, nr),
{
    let call = match arch {
        Arch::X86_64 => decode_x86_64(nr),
        Arch::Aarch64 => decode_generic(nr),
        Arch::Riscv64 => decode_generic(nr),
    };
    proof {
        match call {
            Some(c) => law_number_decodes(arch, c),
            None => {
                assert forall|c: Syscall| #[trigger] c.number_on(arch) != Some(nr) by {
                    match arch {
                        Arch::X86_64 => assert(x86_64_number(c) != nr),
                        _ => assert(generic_number(c) != Some(nr)),
                    }
                }
            },
        }
    }
    call
}

/// Maps a syscall number to the family that handles it.
pub fn classify(arch: Arch, nr: i64) -> (family: Option<Family>)
    ensures
        family == classified(arch, nr),
{
    match decode(arch, nr) {
        Some(call) => Some(call.family()),
        None => None,
    }
}

/// The intercepted syscalls, in the order in which they are listed. The stat family
/// comes first: it is by far the most frequent.
pub open spec fn registry() -> Seq<Syscall> {
    seq![
        Syscall::Stat,
        Syscall::Lstat,
        Syscall::Fstat,
        Syscall::Newfstatat,
        Syscall::Statx,
        Syscall::Chown,
        Syscall::Lchown,
        Syscall::Fchown,
        Syscall::Fchownat,
        Syscall::Chmod,
        Syscall::Fchmod,
        Syscall::Fchmodat,
        Syscall::Mknod,
        Syscall::Mknodat,
        Syscall::Getuid,
        Syscall::Geteuid,
        Syscall::Getgid,
        Syscall::Getegid,
        Syscall::Getresuid,
        Syscall::Getresgid,
        Syscall::Setuid,
        Syscall::Setgid,
        Syscall::Setreuid,
        Syscall::Setregid,
        Syscall::Setresuid,
        Syscall::Setresgid,
        Syscall::Setfsuid,
        Syscall::Setfsgid,
        Syscall::Setgroups,
        Syscall::Capset,
        Syscall::Unlink,
        Syscall::Unlinkat,
        Syscall::Rmdir,
        Syscall::Rename,
        Syscall::Renameat,
        Syscall::Renameat2,
        Syscall::Setxattr,
        Syscall::Lsetxattr,
        Syscall::Fsetxattr,
        Syscall::Getxattr,
        Syscall::Lgetxattr,
        Syscall::Fgetxattr,
        Syscall::Listxattr,
        Syscall::Llistxattr,
        Syscall::Flistxattr,
        Syscall::Removexattr,
        Syscall::Lremovexattr,
        Syscall::Fremovexattr,
    ]
}

/// The numbers that `calls` have on an architecture, leaving out those that are not
/// intercepted there.
pub open spec fn numbers_of(calls: Seq<Syscall>, arch: Arch) -> Seq<i64>
    decreases calls.len(),
{
    if calls.len() == 0 {
        Seq::empty()
    } else {
        let before = numbers_of(calls.drop_last(), arch);
        match calls.last().number_on(arch) {
            Some(no) => before.push(no),
            None => before,
        }
    }
}

/// The syscall numbers to trap.
pub fn trapped_syscalls(arch: Arch) -> (numbers: Vec<i64>)
    ensures
        numbers@ == numbers_of(registry(), arch),
{
    let calls: Vec<Syscall> = vec![
        Syscall::Stat,
        Syscall::Lstat,
        Syscall::Fstat,
        Syscall::Newfstatat,
        Syscall::Statx,
        Syscall::Chown,
        Syscall::Lchown,
        Syscall::Fchown,
        Syscall::Fchownat,
        Syscall::Chmod,
        Syscall::Fchmod,
        Syscall::Fchmodat,
        Syscall::Mknod,
        Syscall::Mknodat,
        Syscall::Getuid,
        Syscall::Geteuid,
        Syscall::Getgid,
        Syscall::Getegid,
        Syscall::Getresuid,
        Syscall::Getresgid,
        Syscall::Setuid,
        Syscall::Setgid,
        Syscall::Setreuid,
        Syscall::Setregid,
        Syscall::Setresuid,
        Syscall::Setresgid,
        Syscall::Setfsuid,
        Syscall::Setfsgid,
        Syscall::Setgroups,
        Syscall::Capset,
        Syscall::Unlink,
        Syscall::Unlinkat,
        Syscall::Rmdir,
        Syscall::Rename,
        Syscall::Renameat,
        Syscall::Renameat2,
        Syscall::Setxattr,
        Syscall::Lsetxattr,
        Syscall::Fsetxattr,
        Syscall::Getxattr,
        Syscall::Lgetxattr,
        Syscall::Fgetxattr,
        Syscall::Listxattr,
        Syscall::Llistxattr,
        Syscall::Flistxattr,
        Syscall::Removexattr,
        Syscall::Lremovexattr,
        Syscall::Fremovexattr,
    ];
    assert(calls@ =~= registry());
    let mut numbers: Vec<i64> = Vec::new();
    let mut i: usize = 0;
    while i < calls.len()
        invariant
            i <= calls@.len(),
            numbers@ == numbers_of(calls@.take(i as int), arch),
        decreases calls@.len() - i,
    {
        let ghost taken = calls@.take(i + 1);
        assert(taken.drop_last() =~= calls@.take(i as int));
        match calls[i].number(arch) {
            Some(no) => numbers.push(no),
            None => {},
        }
        i = i + 1;
    }
    assert(calls@.take(i as int) =~= calls@);
    numbers
}

/// The place of a syscall in [`registry`].
spec fn rank(call: Syscall) -> int {
    match call {
        Syscall::Stat => 0,
        Syscall::Lstat => 1,
        Syscall::Fstat => 2,
        Syscall::Newfstatat => 3,
        Syscall::Statx => 4,
        Syscall::Chown => 5,
        Syscall::Lchown => 6,
        Syscall::Fchown => 7,
        Syscall::Fchownat => 8,
        Syscall::Chmod => 9,
        Syscall::Fchmod => 10,
        Syscall::Fchmodat => 11,
        Syscall::Mknod => 12,
        Syscall::Mknodat => 13,
        Syscall::Getuid => 14,
        Syscall::Geteuid => 15,
        Syscall::Getgid => 16,
        Syscall::Getegid => 17,
        Syscall::Getresuid => 18,
        Syscall::Getresgid => 19,
        Syscall::Setuid => 20,
        Syscall::Setgid => 21,
        Syscall::Setreuid => 22,
        Syscall::Setregid => 23,
        Syscall::Setresuid => 24,
        Syscall::Setresgid => 25,
        Syscall::Setfsuid => 26,
        Syscall::Setfsgid => 27,
        Syscall::Setgroups => 28,
        Syscall::Capset => 29,
        Syscall::Unlink => 30,
        Syscall::Unlinkat => 31,
        Syscall::Rmdir => 32,
        Syscall::Rename => 33,
        Syscall::Renameat => 34,
        Syscall::Renameat2 => 35,
        Syscall::Setxattr => 36,
        Syscall::Lsetxattr => 37,
        Syscall::Fsetxattr => 38,
        Syscall::Getxattr => 39,
        Syscall::Lgetxattr => 40,
        Syscall::Fgetxattr => 41,
        Syscall::Listxattr => 42,
        Syscall::Llistxattr => 43,
        Syscall::Flistxattr => 44,
        Syscall::Removexattr => 45,
        Syscall::Lremovexattr => 46,
        Syscall::Fremovexattr => 47,
    }
}

/// Every intercepted syscall is listed, at its place.
proof fn lemma_listed(call: Syscall)
    ensures
        0 <= rank(call) < registry().len(),
        registry()[rank(call)] == call,
{
}

/// No syscall is listed twice.
proof fn lemma_listed_once(i: int)
    requires
        0 <= i < registry().len(),
    ensures
        rank(registry()[i]) == i,
{
}

/// What the numbers of a list of syscalls are, and when none of them occurs twice.
proof fn lemma_numbers_of(calls: Seq<Syscall>, arch: Arch)
    ensures
        forall|nr: i64|
            numbers_of(calls, arch).contains(nr) <==> exists|i: int|
                0 <= i < calls.len() && (#[trigger] calls[i]).number_on(arch) == Some(nr),
        calls.no_duplicates() ==> numbers_of(calls, arch).no_duplicates(),
    decreases calls.len(),
{
    let numbers = numbers_of(calls, arch);
    if calls.len() > 0 {
        let fewer = calls.drop_last();
        let before = numbers_of(fewer, arch);
        lemma_numbers_of(fewer, arch);
        assert forall|nr: i64|
            numbers.contains(nr) <==> exists|i: int|
                0 <= i < calls.len() && (#[trigger] calls[i]).number_on(arch) == Some(nr) by {
            if numbers.contains(nr) {
                let k = choose|k: int| 0 <= k < numbers.len() && numbers[k] == nr;
                if k < before.len() {
                    assert(before[k] == nr);
                    assert(before.contains(nr));
                    let i = choose|i: int|
                        0 <= i < fewer.len() && (#[trigger] fewer[i]).number_on(arch) == Some(nr);
                    assert(calls[i] == fewer[i]);
                } else {
                    assert(calls[calls.len() - 1].number_on(arch) == Some(nr));
                }
            }
            if exists|i: int|
                0 <= i < calls.len() && (#[trigger] calls[i]).number_on(arch) == Some(nr) {
                let i = choose|i: int|
                    0 <= i < calls.len() && (#[trigger] calls[i]).number_on(arch) == Some(nr);
                if i < fewer.len() {
                    assert(fewer[i].number_on(arch) == Some(nr));
                    assert(before.contains(nr));
                    let k = choose|k: int| 0 <= k < before.len() && before[k] == nr;
                    assert(numbers[k] == nr);
                } else {
                    assert(numbers[before.len() as int] == nr);
                }
            }
        }
        if calls.no_duplicates() {
            match calls.last().number_on(arch) {
                Some(no) => {
                    if before.contains(no) {
                        let i = choose|i: int|
                            0 <= i < fewer.len() && (#[trigger] fewer[i]).number_on(arch) == Some(
                                no,
                            );
                        law_numbers_distinct(arch, fewer[i], calls.last());
                        assert(calls[i] == calls[calls.len() - 1]);
                    }
                },
                None => {},
            }
        }
    }
}

/// Different syscalls have different numbers: a number that stands for two syscalls
/// stands for one and the same.
pub proof fn law_numbers_distinct(arch: Arch, a: Syscall, b: Syscall)
    requires
        a.number_on(arch) is Some,
        a.number_on(arch) == b.number_on(arch),
    ensures
        a == b,
{
}

/// A syscall's number stands for that syscall.
pub proof fn law_number_decodes(arch: Arch, call: Syscall)
    ensures
        call.number_on(arch) matches Some(nr) ==> decoded(arch, nr) == Some(call),
{
    match call.number_on(arch) {
        Some(nr) => {
            let chosen = choose|c: Syscall| #[trigger] c.number_on(arch) == Some(nr);
            law_numbers_distinct(arch, chosen, call);
        },
        None => {},
    }
}

/// Trapping and handling cannot drift apart: exactly those numbers are trapped that
/// some family handles.
pub proof fn law_trapped_iff_handled(arch: Arch, nr: i64)
    ensures
        numbers_of(registry(), arch).contains(nr) <==> classified(arch, nr) is Some,
{
    lemma_numbers_of(registry(), arch);
    match decoded(arch, nr) {
        Some(call) => {
            lemma_listed(call);
            assert(registry()[rank(call)].number_on(arch) == Some(nr));
        },
        None => {},
    }
}

/// No number is trapped twice.
pub proof fn law_trapped_once(arch: Arch)
    ensures
        numbers_of(registry(), arch).no_duplicates(),
{
    assert forall|i: int, j: int| 0 <= i < j < registry().len() implies registry()[i]
        != registry()[j] by {
        lemma_listed_once(i);
        lemma_listed_once(j);
    }
    lemma_numbers_of(registry(), arch);
}

/// There are at most as many numbers as syscalls.
proof fn lemma_numbers_len(calls: Seq<Syscall>, arch: Arch)
    ensures
        numbers_of(calls, arch).len() <= calls.len(),
    decreases calls.len(),
{
    if calls.len() > 0 {
        lemma_numbers_len(calls.drop_last(), arch);
    }
}

/// The numbers to trap are few and small.
pub proof fn law_trapped_numbers_small(arch: Arch)
    ensures
        numbers_of(registry(), arch).len() <= 48,
        forall|nr: i64| #[trigger] numbers_of(registry(), arch).contains(nr) ==> 0 <= nr < 512,
{
    lemma_numbers_len(registry(), arch);
    assert forall|nr: i64| #[trigger] numbers_of(registry(), arch).contains(nr) implies 0 <= nr
        < 512 by {
        law_trapped_iff_handled(arch, nr);
    }
}

/// Whether a number is intercepted: on x86_64 those of stat, fstat, lstat, rename, rmdir,
/// unlink, the chmod and chown families, the ids, capset, mknod, the attributes, and the
/// newer `*at` syscalls and statx; on the others those of the same syscalls that take a
/// directory descriptor or an open file, the ids, capset and the attributes.
pub open spec fn is_intercepted(arch: Arch, nr: i64) -> bool {
    match arch {
        Arch::X86_64 => {
            ||| 4 <= nr <= 6
            ||| nr == 82 || nr == 84 || nr == 87
            ||| 90 <= nr <= 94
            ||| nr == 102
            ||| 104 <= nr <= 108
            ||| nr == 113 || nr == 114
            ||| 116 <= nr <= 120
            ||| nr == 122 || nr == 123 || nr == 126 || nr == 133
            ||| 188 <= nr <= 199
            ||| nr == 259 || nr == 260
            ||| 262 <= nr <= 264
            ||| nr == 268 || nr == 316 || nr == 332
        },
        _ => {
            ||| 5 <= nr <= 16
            ||| nr == 33 || nr == 35
            ||| 52 <= nr <= 55
            ||| nr == 79 || nr == 80 || nr == 91
            ||| 143 <= nr <= 152
            ||| nr == 159
            ||| 174 <= nr <= 177
            ||| nr == 276 || nr == 291
        },
    }
}

/// Exactly the numbers of the platforms' syscall tables that matter are intercepted; every
/// other number has no handler and is not trapped.
#[verifier::rlimit(60)]
pub proof fn law_intercepted_numbers(arch: Arch, nr: i64)
    ensures
        classified(arch, nr) is Some <==> is_intercepted(arch, nr),
        numbers_of(registry(), arch).contains(nr) <==> is_intercepted(arch, nr),
{
    law_number_decodes(arch, Syscall::Stat);
    law_number_decodes(arch, Syscall::Lstat);
    law_number_decodes(arch, Syscall::Fstat);
    law_number_decodes(arch, Syscall::Newfstatat);
    law_number_decodes(arch, Syscall::Statx);
    law_number_decodes(arch, Syscall::Chown);
    law_number_decodes(arch, Syscall::Lchown);
    law_number_decodes(arch, Syscall::Fchown);
    law_number_decodes(arch, Syscall::Fchownat);
    law_number_decodes(arch, Syscall::Chmod);
    law_number_decodes(arch, Syscall::Fchmod);
    law_number_decodes(arch, Syscall::Fchmodat);
    law_number_decodes(arch, Syscall::Mknod);
    law_number_decodes(arch, Syscall::Mknodat);
    law_number_decodes(arch, Syscall::Getuid);
    law_number_decodes(arch, Syscall::Geteuid);
    law_number_decodes(arch, Syscall::Getgid);
    law_number_decodes(arch, Syscall::Getegid);
    law_number_decodes(arch, Syscall::Getresuid);
    law_number_decodes(arch, Syscall::Getresgid);
    law_number_decodes(arch, Syscall::Setuid);
    law_number_decodes(arch, Syscall::Setgid);
    law_number_decodes(arch, Syscall::Setreuid);
    law_number_decodes(arch, Syscall::Setregid);
    law_number_decodes(arch, Syscall::Setresuid);
    law_number_decodes(arch, Syscall::Setresgid);
    law_number_decodes(arch, Syscall::Setfsuid);
    law_number_decodes(arch, Syscall::Setfsgid);
    law_number_decodes(arch, Syscall::Setgroups);
    law_number_decodes(arch, Syscall::Capset);
    law_number_decodes(arch, Syscall::Unlink);
    law_number_decodes(arch, Syscall::Unlinkat);
    law_number_decodes(arch, Syscall::Rmdir);
    law_number_decodes(arch, Syscall::Rename);
    law_number_decodes(arch, Syscall::Renameat);
    law_number_decodes(arch, Syscall::Renameat2);
    law_number_decodes(arch, Syscall::Setxattr);
    law_number_decodes(arch, Syscall::Lsetxattr);
    law_number_decodes(arch, Syscall::Fsetxattr);
    law_number_decodes(arch, Syscall::Getxattr);
    law_number_decodes(arch, Syscall::Lgetxattr);
    law_number_decodes(arch, Syscall::Fgetxattr);
    law_number_decodes(arch, Syscall::Listxattr);
    law_number_decodes(arch, Syscall::Llistxattr);
    law_number_decodes(arch, Syscall::Flistxattr);
    law_number_decodes(arch, Syscall::Removexattr);
    law_number_decodes(arch, Syscall::Lremovexattr);
    law_number_decodes(arch, Syscall::Fremovexattr);
    law_trapped_iff_handled(arch, nr);
}

/// A syscall goes to the handlers of its kind.
#[verifier::rlimit(60)]
pub proof fn law_families(arch: Arch, nr: i64)
    ensures
        match arch {
            Arch::X86_64 => {
                &&& 4 <= nr <= 6 ==> classified(arch, nr) == Some(Family::Stat(StatKind::Native, 1))
                &&& nr == 262 ==> classified(arch, nr) == Some(Family::Stat(StatKind::Native, 2))
                &&& nr == 332 ==> classified(arch, nr) == Some(Family::Stat(StatKind::Statx, 4))
                &&& 92 <= nr <= 94 || nr == 260 ==> classified(arch, nr) == Some(Family::Chown)
                &&& nr == 90 || nr == 91 || nr == 268 ==> classified(arch, nr) == Some(
                    Family::Chmod,
                )
                &&& nr == 133 || nr == 259 ==> classified(arch, nr) == Some(Family::Mknod)
                &&& nr == 118 || nr == 120 ==> classified(arch, nr) == Some(Family::CredRes)
                &&& 188 <= nr <= 199 ==> classified(arch, nr) == Some(Family::Xattr)
                &&& nr == 84 || nr == 87 || nr == 263 ==> classified(arch, nr) == Some(
                    Family::Unlink,
                )
                &&& nr == 82 || nr == 264 || nr == 316 ==> classified(arch, nr) == Some(
                    Family::Rename,
                )
                &&& nr == 102 || 104 <= nr <= 108 || nr == 113 || nr == 114 || nr == 116 || nr
                    == 117 || nr == 119 || nr == 122 || nr == 123 || nr == 126 ==> classified(
                    arch,
                    nr,
                ) == Some(Family::Cred)
            },
            _ => {
                &&& nr == 80 ==> classified(arch, nr) == Some(Family::Stat(StatKind::Native, 1))
                &&& nr == 79 ==> classified(arch, nr) == Some(Family::Stat(StatKind::Native, 2))
                &&& nr == 291 ==> classified(arch, nr) == Some(Family::Stat(StatKind::Statx, 4))
                &&& nr == 54 || nr == 55 ==> classified(arch, nr) == Some(Family::Chown)
                &&& nr == 52 || nr == 53 ==> classified(arch, nr) == Some(Family::Chmod)
                &&& nr == 33 ==> classified(arch, nr) == Some(Family::Mknod)
                &&& nr == 148 || nr == 150 ==> classified(arch, nr) == Some(Family::CredRes)
                &&& 5 <= nr <= 16 ==> classified(arch, nr) == Some(Family::Xattr)
                &&& nr == 35 ==> classified(arch, nr) == Some(Family::Unlink)
                &&& nr == 276 ==> classified(arch, nr) == Some(Family::Rename)
                &&& nr == 91 || 143 <= nr <= 147 || nr == 149 || nr == 151 || nr == 152 || nr
                    == 159 || 174 <= nr <= 177 ==> classified(arch, nr) == Some(Family::Cred)
            },
        },
{
    law_number_decodes(arch, Syscall::Stat);
    law_number_decodes(arch, Syscall::Lstat);
    law_number_decodes(arch, Syscall::Fstat);
    law_number_decodes(arch, Syscall::Newfstatat);
    law_number_decodes(arch, Syscall::Statx);
    law_number_decodes(arch, Syscall::Chown);
    law_number_decodes(arch, Syscall::Lchown);
    law_number_decodes(arch, Syscall::Fchown);
    law_number_decodes(arch, Syscall::Fchownat);
    law_number_decodes(arch, Syscall::Chmod);
    law_number_decodes(arch, Syscall::Fchmod);
    law_number_decodes(arch, Syscall::Fchmodat);
    law_number_decodes(arch, Syscall::Mknod);
    law_number_decodes(arch, Syscall::Mknodat);
    law_number_decodes(arch, Syscall::Getuid);
    law_number_decodes(arch, Syscall::Geteuid);
    law_number_decodes(arch, Syscall::Getgid);
    law_number_decodes(arch, Syscall::Getegid);
    law_number_decodes(arch, Syscall::Getresuid);
    law_number_decodes(arch, Syscall::Getresgid);
    law_number_decodes(arch, Syscall::Setuid);
    law_number_decodes(arch, Syscall::Setgid);
    law_number_decodes(arch, Syscall::Setreuid);
    law_number_decodes(arch, Syscall::Setregid);
    law_number_decodes(arch, Syscall::Setresuid);
    law_number_decodes(arch, Syscall::Setresgid);
    law_number_decodes(arch, Syscall::Setfsuid);
    law_number_decodes(arch, Syscall::Setfsgid);
    law_number_decodes(arch, Syscall::Setgroups);
    law_number_decodes(arch, Syscall::Capset);
    law_number_decodes(arch, Syscall::Unlink);
    law_number_decodes(arch, Syscall::Unlinkat);
    law_number_decodes(arch, Syscall::Rmdir);
    law_number_decodes(arch, Syscall::Rename);
    law_number_decodes(arch, Syscall::Renameat);
    law_number_decodes(arch, Syscall::Renameat2);
    law_number_decodes(arch, Syscall::Setxattr);
    law_number_decodes(arch, Syscall::Lsetxattr);
    law_number_decodes(arch, Syscall::Fsetxattr);
    law_number_decodes(arch, Syscall::Getxattr);
    law_number_decodes(arch, Syscall::Lgetxattr);
    law_number_decodes(arch, Syscall::Fgetxattr);
    law_number_decodes(arch, Syscall::Listxattr);
    law_number_decodes(arch, Syscall::Llistxattr);
    law_number_decodes(arch, Syscall::Flistxattr);
    law_number_decodes(arch, Syscall::Removexattr);
    law_number_decodes(arch, Syscall::Lremovexattr);
    law_number_decodes(arch, Syscall::Fremovexattr);
}

/// The number of each syscall on x86_64.
pub proof fn law_x86_64_numbers()
    ensures
        Syscall::Stat.number_on(Arch::X86_64) == Some(4i64),
        Syscall::Lstat.number_on(Arch::X86_64) == Some(6i64),
        Syscall::Fstat.number_on(Arch::X86_64) == Some(5i64),
        Syscall::Newfstatat.number_on(Arch::X86_64) == Some(262i64),
        Syscall::Statx.number_on(Arch::X86_64) == Some(332i64),
        Syscall::Chown.number_on(Arch::X86_64) == Some(92i64),
        Syscall::Lchown.number_on(Arch::X86_64) == Some(94i64),
        Syscall::Fchown.number_on(Arch::X86_64) == Some(93i64),
        Syscall::Fchownat.number_on(Arch::X86_64) == Some(260i64),
        Syscall::Chmod.number_on(Arch::X86_64) == Some(90i64),
        Syscall::Fchmod.number_on(Arch::X86_64) == Some(91i64),
        Syscall::Fchmodat.number_on(Arch::X86_64) == Some(268i64),
        Syscall::Mknod.number_on(Arch::X86_64) == Some(133i64),
        Syscall::Mknodat.number_on(Arch::X86_64) == Some(259i64),
        Syscall::Getuid.number_on(Arch::X86_64) == Some(102i64),
        Syscall::Geteuid.number_on(Arch::X86_64) == Some(107i64),
        Syscall::Getgid.number_on(Arch::X86_64) == Some(104i64),
        Syscall::Getegid.number_on(Arch::X86_64) == Some(108i64),
        Syscall::Getresuid.number_on(Arch::X86_64) == Some(118i64),
        Syscall::Getresgid.number_on(Arch::X86_64) == Some(120i64),
        Syscall::Setuid.number_on(Arch::X86_64) == Some(105i64),
        Syscall::Setgid.number_on(Arch::X86_64) == Some(106i64),
        Syscall::Setreuid.number_on(Arch::X86_64) == Some(113i64),
        Syscall::Setregid.number_on(Arch::X86_64) == Some(114i64),
        Syscall::Setresuid.number_on(Arch::X86_64) == Some(117i64),
        Syscall::Setresgid.number_on(Arch::X86_64) == Some(119i64),
        Syscall::Setfsuid.number_on(Arch::X86_64) == Some(122i64),
        Syscall::Setfsgid.number_on(Arch::X86_64) == Some(123i64),
        Syscall::Setgroups.number_on(Arch::X86_64) == Some(116i64),
        Syscall::Capset.number_on(Arch::X86_64) == Some(126i64),
        Syscall::Unlink.number_on(Arch::X86_64) == Some(87i64),
        Syscall::Unlinkat.number_on(Arch::X86_64) == Some(263i64),
        Syscall::Rmdir.number_on(Arch::X86_64) == Some(84i64),
        Syscall::Rename.number_on(Arch::X86_64) == Some(82i64),
        Syscall::Renameat.number_on(Arch::X86_64) == Some(264i64),
        Syscall::Renameat2.number_on(Arch::X86_64) == Some(316i64),
        Syscall::Setxattr.number_on(Arch::X86_64) == Some(188i64),
        Syscall::Lsetxattr.number_on(Arch::X86_64) == Some(189i64),
        Syscall::Fsetxattr.number_on(Arch::X86_64) == Some(190i64),
        Syscall::Getxattr.number_on(Arch::X86_64) == Some(191i64),
        Syscall::Lgetxattr.number_on(Arch::X86_64) == Some(192i64),
        Syscall::Fgetxattr.number_on(Arch::X86_64) == Some(193i64),
        Syscall::Listxattr.number_on(Arch::X86_64) == Some(194i64),
        Syscall::Llistxattr.number_on(Arch::X86_64) == Some(195i64),
        Syscall::Flistxattr.number_on(Arch::X86_64) == Some(196i64),
        Syscall::Removexattr.number_on(Arch::X86_64) == Some(197i64),
        Syscall::Lremovexattr.number_on(Arch::X86_64) == Some(198i64),
        Syscall::Fremovexattr.number_on(Arch::X86_64) == Some(199i64),
{
}

/// The number of each syscall on aarch64 and riscv64, which share their table. The bare
/// forms of the file syscalls, and renameat, are not intercepted there.
pub proof fn law_generic_numbers(arch: Arch)
    requires
        arch != Arch::X86_64,
    ensures
        Syscall::Stat.number_on(arch) == None::<i64>,
        Syscall::Lstat.number_on(arch) == None::<i64>,
        Syscall::Fstat.number_on(arch) == Some(80i64),
        Syscall::Newfstatat.number_on(arch) == Some(79i64),
        Syscall::Statx.number_on(arch) == Some(291i64),
        Syscall::Chown.number_on(arch) == None::<i64>,
        Syscall::Lchown.number_on(arch) == None::<i64>,
        Syscall::Fchown.number_on(arch) == Some(55i64),
        Syscall::Fchownat.number_on(arch) == Some(54i64),
        Syscall::Chmod.number_on(arch) == None::<i64>,
        Syscall::Fchmod.number_on(arch) == Some(52i64),
        Syscall::Fchmodat.number_on(arch) == Some(53i64),
        Syscall::Mknod.number_on(arch) == None::<i64>,
        Syscall::Mknodat.number_on(arch) == Some(33i64),
        Syscall::Getuid.number_on(arch) == Some(174i64),
        Syscall::Geteuid.number_on(arch) == Some(175i64),
        Syscall::Getgid.number_on(arch) == Some(176i64),
        Syscall::Getegid.number_on(arch) == Some(177i64),
        Syscall::Getresuid.number_on(arch) == Some(148i64),
        Syscall::Getresgid.number_on(arch) == Some(150i64),
        Syscall::Setuid.number_on(arch) == Some(146i64),
        Syscall::Setgid.number_on(arch) == Some(144i64),
        Syscall::Setreuid.number_on(arch) == Some(145i64),
        Syscall::Setregid.number_on(arch) == Some(143i64),
        Syscall::Setresuid.number_on(arch) == Some(147i64),
        Syscall::Setresgid.number_on(arch) == Some(149i64),
        Syscall::Setfsuid.number_on(arch) == Some(151i64),
        Syscall::Setfsgid.number_on(arch) == Some(152i64),
        Syscall::Setgroups.number_on(arch) == Some(159i64),
        Syscall::Capset.number_on(arch) == Some(91i64),
        Syscall::Unlink.number_on(arch) == None::<i64>,
        Syscall::Unlinkat.number_on(arch) == Some(35i64),
        Syscall::Rmdir.number_on(arch) == None::<i64>,
        Syscall::Rename.number_on(arch) == None::<i64>,
        Syscall::Renameat.number_on(arch) == None::<i64>,
        Syscall::Renameat2.number_on(arch) == Some(276i64),
        Syscall::Setxattr.number_on(arch) == Some(5i64),
        Syscall::Lsetxattr.number_on(arch) == Some(6i64),
        Syscall::Fsetxattr.number_on(arch) == Some(7i64),
        Syscall::Getxattr.number_on(arch) == Some(8i64),
        Syscall::Lgetxattr.number_on(arch) == Some(9i64),
        Syscall::Fgetxattr.number_on(arch) == Some(10i64),
        Syscall::Listxattr.number_on(arch) == Some(11i64),
        Syscall::Llistxattr.number_on(arch) == Some(12i64),
        Syscall::Flistxattr.number_on(arch) == Some(13i64),
        Syscall::Removexattr.number_on(arch) == Some(14i64),
        Syscall::Lremovexattr.number_on(arch) == Some(15i64),
        Syscall::Fremovexattr.number_on(arch) == Some(16i64),
{
}

} // verus!
