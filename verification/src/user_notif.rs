//! Answering the stat family from seccomp `USER_NOTIF` notifications, in place of the
//! single-threaded ptrace loop.
//!
//! A stat arrives as a notification: the syscall is *blocked* and the real syscall never
//! runs. Its target is resolved the same way as on the ptrace path (through
//! `/proc/<pid>/...`), the supervisor stats it to obtain the full result struct, faked
//! ownership is overlaid from the table, the struct is written back into the tracee, and
//! the answer is success. Where the target cannot be read, resolved or stat'ed (an exotic
//! mount namespace, for one), the answer lets the kernel run the real syscall rather
//! than failing the caller.
//!
//! The steps are [`handle_stat`], [`StatNotif::target`], [`answer`], [`written`]
//! and [`reply`]. Between them, the path is read, the stat is performed, and the result
//! is written.

use crate::arch::Arch;
use crate::bytes::optional;
use crate::handlers::overlay::{patch_stat_result, reported, StatBuf};
use crate::handlers::plan::{AT_EMPTY_PATH, AT_SYMLINK_NOFOLLOW};
use crate::handlers::registry::{
    classified, decode, decoded, law_number_decodes, Family, StatKind, Syscall,
};
use crate::handlers::syscalls::{lemma_flags, numbered};
use crate::mem::Memory;
use crate::path::{resolved, stat_target, target_query, StatQuery, AT_FDCWD};
use crate::table::{OwnershipTable, TableView};
use vstd::prelude::*;

verus! {

/// Both directions of an `ioctl`: `_IOC_READ | _IOC_WRITE`.
pub const IOC_RW: u32 = 3;

/// The direction of an `ioctl` that hands the kernel something: `_IOC_WRITE`.
pub const IOC_WRITE: u32 = 1;

/// The type of the seccomp `ioctl` requests: the character `!`.
pub const SECCOMP_IOC_MAGIC: u32 = 33;

/// The size of the kernel's `struct seccomp_notif`.
pub const NOTIF_SIZE: u32 = 80;

/// The size of the kernel's `struct seccomp_notif_resp`.
pub const NOTIF_RESP_SIZE: u32 = 24;

/// The request that receives a notification.
pub const SECCOMP_IOCTL_NOTIF_RECV: u32 = 0xc050_2100;

/// The request that answers a notification.
pub const SECCOMP_IOCTL_NOTIF_SEND: u32 = 0xc018_2101;

/// The request that asks whether a notification is still waiting for its answer.
pub const SECCOMP_IOCTL_NOTIF_ID_VALID: u32 = 0x4008_2102;

/// The flag of an answer that lets the kernel run the real syscall.
pub const SECCOMP_USER_NOTIF_FLAG_CONTINUE: u32 = 1;

/// The code of an `ioctl` request: its direction, the size of its argument, its type
/// and its number.
pub open spec fn request(dir: u32, ty: u32, nr: u32, sz: u32) -> u32 {
    (dir << 30) | (sz << 16) | (ty << 8) | nr
}

/// The code of an `ioctl` request.
pub fn ioc(dir: u32, ty: u32, nr: u32, sz: u32) -> (code: u32)
    ensures
        code == request(dir, ty, nr, sz),
{
    (dir << 30) | (sz << 16) | (ty << 8) | nr
}

/// What to send back for a stat notification.
#[derive(Clone, Copy, Debug, PartialEq, Eq, Structural)]
pub enum Response {
    /// The syscall never ran; report this return value (0 is success).
    Value(i64),
    /// Let the kernel run the real syscall.
    Continue,
}

/// The fields of a `struct seccomp_notif_resp`.
#[derive(Clone, Copy, Debug, PartialEq, Eq, Structural)]
pub struct Reply {
    pub id: u64,
    pub val: i64,
    pub error: i32,
    pub flags: u32,
}

/// The answer to a notification.
pub open spec fn replied(id: u64, response: Response) -> Reply {
    match response {
        Response::Value(val) => Reply { id, val, error: 0, flags: 0 },
        Response::Continue => Reply {
            id,
            val: 0,
            error: 0,
            flags: SECCOMP_USER_NOTIF_FLAG_CONTINUE,
        },
    }
}

/// The answer to a notification.
pub fn reply(id: u64, response: Response) -> (answer: Reply)
    ensures
        answer == replied(id, response),
{
    match response {
        Response::Value(val) => Reply { id, val, error: 0, flags: 0 },
        Response::Continue => Reply {
            id,
            val: 0,
            error: 0,
            flags: SECCOMP_USER_NOTIF_FLAG_CONTINUE,
        },
    }
}

/// A stat that a tracee asks for.
#[derive(Clone, Copy, Debug, PartialEq, Eq, Structural)]
pub struct StatNotif {
    pub pid: i32,
    pub dirfd: i32,
    /// The address of the path; without one the path is empty.
    pub path: Option<u64>,
    pub nofollow: bool,
    pub empty: bool,
    /// The fields that a `statx` asks for.
    pub mask: u32,
    pub kind: StatKind,
    /// The address of the result buffer.
    pub buf: u64,
}

/// The stat that a notified syscall asks for. There is none where the syscall is not of
/// the stat family.
pub open spec fn notified(arch: Arch, pid: i32, nr: i64, args: Seq<u64>) -> Option<StatNotif> {
    let bare = StatNotif {
        pid,
        dirfd: AT_FDCWD,
        path: Some(args[0]),
        nofollow: false,
        empty: false,
        mask: 0,
        kind: StatKind::Native,
        buf: args[1],
    };
    match decoded(arch, nr) {
        Some(Syscall::Stat) => Some(bare),
        Some(Syscall::Lstat) => Some(StatNotif { nofollow: true, ..bare }),
        Some(Syscall::Fstat) => Some(
            StatNotif { dirfd: args[0] as i32, path: None, empty: true, ..bare },
        ),
        Some(Syscall::Newfstatat) => Some(
            StatNotif {
                dirfd: args[0] as i32,
                path: Some(args[1]),
                nofollow: args[3] as i32 & AT_SYMLINK_NOFOLLOW != 0,
                empty: args[3] as i32 & AT_EMPTY_PATH != 0,
                buf: args[2],
                ..bare
            },
        ),
        Some(Syscall::Statx) => Some(
            StatNotif {
                pid,
                dirfd: args[0] as i32,
                path: Some(args[1]),
                nofollow: args[2] as i32 & AT_SYMLINK_NOFOLLOW != 0,
                empty: args[2] as i32 & AT_EMPTY_PATH != 0,
                mask: args[3] as u32,
                kind: StatKind::Statx,
                buf: args[4],
            },
        ),
        _ => None,
    }
}

/// Works out which stat a notified syscall asks for. Without one, the answer is
/// [`Response::Continue`].
pub fn handle_stat(arch: Arch, pid: i32, nr: i64, args: &[u64; 6]) -> (stat: Option<StatNotif>)
    ensures
        stat == notified(arch, pid, nr, args@),
{
    let bare = StatNotif {
        pid,
        dirfd: AT_FDCWD,
        path: Some(args[0]),
        nofollow: false,
        empty: false,
        mask: 0,
        kind: StatKind::Native,
        buf: args[1],
    };
    match decode(arch, nr) {
        Some(Syscall::Stat) => Some(bare),
        Some(Syscall::Lstat) => Some(StatNotif { nofollow: true, ..bare }),
        Some(Syscall::Fstat) => Some(
            StatNotif { dirfd: args[0] as i32, path: None, empty: true, ..bare },
        ),
        Some(Syscall::Newfstatat) => {
            let flags: i32 = args[3] as i32;
            Some(
                StatNotif {
                    dirfd: args[0] as i32,
                    path: Some(args[1]),
                    nofollow: flags & AT_SYMLINK_NOFOLLOW != 0,
                    empty: flags & AT_EMPTY_PATH != 0,
                    buf: args[2],
                    ..bare
                },
            )
        },
        Some(Syscall::Statx) => {
            let flags: i32 = args[2] as i32;
            Some(
                StatNotif {
                    pid,
                    dirfd: args[0] as i32,
                    path: Some(args[1]),
                    nofollow: flags & AT_SYMLINK_NOFOLLOW != 0,
                    empty: flags & AT_EMPTY_PATH != 0,
                    mask: args[3] as u32,
                    kind: StatKind::Statx,
                    buf: args[4],
                },
            )
        },
        _ => None,
    }
}

/// What comes after the supervisor's own stat of the target.
#[derive(Debug)]
pub enum Answer {
    /// Write this result to the tracee's buffer.
    Write(StatBuf),
    /// Answer at once.
    Respond(Response),
}

impl StatNotif {
    /// The file to stat and whether a final symlink is followed, by the path that was
    /// read from the tracee. Without the path that it needs, the stat has no target.
    pub open spec fn targeted(self, path: Option<Seq<u8>>) -> Option<(Seq<u8>, bool)> {
        let named = match self.path {
            Some(_) => path,
            None => Some(Seq::empty()),
        };
        match named {
            Some(path) => Some(
                target_query(self.pid, self.dirfd, path, self.nofollow, self.empty),
            ),
            None => None,
        }
    }

    /// The file to stat, by the path that was read from the tracee, if it could be read.
    /// Where there is none, the answer is [`Response::Continue`].
    pub fn target(&self, path: Option<Vec<u8>>) -> (query: Option<StatQuery>)
        ensures
            match query {
                Some(query) => self.targeted(optional(path)) == Some(
                    (query.path@, query.follow),
                ),
                None => self.targeted(optional(path)) is None,
            },
    {
        let path: Vec<u8> = match self.path {
            Some(_) => match path {
                Some(path) => path,
                None => {
                    return None;
                },
            },
            None => Vec::new(),
        };
        assert(path@.len() == 0 ==> path@ =~= Seq::empty());
        Some(stat_target(self.pid, self.dirfd, path.as_slice(), self.nofollow, self.empty))
    }
}

/// What to do about the result of the supervisor's own stat of the target.
pub open spec fn answered(found: Option<StatBuf>, table: TableView) -> Answer {
    match found {
        Some(buf) => Answer::Write(reported(table, buf)),
        None => Answer::Respond(Response::Continue),
    }
}

/// What to do about the result of the supervisor's own stat of the target, where there
/// is one: the tracee gets it with the faked fields overlaid.
pub fn answer(found: Option<StatBuf>, table: &OwnershipTable) -> (next: Answer)
    ensures
        next == answered(found, table@),
{
    match found {
        Some(buf) => {
            let mut buf: StatBuf = buf;
            patch_stat_result(table, &mut buf);
            Answer::Write(buf)
        },
        None => Answer::Respond(Response::Continue),
    }
}

/// The response once the result was, or could not be, written to the tracee's buffer.
pub open spec fn responded(ok: bool) -> Response {
    if ok {
        Response::Value(0)
    } else {
        Response::Continue
    }
}

/// The response once the result was, or could not be, written to the tracee's buffer.
pub fn written(ok: bool) -> (response: Response)
    ensures
        response == responded(ok),
{
    if ok {
        Response::Value(0)
    } else {
        Response::Continue
    }
}

/// What the outside answers: the tracee's memory, what the supervisor's own stat of a
/// path finds (with links followed or not, for a flavor of buffer and a mask), and
/// whether a result can be written at an address.
pub struct NotifWorld {
    pub memory: Memory,
    pub stat: spec_fn(Seq<u8>, bool, StatKind, u32) -> Option<StatBuf>,
    pub writable: spec_fn(u64, StatBuf) -> bool,
}

/// What a notification comes to: the response, and the result that is written to the
/// tracee, with its address.
pub type NotifOutcome = (Response, Option<(u64, StatBuf)>);

/// The path that a stat names, where it names one and it can be read.
pub open spec fn path_read(stat: StatNotif, world: NotifWorld) -> Option<Seq<u8>> {
    match stat.path {
        Some(addr) => match world.memory.cstring(addr) {
            Ok(path) => Some(path),
            Err(_) => None,
        },
        None => None,
    }
}

/// Goes through the steps of answering a notification, where each request is answered
/// from `world`.
pub open spec fn run_notification(
    arch: Arch,
    pid: i32,
    nr: i64,
    args: Seq<u64>,
    world: NotifWorld,
    table: TableView,
) -> NotifOutcome {
    match notified(arch, pid, nr, args) {
        None => (Response::Continue, None),
        Some(stat) => match stat.targeted(path_read(stat, world)) {
            None => (Response::Continue, None),
            Some((path, follow)) => match answered(
                (world.stat)(path, follow, stat.kind, stat.mask),
                table,
            ) {
                Answer::Respond(response) => (response, None),
                Answer::Write(buf) => {
                    let ok = (world.writable)(stat.buf, buf);
                    (
                        responded(ok),
                        if ok {
                            Some((stat.buf, buf))
                        } else {
                            None
                        },
                    )
                },
            },
        },
    }
}

/// The result that a notified stat of a file is owed: the one of the supervisor's own
/// stat of the file that the tracee means, where its path can be read and the stat
/// succeeds.
pub open spec fn own_stat(stat: StatNotif, world: NotifWorld) -> Option<StatBuf> {
    let path = match stat.path {
        Some(addr) => world.memory.cstring(addr),
        None => Ok(Seq::empty()),
    };
    match path {
        Ok(path) => {
            let (full, follow) = target_query(
                stat.pid,
                stat.dirfd,
                path,
                stat.nofollow,
                stat.empty,
            );
            (world.stat)(full, follow, stat.kind, stat.mask)
        },
        Err(_) => None,
    }
}

/// A notification is answered with success exactly where the target can be named,
/// stat'ed and its result written, and the tracee then has that result with the faked
/// fields overlaid. Everything else is left to the kernel, and nothing is written.
pub proof fn law_notification_is_answered(
    arch: Arch,
    pid: i32,
    nr: i64,
    args: Seq<u64>,
    world: NotifWorld,
    table: TableView,
)
    ensures
        run_notification(arch, pid, nr, args, world, table) == match notified(
            arch,
            pid,
            nr,
            args,
        ) {
            Some(stat) => match own_stat(stat, world) {
                Some(buf) if (world.writable)(stat.buf, reported(table, buf)) => (
                    Response::Value(0),
                    Some((stat.buf, reported(table, buf))),
                ),
                _ => (Response::Continue, None::<(u64, StatBuf)>),
            },
            None => (Response::Continue, None::<(u64, StatBuf)>),
        },
{
}

/// A notified stat looks for its file as a lookup on the ptrace path does that has the
/// same descriptor, path and flags: both give the same query. Only a path that is needed
/// and could not be read leaves it without one.
pub proof fn law_targets_agree(stat: StatNotif, path: Seq<u8>)
    ensures
        stat.path is Some ==> stat.targeted(Some(path)) == Some(
            target_query(stat.pid, stat.dirfd, path, stat.nofollow, stat.empty),
        ),
        stat.path is Some ==> stat.targeted(None) is None,
        stat.path is None ==> stat.targeted(None) == Some(
            target_query(stat.pid, stat.dirfd, Seq::empty(), stat.nofollow, stat.empty),
        ),
        stat.path is None ==> stat.targeted(Some(path)) == stat.targeted(None),
{
}

/// Exactly the stat family is answered here, with the flavor of buffer, and at the
/// place, that the ptrace path knows for the syscall.
pub proof fn law_answers_the_stat_family(arch: Arch, pid: i32, nr: i64, args: Seq<u64>)
    requires
        args.len() == 6,
    ensures
        match notified(arch, pid, nr, args) {
            Some(stat) => classified(arch, nr) matches Some(Family::Stat(kind, place)) && kind
                == stat.kind && args[place as int] == stat.buf,
            None => !(classified(arch, nr) matches Some(Family::Stat(_, _))),
        },
{
}

/// The parts of a request can be read back from its code.
pub proof fn law_request_parts(dir: u32, ty: u32, nr: u32, sz: u32)
    requires
        dir < 4,
        ty < 0x100,
        nr < 0x100,
        sz < 0x4000,
    ensures
        request(dir, ty, nr, sz) >> 30 == dir,
        (request(dir, ty, nr, sz) >> 16) & 0x3fff == sz,
        (request(dir, ty, nr, sz) >> 8) & 0xff == ty,
        request(dir, ty, nr, sz) & 0xff == nr,
{
    let code = request(dir, ty, nr, sz);
    assert(code >> 30 == dir && (code >> 16) & 0x3fff == sz && (code >> 8) & 0xff == ty && code
        & 0xff == nr) by (bit_vector)
        requires
            code == (dir << 30) | (sz << 16) | (ty << 8) | nr,
            dir < 4,
            ty < 0x100,
            nr < 0x100,
            sz < 0x4000,
    ;
}

/// The requests are those that the kernel headers define.
pub proof fn law_requests()
    ensures
        SECCOMP_IOCTL_NOTIF_RECV == request(IOC_RW, SECCOMP_IOC_MAGIC, 0, NOTIF_SIZE),
        SECCOMP_IOCTL_NOTIF_SEND == request(IOC_RW, SECCOMP_IOC_MAGIC, 1, NOTIF_RESP_SIZE),
        SECCOMP_IOCTL_NOTIF_ID_VALID == request(IOC_WRITE, SECCOMP_IOC_MAGIC, 2, 8),
{
    assert((3u32 << 30) | (80u32 << 16) | (33u32 << 8) | 0u32 == 0xc050_2100u32) by (bit_vector);
    assert((3u32 << 30) | (24u32 << 16) | (33u32 << 8) | 1u32 == 0xc018_2101u32) by (bit_vector);
    assert((1u32 << 30) | (8u32 << 16) | (33u32 << 8) | 2u32 == 0x4008_2102u32) by (bit_vector);
}

/// Whether a notification is answered with a stat of a file, if there is one: where it
/// succeeds and its result can be written to the buffer, the answer is 0 and the result is
/// there with the faked fields overlaid; else the kernel goes on, and nothing is written.
pub open spec fn answers_with(
    outcome: NotifOutcome,
    found: Option<StatBuf>,
    buf: u64,
    world: NotifWorld,
    table: TableView,
) -> bool {
    match found {
        Some(stat) if (world.writable)(buf, reported(table, stat)) => outcome == (
            Response::Value(0),
            Some((buf, reported(table, stat))),
        ),
        _ => outcome == (Response::Continue, None::<(u64, StatBuf)>),
    }
}

/// The supervisor's own stat of the file that a tracee names by the path at an address.
pub open spec fn stat_of_path(
    pid: i32,
    world: NotifWorld,
    dirfd: i32,
    addr: u64,
    follow: bool,
    kind: StatKind,
    mask: u32,
) -> Option<StatBuf> {
    match world.memory.cstring(addr) {
        Err(_) => None,
        Ok(path) => (world.stat)(
            resolved(pid, dirfd, path, false),
            follow || path.len() == 0,
            kind,
            mask,
        ),
    }
}

/// The supervisor's own stat of the file that a descriptor refers to.
pub open spec fn stat_of_fd(
    pid: i32,
    world: NotifWorld,
    fd: i32,
    kind: StatKind,
    mask: u32,
) -> Option<StatBuf> {
    (world.stat)(resolved(pid, fd, Seq::empty(), true), true, kind, mask)
}

/// `stat(path, buf)`, `lstat(path, buf)` and `fstat(fd, buf)` are answered with a stat of
/// the file that the path leads to, that has the name, or that is open.
pub proof fn law_bare_stats(
    arch: Arch,
    pid: i32,
    nr: i64,
    args: Seq<u64>,
    world: NotifWorld,
    table: TableView,
)
    ensures
        ({
            let outcome = run_notification(arch, pid, nr, args, world, table);
            &&& arch == Arch::X86_64 && nr == 4 ==> answers_with(
                outcome,
                stat_of_path(pid, world, AT_FDCWD, args[0], true, StatKind::Native, 0),
                args[1],
                world,
                table,
            )
            &&& arch == Arch::X86_64 && nr == 6 ==> answers_with(
                outcome,
                stat_of_path(pid, world, AT_FDCWD, args[0], false, StatKind::Native, 0),
                args[1],
                world,
                table,
            )
            &&& numbered(arch, nr, 5, 80) ==> answers_with(
                outcome,
                stat_of_fd(pid, world, args[0] as i32, StatKind::Native, 0),
                args[1],
                world,
                table,
            )
        }),
{
    law_number_decodes(arch, Syscall::Stat);
    law_number_decodes(arch, Syscall::Lstat);
    law_number_decodes(arch, Syscall::Fstat);
}

/// `newfstatat(dirfd, path, buf, flags)` and `statx(dirfd, path, flags, mask, buf)` are
/// answered with a stat of the file that the path leads to from the directory. The bit
/// 0x100 of the flags leaves a final symlink alone; the bit 0x1000 makes it the open file.
/// A path that cannot be read is left to the kernel.
pub proof fn law_stats_at(
    arch: Arch,
    pid: i32,
    nr: i64,
    args: Seq<u64>,
    world: NotifWorld,
    table: TableView,
)
    requires
        numbered(arch, nr, 262, 79) || numbered(arch, nr, 332, 291),
    ensures
        ({
            let extended = numbered(arch, nr, 332, 291);
            let flags = if extended {
                args[2]
            } else {
                args[3]
            };
            let kind = if extended {
                StatKind::Statx
            } else {
                StatKind::Native
            };
            let mask = if extended {
                args[3] as u32
            } else {
                0
            };
            let buf = if extended {
                args[4]
            } else {
                args[2]
            };
            let dirfd = args[0] as i32;
            let found = if flags & 0x1000 != 0 && world.memory.cstring(args[1]) is Ok {
                stat_of_fd(pid, world, dirfd, kind, mask)
            } else {
                stat_of_path(pid, world, dirfd, args[1], flags & 0x100 == 0, kind, mask)
            };
            answers_with(
                run_notification(arch, pid, nr, args, world, table),
                found,
                buf,
                world,
                table,
            )
        }),
{
    law_number_decodes(arch, Syscall::Newfstatat);
    law_number_decodes(arch, Syscall::Statx);
    lemma_flags(args[2]);
    lemma_flags(args[3]);
}

/// A notification of any other syscall is left to the kernel.
pub proof fn law_other_notifications(
    arch: Arch,
    pid: i32,
    nr: i64,
    args: Seq<u64>,
    world: NotifWorld,
    table: TableView,
)
    requires
        !numbered(arch, nr, 5, 80),
        !numbered(arch, nr, 262, 79),
        !numbered(arch, nr, 332, 291),
        arch == Arch::X86_64 ==> nr != 4 && nr != 6,
    ensures
        run_notification(arch, pid, nr, args, world, table) == (
            Response::Continue,
            None::<(u64, StatBuf)>,
        ),
{
}

/// A reply answers the notification that it is for. A value is handed back without an
/// error and without flags; to let the kernel go on is the flag 1 and nothing else.
pub proof fn law_replies(id: u64, val: i64)
    ensures
        replied(id, Response::Value(val)) == (Reply { id, val, error: 0, flags: 0 }),
        replied(id, Response::Continue) == (Reply { id, val: 0, error: 0, flags: 1 }),
        responded(true) == Response::Value(0),
        responded(false) == Response::Continue,
{
}

} // verus!
