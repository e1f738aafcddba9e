//! What is decided about a trapped syscall.

use super::registry::StatKind;
use crate::bytes::strings;
use vstd::prelude::*;

verus! {

/// What to do with a trapped syscall after inspecting its entry.
#[derive(Debug)]
pub enum Disposition {
    /// Let it run normally; no exit handling needed.
    Passthrough,
    /// Let it run, then apply the action at its exit stop.
    Step(ExitAction),
    /// Skip the real syscall (it never executes), then apply the action at its exit.
    Skip(ExitAction),
}

/// Work to perform at a trapped syscall's exit stop.
#[derive(Debug)]
pub enum ExitAction {
    /// Overlay faked ownership onto a stat-family result buffer.
    PatchStat { kind: StatKind, buf: u64 },
    /// Force the return value (used after skipping a syscall).
    ForceRet(i64),
    /// If the real syscall failed, pretend that it succeeded (used for chmod).
    ZeroOnErr,
    /// Zero the (up to three) `uid_t*`/`gid_t*` out-parameters, then return 0
    /// (getresuid/getresgid).
    WriteResId { ptrs: [u64; 3] },
    /// Return a faked value into a getxattr buffer (getxattr/lgetxattr/fgetxattr).
    ReturnXattr { buf: u64, size: u64, value: Vec<u8> },
    /// Merge faked names into a real listxattr result.
    MergeXattrList { buf: u64, size: u64, extra: Vec<Vec<u8>> },
    /// After a successful unlink, rmdir or overwriting rename, drop the record if the
    /// inode's last link is gone (so that a reused inode does not inherit it). The count
    /// is that of the names that it had: a directory has one.
    UnlinkCommit { dev: u64, ino: u64, nlink_before: u64 },
}

/// The mathematical value of an [`ExitAction`].
pub enum ExitActionView {
    PatchStat { kind: StatKind, buf: u64 },
    ForceRet(i64),
    ZeroOnErr,
    WriteResId { ptrs: Seq<u64> },
    ReturnXattr { buf: u64, size: u64, value: Seq<u8> },
    MergeXattrList { buf: u64, size: u64, extra: Seq<Seq<u8>> },
    UnlinkCommit { dev: u64, ino: u64, nlink_before: u64 },
}

/// The mathematical value of a [`Disposition`].
pub enum DispositionView {
    Passthrough,
    Step(ExitActionView),
    Skip(ExitActionView),
}

impl View for ExitAction {
    type V = ExitActionView;

    open spec fn view(&self) -> ExitActionView {
        match self {
            ExitAction::PatchStat { kind, buf } => ExitActionView::PatchStat {
                kind: *kind,
                buf: *buf,
            },
            ExitAction::ForceRet(value) => ExitActionView::ForceRet(*value),
            ExitAction::ZeroOnErr => ExitActionView::ZeroOnErr,
            ExitAction::WriteResId { ptrs } => ExitActionView::WriteResId { ptrs: ptrs@ },
            ExitAction::ReturnXattr { buf, size, value } => ExitActionView::ReturnXattr {
                buf: *buf,
                size: *size,
                value: value@,
            },
            ExitAction::MergeXattrList { buf, size, extra } => ExitActionView::MergeXattrList {
                buf: *buf,
                size: *size,
                extra: strings(extra@),
            },
            ExitAction::UnlinkCommit { dev, ino, nlink_before } => ExitActionView::UnlinkCommit {
                dev: *dev,
                ino: *ino,
                nlink_before: *nlink_before,
            },
        }
    }
}

impl View for Disposition {
    type V = DispositionView;

    open spec fn view(&self) -> DispositionView {
        match self {
            Disposition::Passthrough => DispositionView::Passthrough,
            Disposition::Step(action) => DispositionView::Step(action@),
            Disposition::Skip(action) => DispositionView::Skip(action@),
        }
    }
}

} // verus!
