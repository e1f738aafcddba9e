//! The supervisor: what to do at each stop of the traced processes.
//!
//! Control flow per trapped syscall:
//! 1. The seccomp filter returns `RET_TRACE`, which stops the tracee with a
//!    `PTRACE_EVENT_SECCOMP`: this is the syscall-entry stop.
//! 2. The syscall is inspected. If its result matters, the tracee is stepped to the
//!    syscall-exit stop, where an action is applied; otherwise it just continues.
//!
//! Whoever runs the event loop waits for the traced processes, hands each result to
//! [`Supervisor::on_wait`], and does what the returned [`Turn`] says.

use crate::arch::RegAccess;
use crate::error::{Error, ErrorView};
use crate::handlers::action::{Disposition, DispositionView, ExitAction, ExitActionView};
use crate::table::{OwnershipTable, TableView};
use std::collections::{HashMap, HashSet};
use vstd::prelude::*;
use vstd::std_specs::hash::*;

verus! {

broadcast use group_hash_axioms;

/// The ptrace options for the root tracee: `TRACESECCOMP`, `TRACEFORK`, `TRACEVFORK`,
/// `TRACECLONE`, `TRACEEXEC`, `TRACESYSGOOD` and `EXITKILL`.
pub const PTRACE_OPTIONS: i32 = 0x0010_009f;

/// The ptrace event of a syscall that the seccomp filter traps.
pub const PTRACE_EVENT_SECCOMP: i32 = 7;

/// No traced process is left.
pub const ECHILD: i32 = 10;

/// The wait was interrupted.
pub const EINTR: i32 = 4;

pub const SIGTRAP: i32 = 5;

pub const SIGSTOP: i32 = 19;

pub const SIGTSTP: i32 = 20;

pub const SIGTTIN: i32 = 21;

pub const SIGTTOU: i32 = 22;

/// How a process ended, as a wait status.
#[derive(Clone, Copy, Debug, PartialEq, Eq, Structural)]
pub struct ExitStatus {
    pub raw: i32,
}

impl ExitStatus {
    /// The exit code, where the process was not killed by a signal.
    pub open spec fn exit_code(self) -> Option<i32> {
        if self.raw & 0x7f == 0 {
            Some((self.raw >> 8) & 0xff)
        } else {
            None
        }
    }

    /// The exit code, where the process was not killed by a signal.
    pub fn code(&self) -> (code: Option<i32>)
        ensures
            code == self.exit_code(),
    {
        if self.raw & 0x7f == 0 {
            Some((self.raw >> 8) & 0xff)
        } else {
            None
        }
    }
}

/// What became of a traced process.
#[derive(Clone, Copy, Debug, PartialEq, Eq, Structural)]
pub enum WaitStatus {
    /// It exited with a code.
    Exited { pid: i32, code: i32 },
    /// It was killed by a signal.
    Signaled { pid: i32, signal: i32 },
    /// It is at a ptrace event stop.
    PtraceEvent { pid: i32, event: i32 },
    /// It is at a syscall stop.
    PtraceSyscall { pid: i32 },
    /// It was stopped by a signal.
    Stopped { pid: i32, signal: i32 },
    /// Anything else.
    Other,
}

/// What to do next.
#[derive(Debug)]
pub enum Turn {
    /// Wait again.
    Wait,
    /// The whole process tree has exited; this is how its root ended.
    Finish(ExitStatus),
    /// Give up.
    Fail(Error),
    /// A trapped syscall is about to run: inspect it, then see
    /// [`Supervisor::on_seccomp`].
    Inspect { pid: i32 },
    /// A stepped syscall has returned: apply the action, then resume the tracee.
    Apply { pid: i32, action: ExitAction },
    /// Resume the tracee, with a signal where there is one.
    Resume { pid: i32, signal: Option<i32> },
    /// Set [`PTRACE_OPTIONS`] on the tracee, then resume it.
    SetOptions { pid: i32 },
}

/// How a tracee goes on from a syscall-entry stop.
#[derive(Clone, Copy, Debug, PartialEq, Eq, Structural)]
pub enum Resumption {
    /// Continue it.
    Continue,
    /// Step it to the syscall-exit stop.
    Step,
    /// Store its registers, then step it to the syscall-exit stop.
    StoreAndStep,
}

/// The mathematical value of a [`Turn`].
pub enum TurnView {
    Wait,
    Finish(ExitStatus),
    Fail(ErrorView),
    Inspect { pid: i32 },
    Apply { pid: i32, action: ExitActionView },
    Resume { pid: i32, signal: Option<i32> },
    SetOptions { pid: i32 },
}

impl View for Turn {
    type V = TurnView;

    open spec fn view(&self) -> TurnView {
        match self {
            Turn::Wait => TurnView::Wait,
            Turn::Finish(status) => TurnView::Finish(*status),
            Turn::Fail(e) => TurnView::Fail(e@),
            Turn::Inspect { pid } => TurnView::Inspect { pid: *pid },
            Turn::Apply { pid, action } => TurnView::Apply { pid: *pid, action: action@ },
            Turn::Resume { pid, signal } => TurnView::Resume { pid: *pid, signal: *signal },
            Turn::SetOptions { pid } => TurnView::SetOptions { pid: *pid },
        }
    }
}

/// The state of a supervised run.
pub struct Supervisor {
    root: i32,
    /// Tracees whose initial stop has been absorbed.
    initialized: HashSet<i32>,
    /// The action to apply when a tracee's stepped syscall reaches its exit stop.
    pending: HashMap<i32, ExitAction>,
    /// The fake-ownership table.
    table: OwnershipTable,
    root_status: Option<ExitStatus>,
}

/// The mathematical value of a [`Supervisor`].
#[verifier::ext_equal]
pub struct SupervisorView {
    pub root: i32,
    pub initialized: Set<i32>,
    pub pending: Map<i32, ExitActionView>,
    pub table: TableView,
    pub root_status: Option<ExitStatus>,
}

impl View for Supervisor {
    type V = SupervisorView;

    closed spec fn view(&self) -> SupervisorView {
        SupervisorView {
            root: self.root,
            initialized: self.initialized@,
            pending: self.pending@.map_values(|action: ExitAction| action@),
            table: self.table@,
            root_status: self.root_status,
        }
    }
}

/// The wait status of a process that exited with a code.
pub open spec fn exited_status(code: i32) -> ExitStatus {
    ExitStatus { raw: (code & 0xff) << 8 }
}

/// The wait status of a process that a signal killed.
pub open spec fn signaled_status(signal: i32) -> ExitStatus {
    ExitStatus { raw: signal & 0x7f }
}

/// Whether a stop by a signal is a group stop or an artifact of tracing, rather than a
/// signal on its way to the tracee.
pub open spec fn is_stop_signal(signal: i32) -> bool {
    signal == SIGSTOP || signal == SIGTSTP || signal == SIGTTIN || signal == SIGTTOU || signal
        == SIGTRAP
}

impl SupervisorView {
    /// The start of a run.
    pub open spec fn start(root: i32) -> SupervisorView {
        SupervisorView {
            root,
            initialized: Set::empty(),
            pending: Map::empty(),
            table: Map::empty(),
            root_status: None,
        }
    }

    /// What to do at a ptrace event stop. Fork, vfork, clone and exec events need
    /// nothing: a new child is traced by itself.
    pub open spec fn at_event(self, pid: i32, event: i32) -> TurnView {
        if event == PTRACE_EVENT_SECCOMP {
            TurnView::Inspect { pid }
        } else {
            TurnView::Resume { pid, signal: None }
        }
    }

    /// What to do at a syscall-exit stop, and the state then.
    pub open spec fn at_syscall_exit(self, pid: i32) -> (TurnView, SupervisorView) {
        if self.pending.contains_key(pid) {
            (
                TurnView::Apply { pid, action: self.pending[pid] },
                SupervisorView { pending: self.pending.remove(pid), ..self },
            )
        } else {
            (TurnView::Resume { pid, signal: None }, self)
        }
    }

    /// What to do when a tracee is stopped by a signal, and the state then. The first
    /// stop of every tracee is absorbed, and the root gets its options at it. After
    /// that, a signal on its way to the tracee is delivered.
    pub open spec fn at_signal_stop(self, pid: i32, signal: i32) -> (TurnView, SupervisorView) {
        if !self.initialized.contains(pid) {
            (
                if pid == self.root {
                    TurnView::SetOptions { pid }
                } else {
                    TurnView::Resume { pid, signal: None }
                },
                SupervisorView { initialized: self.initialized.insert(pid), ..self },
            )
        } else if is_stop_signal(signal) {
            (TurnView::Resume { pid, signal: None }, self)
        } else {
            (TurnView::Resume { pid, signal: Some(signal) }, self)
        }
    }

    /// What to do about the result of a wait, and the state then.
    pub open spec fn at_wait(self, outcome: Result<WaitStatus, i32>) -> (TurnView, SupervisorView) {
        match outcome {
            Err(errno) => (
                if errno == ECHILD {
                    TurnView::Finish(
                        match self.root_status {
                            Some(status) => status,
                            None => ExitStatus { raw: 0 },
                        },
                    )
                } else if errno == EINTR {
                    TurnView::Wait
                } else {
                    TurnView::Fail(ErrorView::Errno(errno))
                },
                self,
            ),
            Ok(WaitStatus::Exited { pid, code }) => (
                TurnView::Wait,
                if pid == self.root {
                    SupervisorView { root_status: Some(exited_status(code)), ..self }
                } else {
                    self
                },
            ),
            Ok(WaitStatus::Signaled { pid, signal }) => (
                TurnView::Wait,
                if pid == self.root {
                    SupervisorView { root_status: Some(signaled_status(signal)), ..self }
                } else {
                    self
                },
            ),
            Ok(WaitStatus::PtraceEvent { pid, event }) => (self.at_event(pid, event), self),
            Ok(WaitStatus::PtraceSyscall { pid }) => self.at_syscall_exit(pid),
            Ok(WaitStatus::Stopped { pid, signal }) => self.at_signal_stop(pid, signal),
            Ok(WaitStatus::Other) => (TurnView::Wait, self),
        }
    }

    /// The state after a tracee's syscall entry has been decided.
    pub open spec fn disposed(self, pid: i32, disposition: DispositionView) -> SupervisorView {
        match disposition {
            DispositionView::Passthrough => self,
            DispositionView::Step(action) => SupervisorView {
                pending: self.pending.insert(pid, action),
                ..self
            },
            DispositionView::Skip(action) => SupervisorView {
                pending: self.pending.insert(pid, action),
                ..self
            },
        }
    }
}

/// How a tracee goes on from a syscall-entry stop.
pub open spec fn resumption(disposition: DispositionView) -> Resumption {
    match disposition {
        DispositionView::Passthrough => Resumption::Continue,
        DispositionView::Step(_) => Resumption::Step,
        DispositionView::Skip(_) => Resumption::StoreAndStep,
    }
}

/// Whether `after` are the registers with which a tracee goes on from a syscall-entry
/// stop: a skipped syscall has a number that the kernel does not run, and nothing else
/// about the registers changes.
pub open spec fn prepared<R: RegAccess>(
    before: R,
    disposition: DispositionView,
    after: R,
) -> bool {
    if disposition is Skip {
        &&& R::renumbered(before, (-1) as i64, after)
        &&& after.number() == -1
        &&& after.returned() == before.returned()
        &&& forall|i: int| 0 <= i <= 5 ==> #[trigger] after.argument(i) == before.argument(i)
    } else {
        after == before
    }
}

impl Supervisor {
    /// Starts to supervise the process tree of `root`.
    pub fn new(root: i32) -> (supervisor: Supervisor)
        ensures
            supervisor@ == SupervisorView::start(root),
    {
        let supervisor = Supervisor {
            root,
            initialized: HashSet::new(),
            pending: HashMap::new(),
            table: OwnershipTable::default(),
            root_status: None,
        };
        assert(supervisor@ =~= SupervisorView::start(root));
        supervisor
    }

    /// The fake-ownership table.
    pub fn table(&self) -> (table: &OwnershipTable)
        ensures
            table@ == self@.table,
    {
        &self.table
    }

    /// The fake-ownership table, for the handlers to record in.
    pub fn table_mut(&mut self) -> (table: &mut OwnershipTable)
        ensures
            table@ == old(self)@.table,
            final(self)@ == (SupervisorView { table: final(table)@, ..old(self)@ }),
            final(self)@ == old(self)@.upon(Happening::Recorded(final(table)@)),
    {
        &mut self.table
    }

    /// Decides what to do about the result of waiting for any traced process: a status
    /// or an `errno`.
    pub fn on_wait(&mut self, outcome: Result<WaitStatus, i32>) -> (turn: Turn)
        ensures
            turn@ == old(self)@.at_wait(outcome).0,
            final(self)@ == old(self)@.at_wait(outcome).1,
    {
        let status = match outcome {
            Ok(status) => status,
            Err(errno) => {
                if errno == ECHILD {
                    // If the tree drained without the root's status, assume success.
                    return Turn::Finish(
                        match self.root_status {
                            Some(status) => status,
                            None => ExitStatus { raw: 0 },
                        },
                    );
                }
                if errno == EINTR {
                    return Turn::Wait;
                }
                return Turn::Fail(Error::Errno(errno));
            },
        };
        match status {
            WaitStatus::Exited { pid, code } => {
                if pid == self.root {
                    self.root_status = Some(ExitStatus { raw: (code & 0xff) << 8 });
                }
                Turn::Wait
            },
            WaitStatus::Signaled { pid, signal } => {
                if pid == self.root {
                    self.root_status = Some(ExitStatus { raw: signal & 0x7f });
                }
                Turn::Wait
            },
            WaitStatus::PtraceEvent { pid, event } => self.on_event(pid, event),
            WaitStatus::PtraceSyscall { pid } => self.on_syscall_exit(pid),
            WaitStatus::Stopped { pid, signal } => self.on_signal_stop(pid, signal),
            WaitStatus::Other => Turn::Wait,
        }
    }

    fn on_event(&self, pid: i32, event: i32) -> (turn: Turn)
        ensures
            turn@ == self@.at_event(pid, event),
    {
        if event == PTRACE_EVENT_SECCOMP {
            Turn::Inspect { pid }
        } else {
            Turn::Resume { pid, signal: None }
        }
    }

    fn on_syscall_exit(&mut self, pid: i32) -> (turn: Turn)
        ensures
            turn@ == old(self)@.at_syscall_exit(pid).0,
            final(self)@ == old(self)@.at_syscall_exit(pid).1,
    {
        let taken = self.pending.remove(&pid);
        assert(self@.pending =~= old(self)@.pending.remove(pid));
        match taken {
            Some(action) => Turn::Apply { pid, action },
            None => {
                assert(self@.pending =~= old(self)@.pending);
                Turn::Resume { pid, signal: None }
            },
        }
    }

    fn on_signal_stop(&mut self, pid: i32, signal: i32) -> (turn: Turn)
        ensures
            turn@ == old(self)@.at_signal_stop(pid, signal).0,
            final(self)@ == old(self)@.at_signal_stop(pid, signal).1,
    {
        if self.initialized.insert(pid) {
            if pid == self.root {
                return Turn::SetOptions { pid };
            }
            return Turn::Resume { pid, signal: None };
        }
        assert(self@.initialized =~= old(self)@.initialized);
        if signal == SIGSTOP || signal == SIGTSTP || signal == SIGTTIN || signal == SIGTTOU
            || signal == SIGTRAP {
            Turn::Resume { pid, signal: None }
        } else {
            Turn::Resume { pid, signal: Some(signal) }
        }
    }

    /// Carries out what was decided about a tracee's syscall entry: a skipped syscall's
    /// number becomes one that the kernel does not run, and an action for the exit stop
    /// is kept.
    pub fn on_seccomp<R: RegAccess>(
        &mut self,
        pid: i32,
        disposition: Disposition,
        regs: &mut R,
    ) -> (next: Resumption)
        ensures
            next == resumption(disposition@),
            final(self)@ == old(self)@.disposed(pid, disposition@),
            prepared(*old(regs), disposition@, *final(regs)),
    {
        match disposition {
            Disposition::Passthrough => Resumption::Continue,
            Disposition::Step(action) => {
                self.pending.insert(pid, action);
                assert(self@.pending =~= old(self)@.pending.insert(pid, action@));
                Resumption::Step
            },
            Disposition::Skip(action) => {
                regs.set_syscall_no(-1);
                self.pending.insert(pid, action);
                assert(self@.pending =~= old(self)@.pending.insert(pid, action@));
                Resumption::StoreAndStep
            },
        }
    }
}

/// Something that happens in a supervised run.
pub enum Happening {
    /// A wait has returned.
    Waited(Result<WaitStatus, i32>),
    /// A syscall entry has been decided.
    Decided { pid: i32, disposition: DispositionView },
    /// A handler has changed the ownership table.
    Recorded(TableView),
}

impl Happening {
    /// Whether this is the end of a process.
    pub open spec fn ends(self, pid: i32) -> bool {
        match self {
            Happening::Waited(Ok(WaitStatus::Exited { pid: ended, .. })) => ended == pid,
            Happening::Waited(Ok(WaitStatus::Signaled { pid: ended, .. })) => ended == pid,
            _ => false,
        }
    }

    /// Whether this is about a process at all.
    pub open spec fn concerns(self, pid: i32) -> bool {
        match self {
            Happening::Waited(Ok(WaitStatus::Exited { pid: other, .. })) => other == pid,
            Happening::Waited(Ok(WaitStatus::Signaled { pid: other, .. })) => other == pid,
            Happening::Waited(Ok(WaitStatus::PtraceEvent { pid: other, .. })) => other == pid,
            Happening::Waited(Ok(WaitStatus::PtraceSyscall { pid: other })) => other == pid,
            Happening::Waited(Ok(WaitStatus::Stopped { pid: other, .. })) => other == pid,
            Happening::Decided { pid: other, .. } => other == pid,
            _ => false,
        }
    }
}

impl SupervisorView {
    /// The state after something has happened.
    pub open spec fn upon(self, what: Happening) -> SupervisorView {
        match what {
            Happening::Waited(outcome) => self.at_wait(outcome).1,
            Happening::Decided { pid, disposition } => self.disposed(pid, disposition),
            Happening::Recorded(table) => SupervisorView { table, ..self },
        }
    }

    /// The state after some things have happened, one after the other.
    pub open spec fn after(self, run: Seq<Happening>) -> SupervisorView
        decreases run.len(),
    {
        if run.len() == 0 {
            self
        } else {
            self.after(run.drop_last()).upon(run.last())
        }
    }
}

/// The root stays the same, tracees that were stopped before stay known, and the root's
/// status is kept until it is reported anew.
proof fn lemma_run_keeps(start: SupervisorView, run: Seq<Happening>)
    ensures
        start.after(run).root == start.root,
        start.initialized.subset_of(start.after(run).initialized),
        (forall|i: int| 0 <= i < run.len() ==> !(#[trigger] run[i]).ends(start.root))
            ==> start.after(run).root_status == start.root_status,
    decreases run.len(),
{
    if run.len() > 0 {
        lemma_run_keeps(start, run.drop_last());
        assert(!run[run.len() - 1].ends(start.root) ==> !run.last().ends(start.root));
        assert forall|i: int| 0 <= i < run.len() - 1 implies (#[trigger] run.drop_last()[i])
            == run[i] by {}
    }
}

/// The supervisor reports the root's own exit status, whatever the rest of the process
/// tree does before it is gone.
pub proof fn law_root_status_is_reported(start: SupervisorView, code: i32, run: Seq<Happening>)
    requires
        forall|i: int| 0 <= i < run.len() ==> !(#[trigger] run[i]).ends(start.root),
    ensures
        start.upon(Happening::Waited(Ok(WaitStatus::Exited { pid: start.root, code }))).after(
            run,
        ).at_wait(Err(ECHILD)).0 == TurnView::Finish(exited_status(code)),
{
    let ended = start.upon(Happening::Waited(Ok(WaitStatus::Exited { pid: start.root, code })));
    lemma_run_keeps(ended, run);
}

/// The supervisor reports the signal that killed the root, whatever the rest of the
/// process tree does before it is gone.
pub proof fn law_root_signal_is_reported(start: SupervisorView, signal: i32, run: Seq<Happening>)
    requires
        forall|i: int| 0 <= i < run.len() ==> !(#[trigger] run[i]).ends(start.root),
    ensures
        start.upon(Happening::Waited(Ok(WaitStatus::Signaled { pid: start.root, signal }))).after(
            run,
        ).at_wait(Err(ECHILD)).0 == TurnView::Finish(signaled_status(signal)),
{
    let ended = start.upon(Happening::Waited(Ok(WaitStatus::Signaled { pid: start.root, signal })));
    lemma_run_keeps(ended, run);
}

/// A run whose root was never seen to end is taken to have succeeded.
pub proof fn law_unseen_end_is_success(root: i32, run: Seq<Happening>)
    requires
        forall|i: int| 0 <= i < run.len() ==> !(#[trigger] run[i]).ends(root),
    ensures
        SupervisorView::start(root).after(run).at_wait(Err(ECHILD)).0 matches TurnView::Finish(
            status,
        ) && status.exit_code() == Some(0i32),
{
    lemma_run_keeps(SupervisorView::start(root), run);
    assert(0i32 & 0x7f == 0) by (bit_vector);
    assert((0i32 >> 8) & 0xff == 0) by (bit_vector);
}

/// The first stop of every tracee is absorbed: it is resumed without a signal, and the
/// root gets its options. It happens once: after that, whatever happens, a signal on its
/// way to the tracee is delivered, and a group stop is not.
pub proof fn law_first_stop_is_absorbed_once(
    start: SupervisorView,
    pid: i32,
    first: i32,
    run: Seq<Happening>,
    signal: i32,
)
    requires
        !start.initialized.contains(pid),
    ensures
        start.at_signal_stop(pid, first).0 == (if pid == start.root {
            TurnView::SetOptions { pid }
        } else {
            TurnView::Resume { pid, signal: None }
        }),
        start.at_signal_stop(pid, first).1.after(run).at_signal_stop(pid, signal).0
            == (TurnView::Resume {
            pid,
            signal: if is_stop_signal(signal) {
                None
            } else {
                Some(signal)
            },
        }),
{
    lemma_run_keeps(start.at_signal_stop(pid, first).1, run);
}

/// What happens to other tracees leaves a tracee's pending action alone.
proof fn lemma_others_keep_pending(start: SupervisorView, pid: i32, run: Seq<Happening>)
    requires
        forall|i: int| 0 <= i < run.len() ==> !(#[trigger] run[i]).concerns(pid),
    ensures
        start.after(run).pending.contains_key(pid) == start.pending.contains_key(pid),
        start.pending.contains_key(pid) ==> start.after(run).pending[pid] == start.pending[pid],
    decreases run.len(),
{
    if run.len() > 0 {
        assert forall|i: int| 0 <= i < run.len() - 1 implies !(
        #[trigger] run.drop_last()[i]).concerns(pid) by {
            assert(run.drop_last()[i] == run[i]);
        }
        lemma_others_keep_pending(start, pid, run.drop_last());
        assert(!run[run.len() - 1].concerns(pid));
    }
}

/// A stepped or skipped syscall gets the action that was decided for it at its exit
/// stop, whatever other tracees do in between, and gets it once.
pub proof fn law_pending_action_is_applied_once(
    start: SupervisorView,
    pid: i32,
    disposition: DispositionView,
    run: Seq<Happening>,
)
    requires
        forall|i: int| 0 <= i < run.len() ==> !(#[trigger] run[i]).concerns(pid),
    ensures
        ({
            let (turn, then) = start.disposed(pid, disposition).after(run).at_syscall_exit(pid);
            &&& disposition matches DispositionView::Step(action) ==> turn == (TurnView::Apply {
                pid,
                action,
            })
            &&& disposition matches DispositionView::Skip(action) ==> turn == (TurnView::Apply {
                pid,
                action,
            })
            &&& then.at_syscall_exit(pid).0 == (TurnView::Resume { pid, signal: None })
        }),
{
    lemma_others_keep_pending(start.disposed(pid, disposition), pid, run);
}

/// Waiting never changes the ownership table: only the handlers record anything.
pub proof fn law_waiting_records_nothing(state: SupervisorView, outcome: Result<WaitStatus, i32>)
    ensures
        state.at_wait(outcome).1.table == state.table,
{
}

/// An exit code is reported as it is, up to its low eight bits; a process that was
/// killed by a signal has none.
pub proof fn law_exit_codes(code: i32, signal: i32)
    requires
        0 < signal < 0x7f,
    ensures
        exited_status(code).exit_code() == Some(code & 0xff),
        0 <= code <= 0xff ==> exited_status(code).exit_code() == Some(code),
        signaled_status(signal).exit_code() is None,
{
    assert(((code & 0xff) << 8) & 0x7f == 0) by (bit_vector);
    assert((((code & 0xff) << 8) >> 8) & 0xff == code & 0xff) by (bit_vector);
    assert(0 <= code <= 0xff ==> code & 0xff == code) by (bit_vector);
    assert((signal & 0x7f) & 0x7f != 0) by (bit_vector)
        requires
            0 < signal < 0x7f,
    ;
}

/// After a tracee's first stop, whatever has happened since, a stop by a signal is resumed
/// without a signal exactly where the signal is SIGTRAP (5), SIGSTOP (19), SIGTSTP (20),
/// SIGTTIN (21) or SIGTTOU (22), and with that very signal for every other number.
pub proof fn law_signals_are_delivered(
    start: SupervisorView,
    pid: i32,
    run: Seq<Happening>,
    signal: i32,
)
    requires
        start.initialized.contains(pid),
    ensures
        ({
            let state = start.after(run);
            let (turn, then) = state.at_wait(Ok(WaitStatus::Stopped { pid, signal }));
            &&& then == state
            &&& turn == if signal == 5 || signal == 19 || signal == 20 || signal == 21 || signal
                == 22 {
                TurnView::Resume { pid, signal: None }
            } else {
                TurnView::Resume { pid, signal: Some(signal) }
            }
        }),
{
    lemma_run_keeps(start, run);
}

/// The first stop of a tracee, by any signal, is absorbed, and the tracee is known from
/// then on. The root, and no other, gets its options at it.
pub proof fn law_first_stops(state: SupervisorView, pid: i32, signal: i32)
    requires
        !state.initialized.contains(pid),
    ensures
        ({
            let (turn, then) = state.at_wait(Ok(WaitStatus::Stopped { pid, signal }));
            &&& turn == if pid == state.root {
                TurnView::SetOptions { pid }
            } else {
                TurnView::Resume { pid, signal: None }
            }
            &&& then.initialized == state.initialized.insert(pid)
            &&& then.root == state.root
            &&& then.pending == state.pending
            &&& then.table == state.table
            &&& then.root_status == state.root_status
        }),
{
}

/// A trapped syscall (the ptrace event 7) is inspected; a tracee at any other event is
/// resumed. Neither changes the state.
pub proof fn law_events(state: SupervisorView, pid: i32, event: i32)
    ensures
        state.at_wait(Ok(WaitStatus::PtraceEvent { pid, event })) == (
            if event == 7 {
                TurnView::Inspect { pid }
            } else {
                TurnView::Resume { pid, signal: None }
            },
            state,
        ),
{
}

/// At a syscall-exit stop the action that is pending for the tracee is applied and no
/// longer pending; without one the tracee is resumed. Nothing else changes.
pub proof fn law_syscall_exits(state: SupervisorView, pid: i32)
    ensures
        ({
            let (turn, then) = state.at_wait(Ok(WaitStatus::PtraceSyscall { pid }));
            &&& turn == if state.pending.contains_key(pid) {
                TurnView::Apply { pid, action: state.pending[pid] }
            } else {
                TurnView::Resume { pid, signal: None }
            }
            &&& then.pending == state.pending.remove(pid)
            &&& then.initialized == state.initialized
            &&& then.root == state.root
            &&& then.table == state.table
            &&& then.root_status == state.root_status
        }),
{
    assert(!state.pending.contains_key(pid) ==> state.pending.remove(pid) =~= state.pending);
}

/// The end of a process is waited on from; only that of the root is remembered. A wait
/// that was interrupted (4) is repeated, and any failure but that there is no process left
/// (10) ends the run with its error number.
pub proof fn law_ends_and_failures(state: SupervisorView, pid: i32, code: i32, errno: i32)
    ensures
        state.at_wait(Ok(WaitStatus::Exited { pid, code })).0 == TurnView::Wait,
        state.at_wait(Ok(WaitStatus::Signaled { pid, signal: code })).0 == TurnView::Wait,
        pid != state.root ==> state.at_wait(Ok(WaitStatus::Exited { pid, code })).1 == state,
        pid != state.root ==> state.at_wait(Ok(WaitStatus::Signaled { pid, signal: code })).1
            == state,
        state.at_wait(Ok(WaitStatus::Other)) == (TurnView::Wait, state),
        state.at_wait(Err(errno)).1 == state,
        errno == 4 ==> state.at_wait(Err(errno)).0 == TurnView::Wait,
        errno == 10 ==> state.at_wait(Err(errno)).0 is Finish,
        errno != 4 && errno != 10 ==> state.at_wait(Err(errno)).0 == TurnView::Fail(
            ErrorView::Errno(errno),
        ),
{
}

/// How a tracee goes on from a syscall entry: a syscall that passes through runs to its
/// end; one that is stepped or skipped stops at its exit, where its action waits for it.
/// Only a skipped one gets another number, -1, which the kernel does not run.
pub proof fn law_entries<R: RegAccess>(
    state: SupervisorView,
    pid: i32,
    action: ExitActionView,
    before: R,
    after: R,
)
    ensures
        resumption(DispositionView::Passthrough) == Resumption::Continue,
        resumption(DispositionView::Step(action)) == Resumption::Step,
        resumption(DispositionView::Skip(action)) == Resumption::StoreAndStep,
        state.disposed(pid, DispositionView::Passthrough) == state,
        state.disposed(pid, DispositionView::Step(action)) == (SupervisorView {
            pending: state.pending.insert(pid, action),
            ..state
        }),
        state.disposed(pid, DispositionView::Skip(action)) == (SupervisorView {
            pending: state.pending.insert(pid, action),
            ..state
        }),
        prepared(before, DispositionView::Passthrough, after) ==> after == before,
        prepared(before, DispositionView::Step(action), after) ==> after == before,
        prepared(before, DispositionView::Skip(action), after) ==> after.number() == -1
            && after.returned() == before.returned() && forall|i: int|
            0 <= i <= 5 ==> #[trigger] after.argument(i) == before.argument(i),
{
}

/// A wait status holds an exit code in its second byte, with the first byte 0, and a
/// signal in its first byte.
pub proof fn law_wait_statuses(code: i32, signal: i32, status: ExitStatus)
    requires
        0 <= code <= 0xff,
        0 < signal < 0x7f,
    ensures
        exited_status(code).raw == code * 0x100,
        signaled_status(signal).raw == signal,
        status.raw == code * 0x100 ==> status.exit_code() == Some(code),
        status.raw == signal ==> status.exit_code() is None,
{
    let raw = status.raw;
    assert((code & 0xff) << 8 == code * 0x100 && signal & 0x7f == signal && (raw == code * 0x100
        ==> raw & 0x7f == 0 && (raw >> 8) & 0xff == code) && (raw == signal ==> raw & 0x7f != 0))
        by (bit_vector)
        requires
            0 <= code <= 0xff,
            0 < signal < 0x7f,
    ;
}

/// A run starts with no tracee known, nothing pending, nothing recorded and no status.
pub proof fn law_start(root: i32)
    ensures
        SupervisorView::start(root).root == root,
        forall|pid: i32| !(#[trigger] SupervisorView::start(root).initialized.contains(pid)),
        forall|pid: i32| !(#[trigger] SupervisorView::start(root).pending.contains_key(pid)),
        forall|dev: u64, ino: u64|
            !(#[trigger] SupervisorView::start(root).table.contains_key((dev, ino))),
        SupervisorView::start(root).root_status is None,
{
}

/// A wait status whose first seven bits are 0 has its exit code in its second byte; any
/// other has none.
pub proof fn law_exit_codes_of_statuses(status: ExitStatus)
    requires
        status.raw >= 0,
    ensures
        status.exit_code() == if status.raw as int % 128 == 0 {
            Some((status.raw as int / 256 % 256) as i32)
        } else {
            None
        },
{
    let raw = status.raw;
    let bits = raw as u32;
    assert(raw & 0x7f == bits & 0x7f && (raw >> 8) & 0xff == (bits >> 8) & 0xff) by (bit_vector)
        requires
            raw >= 0,
            bits == raw as u32,
    ;
    assert(bits & 0x7f == bits % 128 && (bits >> 8) & 0xff == bits / 256 % 256) by (bit_vector);
}

} // verus!
