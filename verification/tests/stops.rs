//! The supervisor at the stops of its tracees.

use fakeroost::arch::{aarch64, riscv64, x86_64, RegAccess};
use fakeroost::error::Error;
use fakeroost::handlers::action::{Disposition, ExitAction};
use fakeroost::supervisor::{ExitStatus, Resumption, Supervisor, Turn, WaitStatus};

const ROOT: i32 = 10;
const CHILD: i32 = 11;

fn regs(nr: i64) -> x86_64::Regs {
    x86_64::Regs {
        orig_rax: nr as u64,
        rax: 0,
        rdi: 1,
        rsi: 2,
        rdx: 3,
        r10: 4,
        r8: 5,
        r9: 6,
    }
}

fn resumed(turn: Turn) -> (i32, Option<i32>) {
    match turn {
        Turn::Resume { pid, signal } => (pid, signal),
        other => panic!("unexpected turn {other:?}"),
    }
}

fn finished(turn: Turn) -> ExitStatus {
    match turn {
        Turn::Finish(status) => status,
        other => panic!("unexpected turn {other:?}"),
    }
}

#[test]
fn first_stops_are_absorbed_once() {
    let mut supervisor = Supervisor::new(ROOT);
    let stop = |pid, signal| Ok(WaitStatus::Stopped { pid, signal });
    match supervisor.on_wait(stop(ROOT, libc::SIGSTOP)) {
        Turn::SetOptions { pid } => assert_eq!(pid, ROOT),
        other => panic!("unexpected turn {other:?}"),
    }
    assert_eq!(resumed(supervisor.on_wait(stop(CHILD, libc::SIGUSR1))), (CHILD, None));
    assert_eq!(
        resumed(supervisor.on_wait(stop(CHILD, libc::SIGUSR1))),
        (CHILD, Some(libc::SIGUSR1))
    );
    assert_eq!(
        resumed(supervisor.on_wait(stop(ROOT, libc::SIGTERM))),
        (ROOT, Some(libc::SIGTERM))
    );
    for signal in [
        libc::SIGSTOP,
        libc::SIGTSTP,
        libc::SIGTTIN,
        libc::SIGTTOU,
        libc::SIGTRAP,
    ] {
        assert_eq!(resumed(supervisor.on_wait(stop(ROOT, signal))), (ROOT, None));
    }
}

#[test]
fn other_events_need_nothing() {
    let mut supervisor = Supervisor::new(ROOT);
    for event in [
        libc::PTRACE_EVENT_FORK,
        libc::PTRACE_EVENT_CLONE,
        libc::PTRACE_EVENT_EXEC,
    ] {
        let turn = supervisor.on_wait(Ok(WaitStatus::PtraceEvent { pid: CHILD, event }));
        assert_eq!(resumed(turn), (CHILD, None));
    }
}

#[test]
fn pending_action_is_applied_once() {
    let mut supervisor = Supervisor::new(ROOT);
    let mut r = regs(39);
    let next = supervisor.on_seccomp(CHILD, Disposition::Step(ExitAction::ZeroOnErr), &mut r);
    assert_eq!(next, Resumption::Step);
    assert_eq!(r, regs(39));
    let other = supervisor.on_wait(Ok(WaitStatus::PtraceSyscall { pid: ROOT }));
    assert_eq!(resumed(other), (ROOT, None));
    match supervisor.on_wait(Ok(WaitStatus::PtraceSyscall { pid: CHILD })) {
        Turn::Apply { pid, action } => {
            assert_eq!(pid, CHILD);
            assert!(matches!(action, ExitAction::ZeroOnErr));
        }
        other => panic!("unexpected turn {other:?}"),
    }
    let again = supervisor.on_wait(Ok(WaitStatus::PtraceSyscall { pid: CHILD }));
    assert_eq!(resumed(again), (CHILD, None));
}

#[test]
fn passthrough_leaves_everything_alone() {
    let mut supervisor = Supervisor::new(ROOT);
    let mut r = regs(39);
    let next = supervisor.on_seccomp(ROOT, Disposition::Passthrough, &mut r);
    assert_eq!(next, Resumption::Continue);
    assert_eq!(r, regs(39));
    let turn = supervisor.on_wait(Ok(WaitStatus::PtraceSyscall { pid: ROOT }));
    assert_eq!(resumed(turn), (ROOT, None));
}

#[test]
fn skipped_syscall_gets_a_number_that_does_not_run() {
    let mut supervisor = Supervisor::new(ROOT);
    let mut r = regs(92);
    let skip = || Disposition::Skip(ExitAction::ForceRet(0));
    assert_eq!(supervisor.on_seccomp(ROOT, skip(), &mut r), Resumption::StoreAndStep);
    assert_eq!(r, x86_64::Regs { orig_rax: u64::MAX, ..regs(92) });

    let mut arm = aarch64::Regs { regs: [9; 31], sysno_override: None };
    assert_eq!(supervisor.on_seccomp(ROOT, skip(), &mut arm), Resumption::StoreAndStep);
    assert_eq!(arm.sysno_override, Some(-1));
    assert_eq!(arm.syscall_no(), -1);

    let mut risc = riscv64::Regs { a0: 0, a1: 1, a2: 2, a3: 3, a4: 4, a5: 5, a7: 54 };
    assert_eq!(supervisor.on_seccomp(ROOT, skip(), &mut risc), Resumption::StoreAndStep);
    assert_eq!(risc.syscall_no(), -1);
    assert_eq!(risc.arg(0), 0);
    assert_eq!(risc.arg(5), 5);
}

#[test]
fn root_status_is_reported_when_the_tree_is_gone() {
    let mut supervisor = Supervisor::new(ROOT);
    for outcome in [
        Ok(WaitStatus::Exited { pid: CHILD, code: 9 }),
        Ok(WaitStatus::Exited { pid: ROOT, code: 0x103 }),
        Ok(WaitStatus::Signaled { pid: CHILD, signal: libc::SIGKILL }),
        Ok(WaitStatus::Other),
        Err(libc::EINTR),
    ] {
        assert!(matches!(supervisor.on_wait(outcome), Turn::Wait));
    }
    let status = finished(supervisor.on_wait(Err(libc::ECHILD)));
    assert_eq!(status.code(), Some(3));
}

#[test]
fn killed_root_has_no_code() {
    let mut supervisor = Supervisor::new(ROOT);
    let killed = WaitStatus::Signaled { pid: ROOT, signal: libc::SIGSEGV };
    assert!(matches!(supervisor.on_wait(Ok(killed)), Turn::Wait));
    let status = finished(supervisor.on_wait(Err(libc::ECHILD)));
    assert_eq!(status, ExitStatus { raw: libc::SIGSEGV });
    assert_eq!(status.code(), None);
}

#[test]
fn supervisor_lends_its_table() {
    let mut supervisor = Supervisor::new(ROOT);
    assert!(supervisor.table().get(1, 2).is_none());
    supervisor.table_mut().entry(1, 2).uid = 9;
    assert!(matches!(supervisor.on_wait(Ok(WaitStatus::Other)), Turn::Wait));
    assert_eq!(supervisor.table().get(1, 2).unwrap().uid, 9);
}

#[test]
fn drained_tree_without_a_status_counts_as_success() {
    let mut supervisor = Supervisor::new(ROOT);
    assert_eq!(finished(supervisor.on_wait(Err(libc::ECHILD))).code(), Some(0));
}

#[test]
fn failed_wait_ends_the_run() {
    let mut supervisor = Supervisor::new(ROOT);
    match supervisor.on_wait(Err(libc::EINVAL)) {
        Turn::Fail(Error::Errno(errno)) => assert_eq!(errno, libc::EINVAL),
        other => panic!("unexpected turn {other:?}"),
    }
}

#[test]
fn registers_are_where_the_abi_says() {
    let mut r = regs(257);
    assert_eq!(r.syscall_no(), 257);
    assert_eq!((0..6).map(|i| r.arg(i)).collect::<Vec<u64>>(), vec![1, 2, 3, 4, 5, 6]);
    r.set_ret(-2);
    assert_eq!(r.ret(), -2);
    assert_eq!(r.arg(0), 1);

    let mut arm = aarch64::Regs { regs: [0; 31], sysno_override: None };
    arm.regs[8] = 54;
    arm.regs[3] = 77;
    assert_eq!((arm.syscall_no(), arm.arg(3)), (54, 77));
    arm.set_ret(5);
    assert_eq!((arm.ret(), arm.regs[0], arm.sysno_override), (5, 5, None));

    let mut risc = riscv64::Regs { a0: 8, a1: 1, a2: 2, a3: 3, a4: 4, a5: 5, a7: 54 };
    risc.set_ret(-1);
    assert_eq!((risc.ret(), risc.syscall_no(), risc.arg(4)), (-1, 54, 4));
}
