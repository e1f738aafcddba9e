//! Rewriting a command, and reading it back as its supervisor.

use fakeroost::command::{exit_code, is_supervisor, CommandSpec, Spawn, SUPERVISE_VAR};
use fakeroost::error::Error;
use fakeroost::supervisor::ExitStatus;

fn bytes(text: &str) -> Vec<u8> {
    text.as_bytes().to_vec()
}

fn list(items: &[&str]) -> Vec<Vec<u8>> {
    items.iter().map(|item| bytes(item)).collect()
}

fn env(items: &[(&str, &str)]) -> Vec<(Vec<u8>, Vec<u8>)> {
    items.iter().map(|(k, v)| (bytes(k), bytes(v))).collect()
}

fn text_of(error: Error) -> String {
    match error {
        Error::Other(text) => text,
        other => panic!("unexpected error {other:?}"),
    }
}

#[test]
fn fakeroot_keeps_the_command_and_marks_the_supervisor() {
    let make = CommandSpec {
        program: bytes("make"),
        args: list(&["install", "-j4"]),
        envs: vec![
            (bytes("DESTDIR"), Some(bytes("/tmp/x"))),
            (bytes("LANG"), None),
        ],
        current_dir: Some(bytes("/src")),
    };
    let faked = make.fakeroot();
    assert_eq!(faked.program, bytes("/proc/self/exe"));
    assert_eq!(faked.args, list(&["make", "install", "-j4"]));
    assert_eq!(
        faked.envs,
        vec![
            (bytes(SUPERVISE_VAR), Some(bytes("1"))),
            (bytes("DESTDIR"), Some(bytes("/tmp/x"))),
            (bytes("LANG"), None),
        ]
    );
    assert_eq!(faked.current_dir, Some(bytes("/src")));
}

#[test]
fn supervisor_runs_the_original_command() {
    let whoami = CommandSpec {
        program: bytes("whoami"),
        args: vec![],
        envs: vec![],
        current_dir: None,
    };
    let faked = whoami.fakeroot();
    assert_eq!(faked.current_dir, None);
    let own = env(&[("PATH", "/bin"), ("__FAKEROOST_SUPERVISE", "1"), ("A", "b=c")]);
    assert!(is_supervisor(&own));
    let spawn = Spawn::from_command_line(faked.args, &own).unwrap();
    assert_eq!(spawn.program, bytes("whoami"));
    assert_eq!(spawn.argv, list(&["whoami"]));
    assert_eq!(spawn.env, list(&["PATH=/bin", "A=b=c"]));
}

#[test]
fn ordinary_process_is_no_supervisor() {
    assert!(!is_supervisor(&env(&[])));
    assert!(!is_supervisor(&env(&[
        ("__FAKEROOST_SUPERVISE_", "1"),
        ("__FAKEROOST", "1"),
        ("X", "__FAKEROOST_SUPERVISE"),
    ])));
    assert!(is_supervisor(&env(&[("__FAKEROOST_SUPERVISE", "")])));
}

#[test]
fn command_line_without_a_program_is_refused() {
    let error = Spawn::from_command_line(vec![], &env(&[])).unwrap_err();
    assert_eq!(text_of(error), "no program given to fakeroot supervisor");
}

#[test]
fn command_line_with_a_nul_is_refused() {
    let args = vec![bytes("sh"), vec![65, 0, 66]];
    let error = Spawn::from_command_line(args, &env(&[])).unwrap_err();
    assert_eq!(text_of(error), "command component contains a NUL byte");
}

#[test]
fn environment_entries_with_a_nul_are_dropped() {
    let own = vec![
        (bytes("GOOD"), bytes("1")),
        (bytes("BAD"), vec![65, 0]),
        (vec![0], bytes("x")),
        (bytes("EMPTY"), vec![]),
    ];
    let spawn = Spawn::from_command_line(list(&["true"]), &own).unwrap();
    assert_eq!(spawn.env, list(&["GOOD=1", "EMPTY="]));
}

#[test]
fn exit_codes_are_passed_on() {
    assert_eq!(exit_code(&Ok(ExitStatus { raw: 0 })), 0);
    assert_eq!(exit_code(&Ok(ExitStatus { raw: 42 << 8 })), 42);
    assert_eq!(exit_code(&Ok(ExitStatus { raw: libc::SIGKILL })), 1);
    assert_eq!(exit_code(&Err(Error::Errno(libc::EPERM))), 1);
    assert_eq!(exit_code(&Err(Error::Io("gone".to_string()))), 1);
}
