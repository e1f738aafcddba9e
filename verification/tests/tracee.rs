//! Reading a tracee's memory, and naming the files that it means.

use fakeroost::error::Error;
use fakeroost::mem::{read, read_cstring, CStringStep};
use fakeroost::path::{resolve_path, stat_target, AT_FDCWD};

fn resolve(pid: i32, dirfd: i32, path: &str, empty: bool) -> String {
    String::from_utf8(resolve_path(pid, dirfd, path.as_bytes(), empty)).unwrap()
}

fn text_of(error: Error) -> String {
    match error {
        Error::Other(text) => text,
        other => panic!("unexpected error {other:?}"),
    }
}

#[test]
fn paths_are_resolved_through_proc() {
    assert_eq!(resolve(42, AT_FDCWD, "a/b", false), "/proc/42/cwd/a/b");
    assert_eq!(resolve(42, 7, "a", false), "/proc/42/fd/7/a");
    assert_eq!(resolve(42, 7, "/etc/passwd", false), "/proc/42/root/etc/passwd");
    assert_eq!(resolve(42, AT_FDCWD, "/", false), "/proc/42/root/");
    assert_eq!(resolve(42, AT_FDCWD, "//a//b/", false), "/proc/42/root/a//b");
}

#[test]
fn descriptors_are_their_own_target() {
    assert_eq!(resolve(42, 7, "", true), "/proc/42/fd/7");
    assert_eq!(resolve(42, 7, "", false), "/proc/42/fd/7");
    assert_eq!(resolve(42, 7, "ignored", true), "/proc/42/fd/7");
    assert_eq!(resolve(42, AT_FDCWD, "", true), "/proc/42/cwd");
}

#[test]
fn links_are_followed_unless_asked_not_to() {
    assert!(stat_target(42, AT_FDCWD, b"a", false, false).follow);
    assert!(!stat_target(42, AT_FDCWD, b"a", true, false).follow);
    assert!(stat_target(42, 3, b"", true, true).follow);
    assert!(stat_target(42, 3, b"", true, false).follow);
    assert!(stat_target(42, AT_FDCWD, b"", true, false).follow);
    assert!(stat_target(42, 3, b"x", true, true).follow);
    assert_eq!(
        stat_target(42, 3, b"x", true, false).path,
        b"/proc/42/fd/3/x".to_vec()
    );
}

#[test]
fn strings_end_at_their_nul() {
    let scan = read_cstring(0x1000);
    assert_eq!(scan.chunk(), 256);
    match scan.feed(&[97, 98, 0, 99]).unwrap() {
        CStringStep::Whole(text) => assert_eq!(text, vec![97, 98]),
        CStringStep::More(_) => panic!("the string has ended"),
    }
}

#[test]
fn strings_are_read_up_to_page_boundaries() {
    let scan = read_cstring(0x1ffd);
    assert_eq!(scan.chunk(), 3);
    let scan = match scan.feed(&[97, 98, 99]).unwrap() {
        CStringStep::More(scan) => scan,
        CStringStep::Whole(_) => panic!("the string goes on"),
    };
    assert_eq!(scan.addr, 0x2000);
    assert_eq!(scan.chunk(), 256);
    match scan.feed(&[100, 0]).unwrap() {
        CStringStep::Whole(text) => assert_eq!(text, vec![97, 98, 99, 100]),
        CStringStep::More(_) => panic!("the string has ended"),
    }
}

#[test]
fn overlong_strings_are_refused() {
    let mut scan = read_cstring(0x1000);
    for _ in 0..16 {
        scan = match scan.feed(&[97; 256]).unwrap() {
            CStringStep::More(scan) => scan,
            CStringStep::Whole(_) => panic!("the string goes on"),
        };
    }
    assert_eq!(scan.text.len(), 4096);
    let error = scan.feed(&[97; 256]).unwrap_err();
    assert_eq!(text_of(error), "path from tracee exceeds PATH_MAX");
}

#[test]
fn short_transfers_are_errors() {
    assert!(read(Ok(8), 8).is_ok());
    assert!(fakeroost::mem::write(Ok(0), 0).is_ok());
    assert_eq!(
        text_of(read(Ok(5), 128).unwrap_err()),
        "short read from tracee: 5/128 bytes"
    );
    assert_eq!(
        text_of(fakeroost::mem::write(Ok(0), 10).unwrap_err()),
        "short write to tracee: 0/10 bytes"
    );
    match read(Err(libc::EFAULT), 4) {
        Err(Error::Errno(errno)) => assert_eq!(errno, libc::EFAULT),
        other => panic!("unexpected result {other:?}"),
    }
    match fakeroost::mem::write(Err(libc::ESRCH), 4) {
        Err(Error::Errno(errno)) => assert_eq!(errno, libc::ESRCH),
        other => panic!("unexpected result {other:?}"),
    }
}
