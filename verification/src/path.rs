//! Resolving a tracee-relative `(dirfd, path)` to a path that the supervisor can
//! `stat`, through the kernel's magic symlinks under `/proc/<pid>/`.
//!
//! Everything is resolved relative to the tracee's own `/proc/<pid>/{root,cwd,fd/N}`,
//! so that the kernel takes care of dirfds, `O_PATH` descriptors and chroots.

use crate::bytes::{ascii, push_ascii, push_signed, signed_decimal};
use vstd::prelude::*;

verus! {

/// The directory descriptor that stands for the working directory.
pub const AT_FDCWD: i32 = -100;

/// The character `/`.
pub const SLASH: u8 = 47;

/// The character `.`.
pub const DOT: u8 = 46;

/// The real metadata of a resolved target.
#[derive(Clone, Copy, Debug, PartialEq, Eq, Structural)]
pub struct RealStat {
    pub dev: u64,
    pub ino: u64,
    pub mode: u32,
    pub nlink: u64,
}

/// `/proc/<pid>`.
pub open spec fn proc_dir(pid: i32) -> Seq<u8> {
    ascii("/proc/"@) + signed_decimal(pid as int)
}

/// The name, under `/proc/<pid>`, of what a directory descriptor refers to.
pub open spec fn anchor(pid: i32, dirfd: i32) -> Seq<u8> {
    if dirfd == AT_FDCWD {
        proc_dir(pid) + ascii("/cwd"@)
    } else {
        proc_dir(pid) + ascii("/fd/"@) + signed_decimal(dirfd as int)
    }
}

/// Whether the first byte of a path belongs to no component worth keeping: it is a
/// separator, or it is a whole `.` component.
pub open spec fn idle_front(path: Seq<u8>) -> bool {
    path.len() > 0 && (path[0] == SLASH || path[0] == DOT && (path.len() == 1 || path[1] == SLASH))
}

/// Whether the last byte of a path belongs to no component worth keeping: it is a
/// separator, or it is a whole `.` component.
pub open spec fn idle_back(path: Seq<u8>) -> bool {
    path.len() > 0 && (path.last() == SLASH || path.last() == DOT && (path.len() == 1
        || path[path.len() - 2] == SLASH))
}

/// A path without its leading separators and `.` components.
pub open spec fn trim_front(path: Seq<u8>) -> Seq<u8>
    decreases path.len(),
{
    if idle_front(path) {
        trim_front(path.skip(1))
    } else {
        path
    }
}

/// A path without its trailing separators and `.` components.
pub open spec fn trim_back(path: Seq<u8>) -> Seq<u8>
    decreases path.len(),
{
    if idle_back(path) {
        trim_back(path.drop_last())
    } else {
        path
    }
}

/// An absolute path, relative to the root directory.
pub open spec fn below_root(path: Seq<u8>) -> Seq<u8> {
    trim_back(trim_front(path))
}

/// The path under `/proc/<pid>` that names the file that a tracee means by
/// `(dirfd, path)`. With `empty`, or where the path is empty, the target is the
/// descriptor itself.
pub open spec fn resolved(pid: i32, dirfd: i32, path: Seq<u8>, empty: bool) -> Seq<u8> {
    if is_descriptor(path, empty) {
        anchor(pid, dirfd)
    } else if path[0] == SLASH {
        proc_dir(pid) + ascii("/root/"@) + below_root(path)
    } else {
        anchor(pid, dirfd) + ascii("/"@) + path
    }
}

/// Whether the target is a directory descriptor itself.
pub open spec fn is_descriptor(path: Seq<u8>, empty: bool) -> bool {
    empty || path.len() == 0
}

/// Whether a final symlink is followed: it is unless `nofollow` asks not to, and always
/// where the target is a descriptor, so that it is the file that the descriptor refers
/// to.
pub open spec fn follows(nofollow: bool, descriptor: bool) -> bool {
    descriptor || !nofollow
}

/// The path to look up for a target, and whether a final symlink is followed.
pub open spec fn target_query(
    pid: i32,
    dirfd: i32,
    path: Seq<u8>,
    nofollow: bool,
    empty: bool,
) -> (Seq<u8>, bool) {
    (resolved(pid, dirfd, path, empty), follows(nofollow, is_descriptor(path, empty)))
}

/// A `stat` (or, without `follow`, an `lstat`) to perform.
#[derive(Debug)]
pub struct StatQuery {
    pub path: Vec<u8>,
    pub follow: bool,
}

/// Appends `/proc/<pid>`.
fn push_proc(out: &mut Vec<u8>, pid: i32)
    ensures
        final(out)@ == old(out)@ + proc_dir(pid),
{
    proof {
        reveal_strlit("/proc/");
    }
    push_ascii(out, "/proc/");
    push_signed(out, pid);
}

/// Appends the name of what a directory descriptor refers to.
fn push_anchor(out: &mut Vec<u8>, pid: i32, dirfd: i32)
    ensures
        final(out)@ == old(out)@ + anchor(pid, dirfd),
{
    proof {
        reveal_strlit("/cwd");
        reveal_strlit("/fd/");
    }
    push_proc(out, pid);
    if dirfd == AT_FDCWD {
        push_ascii(out, "/cwd");
    } else {
        push_ascii(out, "/fd/");
        push_signed(out, dirfd);
    }
}

/// Where the part of a path begins and ends that [`below_root`] keeps.
fn kept(path: &[u8]) -> (range: (usize, usize))
    ensures
        range.0 <= range.1 <= path@.len(),
        path@.subrange(range.0 as int, range.1 as int) == below_root(path@),
{
    let mut start: usize = 0;
    assert(path@.skip(0) =~= path@);
    while start < path.len() && (path[start] == SLASH || path[start] == DOT && (start + 1
        == path.len() || path[start + 1] == SLASH))
        invariant
            start <= path@.len(),
            trim_front(path@.skip(start as int)) == trim_front(path@),
        decreases path@.len() - start,
    {
        proof {
            let rest = path@.skip(start as int);
            assert(idle_front(rest));
            assert(rest.skip(1) =~= path@.skip(start + 1));
        }
        start = start + 1;
    }
    let ghost front = path@.skip(start as int);
    assert(!idle_front(front));
    let mut end: usize = path.len();
    assert(path@.subrange(start as int, end as int) =~= front);
    while end > start && (path[end - 1] == SLASH || path[end - 1] == DOT && (end - 1 == start
        || path[end - 2] == SLASH))
        invariant
            start <= end <= path@.len(),
            trim_back(path@.subrange(start as int, end as int)) == trim_back(front),
        decreases end,
    {
        proof {
            let rest = path@.subrange(start as int, end as int);
            assert(idle_back(rest));
            assert(rest.drop_last() =~= path@.subrange(start as int, end - 1));
        }
        end = end - 1;
    }
    assert(!idle_back(path@.subrange(start as int, end as int)));
    (start, end)
}

/// Builds the `/proc/<pid>/...` path that names the file that the tracee means.
pub fn resolve_path(pid: i32, dirfd: i32, path: &[u8], empty: bool) -> (full: Vec<u8>)
    ensures
        full@ == resolved(pid, dirfd, path@, empty),
{
    let mut out: Vec<u8> = Vec::new();
    if empty || path.len() == 0 {
        push_anchor(&mut out, pid, dirfd);
        assert(out@ =~= anchor(pid, dirfd));
        return out;
    }
    proof {
        reveal_strlit("/root/");
        reveal_strlit("/");
    }
    if path[0] == SLASH {
        push_proc(&mut out, pid);
        push_ascii(&mut out, "/root/");
        let (start, end): (usize, usize) = kept(path);
        let mut i: usize = start;
        let ghost base = out@;
        while i < end
            invariant
                start <= i <= end <= path@.len(),
                out@ == base + path@.subrange(start as int, i as int),
            decreases end - i,
        {
            out.push(path[i]);
            assert(path@.subrange(start as int, i + 1) =~= path@.subrange(
                start as int,
                i as int,
            ).push(path@[i as int]));
            i = i + 1;
        }
        assert(out@ =~= resolved(pid, dirfd, path@, empty));
    } else {
        push_anchor(&mut out, pid, dirfd);
        push_ascii(&mut out, "/");
        out.extend_from_slice(path);
        assert(out@ =~= resolved(pid, dirfd, path@, empty));
    }
    out
}

/// Says which `stat` finds the target `(dirfd, path)` of a tracee.
pub fn stat_target(
    pid: i32,
    dirfd: i32,
    path: &[u8],
    nofollow: bool,
    empty: bool,
) -> (query: StatQuery)
    ensures
        (query.path@, query.follow) == target_query(pid, dirfd, path@, nofollow, empty),
{
    let descriptor = empty || path.len() == 0;
    StatQuery {
        path: resolve_path(pid, dirfd, path, empty),
        follow: descriptor || !nofollow,
    }
}

proof fn lemma_trim_front(path: Seq<u8>)
    ensures
        !idle_front(trim_front(path)),
    decreases path.len(),
{
    if idle_front(path) {
        lemma_trim_front(path.skip(1));
    }
}

proof fn lemma_trim_back(path: Seq<u8>)
    ensures
        trim_back(path).is_prefix_of(path),
    decreases path.len(),
{
    if idle_back(path) {
        lemma_trim_back(path.drop_last());
    }
}

/// Whatever a tracee names, what is looked up lies in that tracee's own directory
/// under `/proc`.
pub proof fn law_resolved_in_proc(pid: i32, dirfd: i32, path: Seq<u8>, empty: bool)
    ensures
        (proc_dir(pid) + ascii("/"@)).is_prefix_of(resolved(pid, dirfd, path, empty)),
{
    reveal_strlit("/");
    reveal_strlit("/cwd");
    reveal_strlit("/fd/");
    reveal_strlit("/root/");
}

/// An absolute path of a tracee is looked up below that tracee's root directory,
/// whatever the directory descriptor: what is put behind the root is relative.
pub proof fn law_absolute_stays_below_root(pid: i32, dirfd: i32, path: Seq<u8>)
    requires
        path.len() > 0,
        path[0] == SLASH,
    ensures
        resolved(pid, dirfd, path, false) == proc_dir(pid) + ascii("/root/"@) + below_root(path),
        below_root(path).len() > 0 ==> below_root(path)[0] != SLASH,
{
    lemma_trim_front(path);
    lemma_trim_back(trim_front(path));
}

/// A target that is a descriptor, by the flag or by an empty path, is looked up without
/// regard to the path that came with it, and with symlinks followed: it is always the
/// file that the descriptor refers to.
pub proof fn law_descriptor_target(
    pid: i32,
    dirfd: i32,
    path: Seq<u8>,
    empty: bool,
    nofollow: bool,
)
    requires
        is_descriptor(path, empty),
    ensures
        resolved(pid, dirfd, path, empty) == anchor(pid, dirfd),
        follows(nofollow, is_descriptor(path, empty)),
{
}

/// Whether a component of a path says where to go: it is neither empty nor `.`.
pub open spec fn is_significant(component: Seq<u8>) -> bool {
    component.len() > 0 && component != seq![46u8]
}

/// What follows the last separator of a path.
pub open spec fn last_component(path: Seq<u8>) -> Seq<u8>
    decreases path.len(),
{
    if path.len() == 0 || path.last() == 47 {
        Seq::empty()
    } else {
        last_component(path.drop_last()).push(path.last())
    }
}

/// The components of a path that say where to go and have a separator behind them.
pub open spec fn parents(path: Seq<u8>) -> Seq<Seq<u8>>
    decreases path.len(),
{
    if path.len() == 0 {
        Seq::empty()
    } else {
        let before = parents(path.drop_last());
        if path.last() == 47 && is_significant(last_component(path.drop_last())) {
            before.push(last_component(path.drop_last()))
        } else {
            before
        }
    }
}

/// The components of a path that say where to go.
pub open spec fn components(path: Seq<u8>) -> Seq<Seq<u8>> {
    if is_significant(last_component(path)) {
        parents(path).push(last_component(path))
    } else {
        parents(path)
    }
}

proof fn lemma_idle_front(path: Seq<u8>)
    requires
        idle_front(path),
    ensures
        path.len() > 1 ==> parents(path) == parents(path.skip(1)) && last_component(path)
            == last_component(path.skip(1)),
        components(path) == components(path.skip(1)),
    decreases path.len(),
{
    reveal_with_fuel(last_component, 3);
    reveal_with_fuel(parents, 3);
    let rest = path.skip(1);
    if path.len() == 1 {
        assert(rest =~= Seq::empty());
        assert(path.drop_last() =~= Seq::empty());
        if path[0] == 46 {
            assert(last_component(path) =~= seq![46u8]);
        }
    } else if path[0] == 46 && path.len() == 2 {
        assert(path.drop_last().drop_last() =~= Seq::empty());
        assert(last_component(path.drop_last()) =~= seq![46u8]);
        assert(parents(path.drop_last()) =~= Seq::empty());
        assert(rest.drop_last() =~= Seq::empty());
        assert(parents(path) =~= Seq::empty());
        assert(parents(rest) =~= Seq::empty());
    } else {
        let shorter = path.drop_last();
        assert(shorter[0] == path[0]);
        assert(path[0] == 46 ==> shorter[1] == path[1]);
        assert(shorter.skip(1) =~= rest.drop_last());
        lemma_idle_front(shorter);
        if shorter.len() == 1 {
            assert(shorter =~= seq![47u8]);
            assert(shorter.drop_last() =~= Seq::empty());
            assert(rest.drop_last() =~= Seq::empty());
        }
    }
}

proof fn lemma_components_below_front(path: Seq<u8>)
    ensures
        components(trim_front(path)) == components(path),
    decreases path.len(),
{
    if idle_front(path) {
        lemma_idle_front(path);
        lemma_components_below_front(path.skip(1));
    }
}

proof fn lemma_components_below_back(path: Seq<u8>)
    ensures
        components(trim_back(path)) == components(path),
    decreases path.len(),
{
    if idle_back(path) {
        reveal_with_fuel(last_component, 2);
        let shorter = path.drop_last();
        if path.last() == 46 {
            if shorter.len() > 0 {
                assert(shorter.last() == 47);
            }
            assert(last_component(path) =~= seq![46u8]);
        }
        lemma_components_below_back(shorter);
    }
}

/// An absolute path leads to the same place from the root as before: what is kept of it
/// has the same components, in the same order, apart from empty ones and `.`, and does not
/// begin with a separator.
pub proof fn law_absolute_paths_keep_their_components(path: Seq<u8>)
    ensures
        components(below_root(path)) == components(path),
        below_root(path).len() > 0 ==> below_root(path)[0] != 47,
{
    lemma_components_below_front(path);
    lemma_components_below_back(trim_front(path));
    lemma_trim_front(path);
    lemma_trim_back(trim_front(path));
}

/// Where a tracee's files are found: its working directory is `/proc/<pid>/cwd`, the file
/// of a descriptor is `/proc/<pid>/fd/<n>`, a relative path continues from there behind a
/// `/`, and an absolute one from `/proc/<pid>/root/`. A descriptor is always looked
/// through; any other file is unless that was to be left out.
pub proof fn law_names_of_files(pid: i32, dirfd: i32, path: Seq<u8>, nofollow: bool, empty: bool)
    ensures
        ({
            let process = ascii("/proc/"@) + signed_decimal(pid as int);
            let place = if dirfd == AT_FDCWD {
                process + ascii("/cwd"@)
            } else {
                process + ascii("/fd/"@) + signed_decimal(dirfd as int)
            };
            let (full, follow) = target_query(pid, dirfd, path, nofollow, empty);
            &&& full == resolved(pid, dirfd, path, empty)
            &&& follow == (empty || path.len() == 0 || !nofollow)
            &&& empty || path.len() == 0 ==> full == place
            &&& !empty && path.len() > 0 && path[0] != 47 ==> full == place + seq![47u8] + path
            &&& !empty && path.len() > 0 && path[0] == 47 ==> full == process + ascii("/root/"@)
                + below_root(path)
        }),
{
    reveal_strlit("/");
    assert(ascii("/"@) =~= seq![47u8]);
}

} // verus!
