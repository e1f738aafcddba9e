//! Whole syscalls of a traced process on a simulated filesystem: entry, the kernel's
//! part, and exit.

use fakeroost::arch::x86_64::Regs;
use fakeroost::arch::RegAccess;
use fakeroost::error::Error;
use fakeroost::handlers::entry::{handle_entry, EntryStep};
use fakeroost::handlers::exit::{apply_exit_action, Effect, ExitStep};
use fakeroost::handlers::overlay::{patch_stat_result, Stat, StatBuf, Statx};
use fakeroost::path::RealStat;
use fakeroost::supervisor::{Resumption, Supervisor, Turn, WaitStatus};
use std::collections::BTreeMap;

const PID: i32 = 42;
const REAL_UID: u32 = 1000;
const DEV: u64 = 0x801;
const FDCWD: u64 = -100i64 as u64;
const EPERM: i64 = 1;
const ENOENT: i64 = 2;
const ENOSYS: i64 = 38;

/// A file as it really is.
#[derive(Clone, Copy)]
struct Inode {
    mode: u32,
    uid: u32,
    gid: u32,
    nlink: u64,
}

/// A traced process, its memory, and the filesystem that it sees.
struct Machine {
    supervisor: Supervisor,
    memory: BTreeMap<u64, u8>,
    stats: BTreeMap<u64, StatBuf>,
    names: BTreeMap<Vec<u8>, u64>,
    inodes: BTreeMap<u64, Inode>,
    chmod_fails: bool,
    xattrs: Vec<u8>,
}

impl Machine {
    fn new() -> Machine {
        Machine {
            supervisor: Supervisor::new(PID),
            memory: BTreeMap::new(),
            stats: BTreeMap::new(),
            names: BTreeMap::new(),
            inodes: BTreeMap::new(),
            chmod_fails: false,
            xattrs: vec![],
        }
    }

    fn poke(&mut self, addr: u64, bytes: &[u8]) {
        for (i, byte) in bytes.iter().enumerate() {
            self.memory.insert(addr + i as u64, *byte);
        }
    }

    fn peek(&self, addr: u64, len: usize) -> Vec<u8> {
        (0..len).map(|i| self.memory[&(addr + i as u64)]).collect()
    }

    /// A page of memory is readable once something was put into it.
    fn chunk(&self, addr: u64, len: usize) -> Vec<u8> {
        (0..len)
            .map(|i| *self.memory.get(&(addr + i as u64)).unwrap_or(&0))
            .collect()
    }

    fn text(&mut self, text: &str) -> u64 {
        let addr = 0x10_0000 + 0x1000 * (self.memory.len() as u64);
        self.poke(addr, text.as_bytes());
        self.poke(addr + text.len() as u64, &[0]);
        addr
    }

    fn resolved(&self, path: &str) -> Vec<u8> {
        format!("/proc/{PID}/cwd/{path}").into_bytes()
    }

    fn touch(&mut self, path: &str, mode: u32) -> u64 {
        let full = self.resolved(path);
        let mut ino = 1;
        while self.inodes.contains_key(&ino) {
            ino += 1;
        }
        // A directory is linked from its parent and from itself.
        let nlink = if mode & libc::S_IFMT == libc::S_IFDIR { 2 } else { 1 };
        self.inodes.insert(
            ino,
            Inode { mode, uid: REAL_UID, gid: REAL_UID, nlink },
        );
        self.names.insert(full, ino);
        ino
    }

    fn find(&self, path: &[u8]) -> Result<RealStat, Error> {
        match self.names.get(path) {
            Some(ino) => {
                let inode = self.inodes[ino];
                Ok(RealStat { dev: DEV, ino: *ino, mode: inode.mode, nlink: inode.nlink })
            }
            None => Err(Error::Errno(libc::ENOENT)),
        }
    }

    fn entry(&mut self, regs: &mut Regs) -> Resumption {
        let mut step = handle_entry(PID, regs);
        let disposition = loop {
            step = match step {
                EntryStep::Decided(disposition) => break disposition,
                EntryStep::ReadPath(read) => {
                    let chunk = self.chunk(read.scan.addr, read.scan.chunk());
                    read.supply(&chunk).unwrap()
                }
                EntryStep::Create(create) => {
                    if !self.names.contains_key(&create.path) {
                        let path = String::from_utf8(create.path.clone()).unwrap();
                        let short = path.rsplit('/').next().unwrap().to_string();
                        self.touch(&short, libc::S_IFREG | 0o644);
                    }
                    create.attempted()
                }
                EntryStep::Stat(wait) => {
                    let found = self.find(&wait.query.path);
                    wait.answer(found, self.supervisor.table_mut()).unwrap()
                }
                EntryStep::ReadName(read) => {
                    let chunk = self.chunk(read.scan.addr, read.scan.chunk());
                    read.supply(&chunk, self.supervisor.table_mut()).unwrap()
                }
                EntryStep::ReadValue(read) => {
                    let value = self.peek(read.addr, read.len);
                    EntryStep::Decided(read.supply(value, self.supervisor.table_mut()))
                }
            };
        };
        self.supervisor.on_seccomp(PID, disposition, regs)
    }

    fn exit(&mut self, regs: &mut Regs) {
        let action = match self.supervisor.on_wait(Ok(WaitStatus::PtraceSyscall { pid: PID })) {
            Turn::Apply { pid, action } => {
                assert_eq!(pid, PID);
                action
            }
            other => panic!("unexpected turn {other:?}"),
        };
        let effects = match apply_exit_action(self.supervisor.table_mut(), action, regs) {
            ExitStep::Effects(effects) => effects,
            ExitStep::PatchStat { buf, .. } => {
                let mut stat = self.stats[&buf];
                patch_stat_result(self.supervisor.table(), &mut stat);
                self.stats.insert(buf, stat);
                vec![]
            }
            ExitStep::ReadNames(names) => {
                let list = self.peek(names.buf, names.len as usize);
                names.supply(&list, regs)
            }
        };
        for effect in effects {
            if let Effect::Write { addr, bytes } = effect {
                self.poke(addr, &bytes);
            }
        }
    }

    /// What the kernel does about a syscall that reaches it.
    fn kernel(&mut self, regs: &Regs) -> i64 {
        let path = |machine: &Machine, addr: u64| -> Vec<u8> {
            let mut text = vec![];
            let mut at = addr;
            while machine.memory[&at] != 0 {
                text.push(machine.memory[&at]);
                at += 1;
            }
            machine.resolved(std::str::from_utf8(&text).unwrap())
        };
        match regs.orig_rax as i64 {
            -1 => -ENOSYS,
            libc::SYS_newfstatat | libc::SYS_statx => {
                let full = path(self, regs.rsi);
                let Some(ino) = self.names.get(&full).copied() else {
                    return -ENOENT;
                };
                let inode = self.inodes[&ino];
                if regs.orig_rax as i64 == libc::SYS_statx {
                    let stx = Statx {
                        stx_uid: inode.uid,
                        stx_gid: inode.gid,
                        stx_mode: inode.mode as u16,
                        stx_nlink: inode.nlink as u32,
                        stx_ino: ino,
                        stx_dev_major: 8,
                        stx_dev_minor: 1,
                        ..Default::default()
                    };
                    self.stats.insert(regs.r8, StatBuf::Statx(stx));
                } else {
                    let st = Stat {
                        st_dev: DEV,
                        st_ino: ino,
                        st_mode: inode.mode,
                        st_nlink: inode.nlink,
                        st_uid: inode.uid,
                        st_gid: inode.gid,
                        st_rdev: 0,
                    };
                    self.stats.insert(regs.rdx, StatBuf::Native(st));
                }
                0
            }
            libc::SYS_fchmodat => {
                if self.chmod_fails {
                    return -EPERM;
                }
                let full = path(self, regs.rsi);
                let ino = self.names[&full];
                let inode = self.inodes.get_mut(&ino).unwrap();
                inode.mode = inode.mode & libc::S_IFMT | regs.rdx as u32;
                0
            }
            libc::SYS_unlinkat => {
                let full = path(self, regs.rsi);
                let Some(ino) = self.names.remove(&full) else {
                    return -ENOENT;
                };
                let inode = self.inodes.get_mut(&ino).unwrap();
                inode.nlink -= 1;
                if inode.nlink == 0 || inode.mode & libc::S_IFMT == libc::S_IFDIR {
                    self.inodes.remove(&ino);
                }
                0
            }
            libc::SYS_rename | libc::SYS_renameat2 => {
                let two = regs.orig_rax as i64 == libc::SYS_renameat2;
                let (from, to) = if two {
                    (path(self, regs.rsi), path(self, regs.r10))
                } else {
                    (path(self, regs.rdi), path(self, regs.rsi))
                };
                if self.names.get(&from) == self.names.get(&to) {
                    return 0;
                }
                let moved = self.names.remove(&from).unwrap();
                let replaced = self.names.insert(to, moved);
                match replaced {
                    Some(ino) if two && regs.r8 == 2 => {
                        self.names.insert(from, ino);
                    }
                    Some(ino) => {
                        self.inodes.remove(&ino);
                    }
                    None => {}
                }
                0
            }
            libc::SYS_listxattr => {
                let list = self.xattrs.clone();
                self.poke(regs.rsi, &list);
                list.len() as i64
            }
            other => panic!("syscall {other} reached the kernel"),
        }
    }

    fn syscall(&mut self, nr: i64, args: [u64; 6]) -> i64 {
        let mut regs = Regs {
            orig_rax: nr as u64,
            rax: -ENOSYS as u64,
            rdi: args[0],
            rsi: args[1],
            rdx: args[2],
            r10: args[3],
            r8: args[4],
            r9: args[5],
        };
        match self.supervisor.on_wait(Ok(WaitStatus::PtraceEvent {
            pid: PID,
            event: libc::PTRACE_EVENT_SECCOMP,
        })) {
            Turn::Inspect { pid } => assert_eq!(pid, PID),
            other => panic!("unexpected turn {other:?}"),
        }
        let next = self.entry(&mut regs);
        regs.rax = self.kernel(&regs) as u64;
        if next != Resumption::Continue {
            self.exit(&mut regs);
        }
        regs.ret()
    }

    fn chown(&mut self, path: &str, uid: u32, gid: u32) -> i64 {
        let at = self.text(path);
        self.syscall(
            libc::SYS_fchownat,
            [FDCWD, at, uid as u64, gid as u64, 0, 0],
        )
    }

    fn unlink(&mut self, path: &str) -> i64 {
        let at = self.text(path);
        self.syscall(libc::SYS_unlinkat, [FDCWD, at, 0, 0, 0, 0])
    }

    fn statx(&mut self, path: &str) -> Statx {
        let at = self.text(path);
        assert_eq!(self.syscall(libc::SYS_statx, [FDCWD, at, 0, 0xfff, 0x9000, 0]), 0);
        match self.stats[&0x9000] {
            StatBuf::Statx(stx) => stx,
            StatBuf::Native(_) => panic!("wrong flavor"),
        }
    }

    fn stat(&mut self, path: &str) -> Stat {
        let at = self.text(path);
        assert_eq!(self.syscall(libc::SYS_newfstatat, [FDCWD, at, 0xa000, 0, 0, 0]), 0);
        match self.stats[&0xa000] {
            StatBuf::Native(st) => st,
            StatBuf::Statx(_) => panic!("wrong flavor"),
        }
    }

    fn owner(&mut self, path: &str) -> (u32, u32) {
        let stx = self.statx(path);
        let st = self.stat(path);
        assert_eq!((stx.stx_uid, stx.stx_gid), (st.st_uid, st.st_gid));
        (st.st_uid, st.st_gid)
    }
}

#[test]
fn fakes_root_identity() {
    let mut machine = Machine::new();
    for nr in [
        libc::SYS_getuid,
        libc::SYS_geteuid,
        libc::SYS_getgid,
        libc::SYS_getegid,
        libc::SYS_setuid,
        libc::SYS_setgroups,
        libc::SYS_capset,
    ] {
        assert_eq!(machine.syscall(nr, [1000, 1000, 0, 0, 0, 0]), 0);
    }
    machine.poke(0x5000, &[1; 12]);
    let args = [0x5000, 0x5004, 0x5008, 0, 0, 0];
    assert_eq!(machine.syscall(libc::SYS_getresuid, args), 0);
    assert_eq!(machine.peek(0x5000, 12), vec![0; 12]);
}

#[test]
fn id_triples_skip_null_pointers() {
    let mut machine = Machine::new();
    machine.poke(0x5000, &[1; 8]);
    let args = [0x5000, 0, 0, 0, 0, 0];
    assert_eq!(machine.syscall(libc::SYS_getresgid, args), 0);
    assert_eq!(machine.peek(0x5000, 8), vec![0, 0, 0, 0, 1, 1, 1, 1]);
    assert!(!machine.memory.contains_key(&0));
}

#[test]
fn created_files_appear_root_owned() {
    // Files created under fakeroot look root-owned without any explicit chown.
    let mut machine = Machine::new();
    machine.touch("f", libc::S_IFREG | 0o644);
    machine.touch("d", libc::S_IFDIR | 0o755);
    assert_eq!(machine.owner("f"), (0, 0));
    assert_eq!(machine.owner("d"), (0, 0));
}

#[test]
fn chown_to_arbitrary_uid_reads_back_via_statx() {
    let mut machine = Machine::new();
    machine.touch("g", libc::S_IFREG | 0o644);
    assert_eq!(machine.chown("g", 200, 200), 0);
    let stx = machine.statx("g");
    assert_eq!((stx.stx_uid, stx.stx_gid), (200, 200));
}

#[test]
fn partial_chown_keeps_fake_current_id() {
    // chown(-1, gid) must keep the *fake* uid (root), not the real user.
    let mut machine = Machine::new();
    machine.touch("g", libc::S_IFREG | 0o644);
    assert_eq!(machine.chown("g", u32::MAX, 7), 0);
    assert_eq!(machine.owner("g"), (0, 7));
    assert_eq!(machine.chown("g", 5, u32::MAX), 0);
    assert_eq!(machine.owner("g"), (5, 7));
}

#[test]
fn ownership_outlasts_calls_on_other_files() {
    let mut machine = Machine::new();
    machine.touch("kept", libc::S_IFREG | 0o644);
    machine.touch("other", libc::S_IFREG | 0o644);
    assert_eq!(machine.chown("kept", 200, 201), 0);
    assert_eq!(machine.chown("other", 7, 8), 0);
    assert_eq!(machine.syscall(libc::SYS_setuid, [5, 0, 0, 0, 0, 0]), 0);
    assert_eq!(machine.unlink("other"), 0);
    let at = machine.text("dev");
    let mode = (libc::S_IFBLK | 0o660) as u64;
    assert_eq!(machine.syscall(libc::SYS_mknodat, [FDCWD, at, mode, 9, 0, 0]), 0);
    assert_eq!(machine.owner("kept"), (200, 201));
}

#[test]
fn tar_records_mixed_fake_ownership() {
    let mut machine = Machine::new();
    machine.touch("r", libc::S_IFREG | 0o644);
    machine.touch("u", libc::S_IFREG | 0o644);
    assert_eq!(machine.chown("r", 0, 0), 0);
    assert_eq!(machine.chown("u", 200, 200), 0);
    assert_eq!(machine.owner("r"), (0, 0));
    assert_eq!(machine.owner("u"), (200, 200));
}

#[test]
fn mknod_reports_device_node() {
    let mut machine = Machine::new();
    let at = machine.text("cdev");
    let mode = libc::S_IFCHR | 0o666;
    let dev = libc::makedev(1, 3) as u64;
    assert_eq!(
        machine.syscall(libc::SYS_mknodat, [FDCWD, at, mode as u64, dev, 0, 0]),
        0
    );
    let st = machine.stat("cdev");
    assert_eq!(st.st_mode & libc::S_IFMT, libc::S_IFCHR);
    assert_eq!(st.st_rdev, dev);
    let stx = machine.statx("cdev");
    assert_eq!((stx.stx_rdev_major, stx.stx_rdev_minor), (1, 3));
    assert_eq!(stx.stx_mode as u32, mode);
    assert_eq!(machine.owner("cdev"), (0, 0));
}

#[test]
fn mknod_of_a_fifo_has_no_device_number() {
    let mut machine = Machine::new();
    let at = machine.text("pipe");
    let mode = libc::S_IFIFO | 0o644;
    assert_eq!(machine.syscall(libc::SYS_mknod, [at, mode as u64, 9, 0, 0, 0]), 0);
    let st = machine.stat("pipe");
    assert_eq!(st.st_mode, mode);
    assert_eq!(st.st_rdev, 0);
}

#[test]
fn inode_reuse_does_not_inherit_stale_owner() {
    let mut machine = Machine::new();
    let first = machine.touch("a", libc::S_IFREG | 0o644);
    assert_eq!(machine.chown("a", 200, 200), 0);
    assert_eq!(machine.unlink("a"), 0);
    let second = machine.touch("b", libc::S_IFREG | 0o644);
    assert_eq!(first, second);
    assert_eq!(
        machine.owner("b"),
        (0, 0),
        "reused inode wrongly kept fake owner"
    );
}

#[test]
fn removed_directory_is_forgotten() {
    let mut machine = Machine::new();
    let first = machine.touch("d", libc::S_IFDIR | 0o755);
    assert_eq!(machine.inodes[&first].nlink, 2);
    assert_eq!(machine.chown("d", 200, 200), 0);
    assert_eq!(machine.owner("d"), (200, 200));
    let at = machine.text("d");
    let flags = libc::AT_REMOVEDIR as u64;
    assert_eq!(machine.syscall(libc::SYS_unlinkat, [FDCWD, at, flags, 0, 0, 0]), 0);
    let second = machine.touch("f", libc::S_IFREG | 0o644);
    assert_eq!(first, second);
    assert_eq!(machine.owner("f"), (0, 0));
}

#[test]
fn overwritten_directory_is_forgotten() {
    let mut machine = Machine::new();
    let stale = machine.touch("dest", libc::S_IFDIR | 0o755);
    machine.touch("src", libc::S_IFDIR | 0o755);
    assert_eq!(machine.chown("dest", 200, 200), 0);
    let (from, to) = (machine.text("src"), machine.text("dest"));
    assert_eq!(machine.syscall(libc::SYS_rename, [from, to, 0, 0, 0, 0]), 0);
    assert_eq!(machine.touch("new", libc::S_IFREG | 0o644), stale);
    assert_eq!(machine.owner("new"), (0, 0));
}

#[test]
fn rename_onto_its_own_name_keeps_the_record() {
    let mut machine = Machine::new();
    machine.touch("a", libc::S_IFREG | 0o644);
    assert_eq!(machine.chown("a", 200, 200), 0);
    let (from, to) = (machine.text("a"), machine.text("a"));
    assert_eq!(machine.syscall(libc::SYS_rename, [from, to, 0, 0, 0, 0]), 0);
    let args = [FDCWD, from, FDCWD, to, 0, 0];
    assert_eq!(machine.syscall(libc::SYS_renameat2, args), 0);
    assert_eq!(machine.owner("a"), (200, 200));
}

#[test]
fn hard_links_keep_the_fake_owner() {
    let mut machine = Machine::new();
    let ino = machine.touch("a", libc::S_IFREG | 0o644);
    let other = machine.resolved("b");
    machine.names.insert(other, ino);
    machine.inodes.get_mut(&ino).unwrap().nlink = 2;
    assert_eq!(machine.chown("a", 200, 200), 0);
    assert_eq!(machine.unlink("a"), 0);
    assert_eq!(machine.owner("b"), (200, 200));
}

#[test]
fn overwritten_destination_is_forgotten() {
    let mut machine = Machine::new();
    let stale = machine.touch("dest", libc::S_IFREG | 0o644);
    machine.touch("src", libc::S_IFREG | 0o644);
    assert_eq!(machine.chown("dest", 200, 200), 0);
    assert_eq!(machine.chown("src", 7, 8), 0);
    let (from, to) = (machine.text("src"), machine.text("dest"));
    assert_eq!(machine.syscall(libc::SYS_rename, [from, to, 0, 0, 0, 0]), 0);
    assert_eq!(machine.owner("dest"), (7, 8));
    let reused = machine.touch("new", libc::S_IFREG | 0o644);
    assert_eq!(stale, reused);
    assert_eq!(machine.owner("new"), (0, 0));
}

#[test]
fn exchanged_names_keep_both_records() {
    let mut machine = Machine::new();
    machine.touch("a", libc::S_IFREG | 0o644);
    machine.touch("b", libc::S_IFREG | 0o644);
    assert_eq!(machine.chown("a", 1, 2), 0);
    assert_eq!(machine.chown("b", 3, 4), 0);
    let (from, to) = (machine.text("a"), machine.text("b"));
    let args = [FDCWD, from, FDCWD, to, libc::RENAME_EXCHANGE as u64, 0];
    assert_eq!(machine.syscall(libc::SYS_renameat2, args), 0);
    assert_eq!(machine.owner("a"), (3, 4));
    assert_eq!(machine.owner("b"), (1, 2));
}

#[test]
fn removing_a_missing_file_fails_as_it_does() {
    let mut machine = Machine::new();
    assert_eq!(machine.unlink("nothing"), -ENOENT);
}

#[test]
fn real_filesystem_is_untouched() {
    // Nothing is actually chowned; outside fakeroot the file is still its owner's.
    let mut machine = Machine::new();
    let ino = machine.touch("realf", libc::S_IFREG | 0o644);
    assert_eq!(machine.chown("realf", 200, 200), 0);
    assert_eq!(machine.inodes[&ino].uid, REAL_UID);
    assert_eq!(machine.inodes[&ino].gid, REAL_UID);
    assert_eq!(machine.owner("realf"), (200, 200));
}

#[test]
fn chmod_is_recorded_and_never_fails() {
    let mut machine = Machine::new();
    let ino = machine.touch("f", libc::S_IFREG | 0o644);
    let at = machine.text("f");
    let args = [FDCWD, at, 0o4755, 0, 0, 0];
    assert_eq!(machine.syscall(libc::SYS_fchmodat, args), 0);
    assert_eq!(machine.stat("f").st_mode, libc::S_IFREG | 0o4755);
    machine.chmod_fails = true;
    let args = [FDCWD, at, 0o600, 0, 0, 0];
    assert_eq!(machine.syscall(libc::SYS_fchmodat, args), 0);
    assert_eq!(machine.stat("f").st_mode, libc::S_IFREG | 0o600);
    assert_eq!(machine.inodes[&ino].mode, libc::S_IFREG | 0o4755);
}

#[test]
fn extended_attributes_read_back() {
    let mut machine = Machine::new();
    machine.touch("f", libc::S_IFREG | 0o644);
    let at = machine.text("f");
    let name = machine.text("security.capability");
    machine.poke(0x7000, &[1, 2, 3]);
    let args = [at, name, 0x7000, 3, 0, 0];
    assert_eq!(machine.syscall(libc::SYS_setxattr, args), 0);
    assert_eq!(machine.syscall(libc::SYS_getxattr, [at, name, 0, 0, 0, 0]), 3);
    assert_eq!(machine.syscall(libc::SYS_getxattr, [at, name, 0x8000, 2, 0, 0]), -34);
    assert_eq!(machine.syscall(libc::SYS_lgetxattr, [at, name, 0x8000, 10, 0, 0]), 3);
    assert_eq!(machine.peek(0x8000, 3), vec![1, 2, 3]);
}

#[test]
fn extended_attributes_are_listed_beside_the_real_ones() {
    let mut machine = Machine::new();
    machine.touch("f", libc::S_IFREG | 0o644);
    let at = machine.text("f");
    let name = machine.text("trusted.x");
    assert_eq!(machine.syscall(libc::SYS_setxattr, [at, name, 0, 0, 0, 0]), 0);
    machine.xattrs = vec![117, 46, 97, 0];
    assert_eq!(machine.syscall(libc::SYS_listxattr, [at, 0x8000, 100, 0, 0, 0]), 14);
    assert_eq!(
        machine.peek(0x8000, 14),
        vec![117, 46, 97, 0, 116, 114, 117, 115, 116, 101, 100, 46, 120, 0]
    );
    assert_eq!(machine.syscall(libc::SYS_removexattr, [at, name, 0, 0, 0, 0]), 0);
    assert_eq!(machine.syscall(libc::SYS_listxattr, [at, 0x8000, 100, 0, 0, 0]), 4);
}
