//! Commands, and how a program re-executes itself as their supervisor.
//!
//! ptrace requires the tracer to be a separate process from the traced one. A command
//! that is to run under fakeroot therefore re-executes the current program in a
//! supervisor mode ([`CommandSpec::fakeroot`]). The new process detects that mode
//! ([`is_supervisor`]), works out what to run ([`Spawn::from_command_line`]), and exits
//! as the command did ([`exit_code`]).

use crate::bytes::{
    ascii, copy_bytes, copy_strings, has_byte, optional, push_ascii, same_bytes, strings,
};
use crate::error::{Error, ErrorView};
use crate::supervisor::{
    exited_status, law_exit_codes, law_wait_statuses, signaled_status, ExitStatus,
};
use vstd::prelude::*;
use vstd::string::*;

verus! {

/// The environment variable that marks a process that was re-executed to act as the
/// fakeroot supervisor.
pub const SUPERVISE_VAR: &'static str = "__FAKEROOST_SUPERVISE";

/// The kernel's magic symlink to the program of the current process. It is resolved at
/// exec time, so it survives a moved binary.
pub const SELF_EXE: &'static str = "/proc/self/exe";

/// The character `1`.
pub const ONE: u8 = 49;

/// The character `=`.
pub const EQUALS: u8 = 61;

/// A command to run.
#[derive(Debug)]
pub struct CommandSpec {
    /// The program, without arguments.
    pub program: Vec<u8>,
    /// The arguments, without the program's own name.
    pub args: Vec<Vec<u8>>,
    /// Changes to the environment, in the order in which they are made: a variable is
    /// set to a value, or removed.
    pub envs: Vec<(Vec<u8>, Option<Vec<u8>>)>,
    /// The working directory, where it is not that of the current process.
    pub current_dir: Option<Vec<u8>>,
}

/// The mathematical value of a [`CommandSpec`].
#[verifier::ext_equal]
pub struct CommandView {
    pub program: Seq<u8>,
    pub args: Seq<Seq<u8>>,
    pub envs: Seq<(Seq<u8>, Option<Seq<u8>>)>,
    pub current_dir: Option<Seq<u8>>,
}

/// The mathematical value of changes to an environment.
pub open spec fn changes(envs: Seq<(Vec<u8>, Option<Vec<u8>>)>) -> Seq<
    (Seq<u8>, Option<Seq<u8>>),
> {
    Seq::new(envs.len(), |i: int| (envs[i].0@, optional(envs[i].1)))
}

/// The mathematical value of the entries of an environment.
pub open spec fn entries(env: Seq<(Vec<u8>, Vec<u8>)>) -> Seq<(Seq<u8>, Seq<u8>)> {
    Seq::new(env.len(), |i: int| (env[i].0@, env[i].1@))
}

impl View for CommandSpec {
    type V = CommandView;

    open spec fn view(&self) -> CommandView {
        CommandView {
            program: self.program@,
            args: strings(self.args@),
            envs: changes(self.envs@),
            current_dir: optional(self.current_dir),
        }
    }
}

/// The name of [`SUPERVISE_VAR`].
pub open spec fn supervise_var() -> Seq<u8> {
    ascii(SUPERVISE_VAR@)
}

/// Changes made to an environment, one after the other.
pub open spec fn changed(
    env: Map<Seq<u8>, Seq<u8>>,
    made: Seq<(Seq<u8>, Option<Seq<u8>>)>,
) -> Map<Seq<u8>, Seq<u8>>
    decreases made.len(),
{
    if made.len() == 0 {
        env
    } else {
        let before = changed(env, made.drop_last());
        match made.last().1 {
            Some(value) => before.insert(made.last().0, value),
            None => before.remove(made.last().0),
        }
    }
}

impl CommandView {
    /// The command that runs this one under fakeroot: the current program once more,
    /// marked as a supervisor, with the program and its arguments as arguments, and the
    /// same changes to the environment and working directory.
    pub open spec fn faked(self) -> CommandView {
        CommandView {
            program: ascii(SELF_EXE@),
            args: seq![self.program] + self.args,
            envs: seq![(supervise_var(), Some(seq![ONE]))] + self.envs,
            current_dir: self.current_dir,
        }
    }

    /// The arguments of the process that runs the command.
    pub open spec fn command_line(self) -> Seq<Seq<u8>> {
        seq![self.program] + self.args
    }
}

/// The name of [`SUPERVISE_VAR`].
fn marker() -> (name: Vec<u8>)
    ensures
        name@ == supervise_var(),
{
    let mut name: Vec<u8> = Vec::new();
    proof {
        reveal_strlit("__FAKEROOST_SUPERVISE");
    }
    push_ascii(&mut name, SUPERVISE_VAR);
    assert(name@ =~= supervise_var());
    name
}

/// A copy of an optional byte string.
fn copy_optional(value: &Option<Vec<u8>>) -> (copy: Option<Vec<u8>>)
    ensures
        optional(copy) == optional(*value),
{
    match value {
        Some(bytes) => Some(copy_bytes(bytes.as_slice())),
        None => None,
    }
}

impl CommandSpec {
    /// Rewrites the command so that running it executes the same program under
    /// fakeroot.
    ///
    /// The returned command re-executes the current program with the original program,
    /// arguments, environment changes and working directory preserved.
    pub fn fakeroot(&self) -> (faked: CommandSpec)
        ensures
            faked@ == self@.faked(),
    {
        let mut program: Vec<u8> = Vec::new();
        proof {
            reveal_strlit("/proc/self/exe");
        }
        push_ascii(&mut program, SELF_EXE);
        let mut args: Vec<Vec<u8>> = vec![copy_bytes(self.program.as_slice())];
        let mut rest = copy_strings(&self.args);
        args.append(&mut rest);
        let one: Vec<u8> = vec![ONE];
        assert(one@ =~= seq![ONE]);
        let mut envs: Vec<(Vec<u8>, Option<Vec<u8>>)> = vec![(marker(), Some(one))];
        assert(changes(envs@) =~= self@.faked().envs.take(1));
        let mut i: usize = 0;
        while i < self.envs.len()
            invariant
                i <= self.envs@.len(),
                changes(envs@) =~= self@.faked().envs.take(i + 1),
            decreases self.envs.len() - i,
        {
            let (key, value) = &self.envs[i];
            let ghost before = envs@;
            let entry: (Vec<u8>, Option<Vec<u8>>) = (copy_bytes(key.as_slice()), copy_optional(value));
            envs.push(entry);
            proof {
                assert((entry.0@, optional(entry.1)) == changes(self.envs@)[i as int]);
                assert(changes(envs@) =~= changes(before).push((entry.0@, optional(entry.1))));
            }
            i = i + 1;
        }
        let faked = CommandSpec {
            program,
            args,
            envs,
            current_dir: copy_optional(&self.current_dir),
        };
        assert(faked@.program =~= self@.faked().program);
        assert(faked@.args =~= self@.faked().args);
        assert(faked@.envs =~= self@.faked().envs);
        faked
    }
}

/// Tells whether the current process was re-executed as a supervisor, by the names in
/// its environment.
pub fn is_supervisor(env: &Vec<(Vec<u8>, Vec<u8>)>) -> (supervisor: bool)
    ensures
        supervisor == exists|i: int|
            0 <= i < env@.len() && (#[trigger] entries(env@)[i]).0 == supervise_var(),
{
    let name = marker();
    let mut i: usize = 0;
    while i < env.len()
        invariant
            i <= env@.len(),
            name@ == supervise_var(),
            forall|k: int| 0 <= k < i ==> (#[trigger] entries(env@)[k]).0 != supervise_var(),
        decreases env.len() - i,
    {
        let (key, _) = &env[i];
        if same_bytes(key.as_slice(), name.as_slice()) {
            assert(entries(env@)[i as int].0 == supervise_var());
            return true;
        }
        i = i + 1;
    }
    false
}

/// A fully-resolved command to run under fakeroot. None of its strings holds a NUL byte.
#[derive(Debug)]
pub struct Spawn {
    /// Program to execute (`PATH`-searched).
    pub program: Vec<u8>,
    /// Full argument list, with the program's own name first.
    pub argv: Vec<Vec<u8>>,
    /// Environment as `KEY=VALUE` entries.
    pub env: Vec<Vec<u8>>,
}

/// Whether a string can be passed to the kernel: it holds no NUL byte.
pub open spec fn passable(text: Seq<u8>) -> bool {
    !text.contains(0)
}

/// The `KEY=VALUE` form of an environment entry.
pub open spec fn assignment(entry: (Seq<u8>, Seq<u8>)) -> Seq<u8> {
    entry.0.push(EQUALS) + entry.1
}

/// The entries of an environment that the command inherits: all but the marker and
/// those that cannot be passed to the kernel.
pub open spec fn inherited(env: Seq<(Seq<u8>, Seq<u8>)>) -> Seq<Seq<u8>> {
    env.filter(
        |entry: (Seq<u8>, Seq<u8>)| entry.0 != supervise_var() && passable(assignment(entry)),
    ).map_values(|entry: (Seq<u8>, Seq<u8>)| assignment(entry))
}

impl Spawn {
    /// Whether every string can be passed to the kernel, and the program is the first
    /// argument.
    pub open spec fn wf(self) -> bool {
        &&& self.argv@.len() > 0
        &&& self.program@ == self.argv@[0]@
        &&& forall|i: int| 0 <= i < self.argv@.len() ==> passable(#[trigger] self.argv@[i]@)
        &&& forall|i: int| 0 <= i < self.env@.len() ==> passable(#[trigger] self.env@[i]@)
    }

    /// Works out what to run from a supervisor's own arguments (`[program, args...]`)
    /// and environment.
    ///
    /// The environment is inherited (the changes of a command made by
    /// [`CommandSpec::fakeroot`] have been applied to it already), without the marker.
    pub fn from_command_line(args: Vec<Vec<u8>>, env: &Vec<(Vec<u8>, Vec<u8>)>) -> (spawn: Result<
        Spawn,
        Error,
    >)
        ensures
            match spawn {
                Ok(spawn) => {
                    &&& spawn.wf()
                    &&& args@.len() > 0
                    &&& forall|i: int| 0 <= i < args@.len() ==> passable(#[trigger] args@[i]@)
                    &&& spawn.program@ == args@[0]@
                    &&& strings(spawn.argv@) == strings(args@)
                    &&& strings(spawn.env@) == inherited(entries(env@))
                },
                Err(e) => if exists|i: int|
                    0 <= i < args@.len() && !passable(#[trigger] args@[i]@) {
                    e@ == ErrorView::Other("command component contains a NUL byte"@)
                } else {
                    args@.len() == 0 && e@ == ErrorView::Other(
                        "no program given to fakeroot supervisor"@,
                    )
                },
            },
    {
        let mut i: usize = 0;
        while i < args.len()
            invariant
                i <= args@.len(),
                forall|k: int| 0 <= k < i ==> passable(#[trigger] args@[k]@),
            decreases args.len() - i,
        {
            if has_byte(args[i].as_slice(), 0) {
                assert(!passable(args@[i as int]@));
                return Err(Error::other("command component contains a NUL byte"));
            }
            i = i + 1;
        }
        if args.len() == 0 {
            return Err(Error::other("no program given to fakeroot supervisor"));
        }
        let program = copy_bytes(args[0].as_slice());
        let env = inherit(env);
        proof {
            assert forall|k: int| 0 <= k < env@.len() implies passable(#[trigger] env@[k]@) by {
                assert(strings(env@)[k] == env@[k]@);
            }
        }
        Ok(Spawn { program, argv: args, env })
    }
}

/// The entries of an environment that the command inherits.
fn inherit(env: &Vec<(Vec<u8>, Vec<u8>)>) -> (kept: Vec<Vec<u8>>)
    ensures
        strings(kept@) == inherited(entries(env@)),
        forall|k: int| 0 <= k < kept@.len() ==> passable(#[trigger] strings(kept@)[k]),
{
    let name = marker();
    let mut kept: Vec<Vec<u8>> = Vec::new();
    let mut i: usize = 0;
    assert(strings(kept@) =~= inherited(entries(env@).take(0))) by {
        reveal(Seq::filter);
    }
    while i < env.len()
        invariant
            i <= env@.len(),
            name@ == supervise_var(),
            strings(kept@) == inherited(entries(env@).take(i as int)),
            forall|k: int| 0 <= k < kept@.len() ==> passable(#[trigger] strings(kept@)[k]),
        decreases env.len() - i,
    {
        let ghost before = kept@;
        let ghost done = entries(env@).take(i + 1);
        let (key, value) = &env[i];
        proof {
            assert(done.drop_last() =~= entries(env@).take(i as int));
            assert(done.last() == (key@, value@));
            reveal(Seq::filter);
        }
        if !same_bytes(key.as_slice(), name.as_slice()) {
            let mut text = copy_bytes(key.as_slice());
            text.push(EQUALS);
            text.extend_from_slice(value.as_slice());
            assert(text@ =~= assignment(done.last()));
            if !has_byte(text.as_slice(), 0) {
                kept.push(text);
                assert(strings(kept@) =~= strings(before).push(text@));
            }
        }
        assert(strings(kept@) =~= inherited(done));
        i = i + 1;
    }
    assert(entries(env@).take(i as int) =~= entries(env@));
    kept
}

/// The exit code of a supervisor: that of its command. It is 1 where the command was
/// killed by a signal or could not be supervised.
pub open spec fn exit_code_of(ended: Result<ExitStatus, Error>) -> i32 {
    match ended {
        Ok(status) => match status.exit_code() {
            Some(code) => code,
            None => 1,
        },
        Err(_) => 1,
    }
}

/// The exit code of a supervisor.
pub fn exit_code(ended: &Result<ExitStatus, Error>) -> (code: i32)
    ensures
        code == exit_code_of(*ended),
{
    match ended {
        Ok(status) => match status.code() {
            Some(code) => code,
            None => 1,
        },
        Err(_) => 1,
    }
}

/// The supervisor gets the original command line as its own arguments.
pub proof fn law_command_line_is_preserved(command: CommandView)
    ensures
        command.faked().args == command.command_line(),
        command.faked().args[0] == command.program,
        command.faked().args.skip(1) == command.args,
        command.faked().current_dir == command.current_dir,
{
    assert(command.faked().args.skip(1) =~= command.args);
}

/// Changes made after one to another variable do not depend on it.
proof fn lemma_changed_after(
    env: Map<Seq<u8>, Seq<u8>>,
    first: (Seq<u8>, Option<Seq<u8>>),
    made: Seq<(Seq<u8>, Option<Seq<u8>>)>,
    key: Seq<u8>,
)
    ensures
        key != first.0 ==> {
            &&& changed(env, seq![first] + made).contains_key(key) == changed(
                env,
                made,
            ).contains_key(key)
            &&& changed(env, made).contains_key(key) ==> changed(env, seq![first] + made)[key]
                == changed(env, made)[key]
        },
        key == first.0 && (forall|i: int| 0 <= i < made.len() ==> (#[trigger] made[i]).0 != key)
            ==> {
            &&& changed(env, seq![first] + made).contains_key(key) == (first.1 is Some)
            &&& first.1 is Some ==> changed(env, seq![first] + made)[key] == first.1->0
        },
    decreases made.len(),
{
    let all = seq![first] + made;
    if made.len() == 0 {
        assert(all.drop_last() =~= Seq::empty());
        assert(changed(env, all.drop_last()) == env);
    } else {
        lemma_changed_after(env, first, made.drop_last(), key);
        assert(all.drop_last() =~= seq![first] + made.drop_last());
        assert(all.last() == made.last());
        assert(made[made.len() - 1] == made.last());
        assert forall|i: int| 0 <= i < made.len() - 1 implies (#[trigger] made.drop_last()[i])
            == made[i] by {}
    }
}

/// The supervisor's environment differs from the one that the command asked for in the
/// marker alone.
pub proof fn law_environment_is_preserved(
    env: Map<Seq<u8>, Seq<u8>>,
    command: CommandView,
    key: Seq<u8>,
)
    requires
        key != supervise_var(),
    ensures
        changed(env, command.faked().envs).contains_key(key) == changed(
            env,
            command.envs,
        ).contains_key(key),
        changed(env, command.envs).contains_key(key) ==> changed(env, command.faked().envs)[key]
            == changed(env, command.envs)[key],
{
    lemma_changed_after(env, (supervise_var(), Some(seq![ONE])), command.envs, key);
}

/// The process that runs a command under fakeroot is marked as a supervisor, unless the
/// command itself changes the marker.
pub proof fn law_supervisor_is_marked(env: Map<Seq<u8>, Seq<u8>>, command: CommandView)
    requires
        forall|i: int|
            0 <= i < command.envs.len() ==> (#[trigger] command.envs[i]).0 != supervise_var(),
    ensures
        changed(env, command.faked().envs).contains_key(supervise_var()),
{
    lemma_changed_after(env, (supervise_var(), Some(seq![ONE])), command.envs, supervise_var());
}

/// The command does not inherit the marker.
pub proof fn law_marker_is_not_inherited(env: Seq<(Seq<u8>, Seq<u8>)>, text: Seq<u8>)
    requires
        forall|i: int| 0 <= i < env.len() ==> !(#[trigger] env[i]).0.contains(EQUALS),
        inherited(env).contains(text),
    ensures
        !supervise_var().push(EQUALS).is_prefix_of(text),
{
    reveal_strlit("__FAKEROOST_SUPERVISE");
    let name = supervise_var();
    let keeps = |entry: (Seq<u8>, Seq<u8>)|
        entry.0 != supervise_var() && passable(assignment(entry));
    let kept = env.filter(keeps);
    let k = choose|k: int| 0 <= k < inherited(env).len() && inherited(env)[k] == text;
    let entry = kept[k];
    env.lemma_filter_contains_rev(keeps, entry);
    assert(kept.contains(entry));
    assert(env.contains(entry) && keeps(entry));
    let i = choose|i: int| 0 <= i < env.len() && env[i] == entry;
    let key = env[i].0;
    assert(text == assignment(entry));
    if name.push(EQUALS).is_prefix_of(text) {
        let prefix = name.push(EQUALS);
        assert(text[name.len() as int] == prefix[name.len() as int]);
        assert(text[key.len() as int] == EQUALS);
        if key.len() > name.len() {
            assert(key[name.len() as int] == EQUALS);
        } else if key.len() < name.len() {
            assert(prefix[key.len() as int] == EQUALS);
            assert(name[key.len() as int] == EQUALS);
        } else {
            assert forall|j: int| 0 <= j < key.len() implies key[j] == name[j] by {
                assert(text[j] == prefix[j]);
            }
            assert(key =~= name);
        }
    }
}

/// A run whose root exited with a code ends the supervisor with the same code. Where the
/// root was killed by a signal, or could not be supervised, it is 1.
pub proof fn law_exit_code_is_passed_on(code: i32, signal: i32, e: Error)
    requires
        0 <= code <= 0xff,
        0 < signal < 0x7f,
    ensures
        exit_code_of(Ok(exited_status(code))) == code,
        exit_code_of(Ok(ExitStatus { raw: (code * 0x100) as i32 })) == code,
        exit_code_of(Ok(signaled_status(signal))) == 1,
        exit_code_of(Ok(ExitStatus { raw: signal })) == 1,
        exit_code_of(Err(e)) == 1,
{
    law_exit_codes(code, signal);
    law_wait_statuses(code, signal, ExitStatus { raw: (code * 0x100) as i32 });
    law_wait_statuses(code, signal, ExitStatus { raw: signal });
}

/// Each entry of the environment is inherited on its own: one more entry adds its
/// `KEY=VALUE` at the end, unless it is the marker or holds a NUL byte in its key or value.
pub proof fn law_entries_are_inherited(
    env: Seq<(Seq<u8>, Seq<u8>)>,
    key: Seq<u8>,
    value: Seq<u8>,
)
    ensures
        inherited(Seq::empty()) == Seq::<Seq<u8>>::empty(),
        inherited(env.push((key, value))) == if key == ascii("__FAKEROOST_SUPERVISE"@) || (exists|
            i: int,
        |
            0 <= i < key.len() && #[trigger] key[i] == 0) || (exists|i: int|
            0 <= i < value.len() && #[trigger] value[i] == 0) {
            inherited(env)
        } else {
            inherited(env).push(key + seq![61u8] + value)
        },
{
    reveal(Seq::filter);
    let more = env.push((key, value));
    let text = assignment((key, value));
    assert(inherited(Seq::empty()) =~= Seq::<Seq<u8>>::empty());
    assert(more.drop_last() =~= env);
    assert(text =~= key + seq![61u8] + value);
    let bad = (exists|i: int| 0 <= i < key.len() && #[trigger] key[i] == 0) || (exists|i: int|
        0 <= i < value.len() && #[trigger] value[i] == 0);
    assert(passable(text) == !bad) by {
        if text.contains(0) {
            let i = choose|i: int| 0 <= i < text.len() && text[i] == 0;
            if i < key.len() {
                assert(key[i] == 0);
            } else {
                assert(value[i - key.len() - 1] == 0);
            }
        }
        if exists|i: int| 0 <= i < key.len() && #[trigger] key[i] == 0 {
            let i = choose|i: int| 0 <= i < key.len() && #[trigger] key[i] == 0;
            assert(text[i] == 0);
        }
        if exists|i: int| 0 <= i < value.len() && #[trigger] value[i] == 0 {
            let i = choose|i: int| 0 <= i < value.len() && #[trigger] value[i] == 0;
            assert(text[key.len() + 1 + i] == 0);
        }
    }
    assert(inherited(more) =~= if key == supervise_var() || bad {
        inherited(env)
    } else {
        inherited(env).push(text)
    });
}

/// A command under fakeroot is the current program, with one more change to the
/// environment, made first: the marker becomes `1`. A string is passable exactly where
/// none of its bytes is a NUL.
pub proof fn law_supervising_command(command: CommandView, text: Seq<u8>)
    ensures
        command.faked().program == ascii("/proc/self/exe"@),
        command.faked().envs.len() == command.envs.len() + 1,
        command.faked().envs[0] == (ascii("__FAKEROOST_SUPERVISE"@), Some(seq![49u8])),
        command.faked().envs.skip(1) == command.envs,
        passable(text) <==> forall|i: int| 0 <= i < text.len() ==> #[trigger] text[i] != 0,
{
    assert(command.faked().envs.skip(1) =~= command.envs);
}

} // verus!
