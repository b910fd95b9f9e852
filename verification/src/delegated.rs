//! The delegated-isolation strategy: isolation by running the target
//! inside an external headless-display wrapper process rather than
//! creating isolation natively. The strategy builds the whole wrapper
//! invocation — program, arguments, environment overrides, working
//! directory, stream disposition — and the platform layer spawns it and
//! returns the child's identifier without waiting.

use vstd::prelude::*;
use vstd::string::StringExecFns;
use crate::command::{CommandSpec, EnvAction, EnvDirective, directives_of, resolved_env};

verus! {

/// The spawn request the delegated strategy builds: everything the
/// platform layer needs to start the wrapper process.
pub struct DelegatedInvocation {
    /// The wrapper executable, invoked by name on the search path.
    pub program: String,
    /// The wrapper's arguments: its server-number flag first, then the
    /// target program, then the target's own arguments.
    pub args: Vec<String>,
    /// The command's environment overrides, passed through unchanged.
    pub envs: Vec<EnvAction>,
    /// The working directory the wrapper starts in.
    pub current_dir: String,
    /// Each standard stream is configured for pipe-based capture rather
    /// than bound through — a deliberate asymmetry with the native
    /// strategy.
    pub piped_standard_streams: bool,
}

/// Copies a list of arguments element for element.
fn copy_strings(src: &Vec<String>) -> (r: Vec<String>)
    ensures
        r@ == src@,
{
    let n = src.len();
    let mut r: Vec<String> = Vec::new();
    let mut i: usize = 0;
    while i < n
        invariant
            i <= n,
            n == src@.len(),
            r@ == src@.take(i as int),
        decreases n - i,
    {
        r.push(src[i].clone());
        proof {
            assert(src@.take(i + 1) =~= src@.take(i as int).push(src@[i as int]));
        }
        i = i + 1;
    }
    proof {
        assert(src@.take(n as int) =~= src@);
    }
    r
}

/// Copies a list of environment overrides element for element.
fn copy_env_actions(src: &Vec<EnvAction>) -> (r: Vec<EnvAction>)
    ensures
        r@ == src@,
{
    let n = src.len();
    let mut r: Vec<EnvAction> = Vec::new();
    let mut i: usize = 0;
    while i < n
        invariant
            i <= n,
            n == src@.len(),
            r@ == src@.take(i as int),
        decreases n - i,
    {
        r.push(src[i].duplicate());
        proof {
            assert(src@.take(i + 1) =~= src@.take(i as int).push(src@[i as int]));
        }
        i = i + 1;
    }
    proof {
        assert(src@.take(n as int) =~= src@);
    }
    r
}

/// The state the delegated strategy needs to run a command
/// transparently.
#[derive(Clone, Debug)]
pub struct TransparentRunnerImpl;

impl Default for TransparentRunnerImpl {
    /// The strategy carries no state of its own.
    fn default() -> (r: TransparentRunnerImpl)
        ensures
            r == TransparentRunnerImpl,
    {
        TransparentRunnerImpl
    }
}

impl TransparentRunnerImpl {
    /// The wrapper invocation for `command`: the headless-display
    /// wrapper with its server-number flag, then the target program and
    /// the target's arguments; the command's environment overrides pass
    /// through unchanged; the working directory is the command's own,
    /// or the launcher's current directory (`launcher_dir`) when the
    /// command sets none; each standard stream is piped. The platform
    /// layer spawns this invocation — with no fallback to an unisolated
    /// launch — and hands back the wrapper's process identifier at
    /// once.
    pub fn build_invocation(&self, command: &CommandSpec, launcher_dir: &String) -> (r:
        DelegatedInvocation)
        ensures
            r.program@ == "xvfb-run"@,
            r.args@.len() == 2 + command.args@.len(),
            r.args@[0]@ == "--auto-servernum"@,
            r.args@[1] == command.program,
            forall|i: int| 0 <= i < command.args@.len() ==> r.args@[i + 2] == command.args@[i],
            r.envs@ == command.envs@,
            match command.current_dir {
                Some(d) => r.current_dir == d,
                None => r.current_dir == launcher_dir,
            },
            r.piped_standard_streams,
    {
        let mut args: Vec<String> = Vec::new();
        args.push(String::from_str("--auto-servernum"));
        args.push(command.program.clone());
        let mut rest = copy_strings(&command.args);
        let ghost head = args@;
        args.append(&mut rest);
        proof {
            assert(args@.len() == 2 + command.args@.len());
            assert(args@[0] == head[0]);
            assert(args@[1] == head[1]);
            assert(forall|i: int|
                0 <= i < command.args@.len() ==> args@[i + 2] == command.args@[i]);
        }
        let current_dir = match &command.current_dir {
            Some(d) => d.clone(),
            None => launcher_dir.clone(),
        };
        DelegatedInvocation {
            program: String::from_str("xvfb-run"),
            args,
            envs: copy_env_actions(&command.envs),
            current_dir,
            piped_standard_streams: true,
        }
    }
}

/// Environment pass-through, end to end: when a command specification's
/// overrides are exactly "assign `x` the value `v`, then unset `y`",
/// the invocation built from it resolves `x` to `v` and leaves `y`
/// absent, whatever the ambient environment held for either of them.
pub proof fn lemma_invocation_env_pass_through(
    inv: DelegatedInvocation,
    command: CommandSpec,
    x: Seq<char>,
    v: Seq<char>,
    y: Seq<char>,
    ambient_x: Option<Seq<char>>,
    ambient_y: Option<Seq<char>>,
)
    requires
        inv.envs@ == command.envs@,
        directives_of(command.envs@) == seq![
            EnvDirective::Assign(x, v),
            EnvDirective::Unset(y),
        ],
        x != y,
    ensures
        resolved_env(directives_of(inv.envs@), x, ambient_x) == Some(v),
        resolved_env(directives_of(inv.envs@), y, ambient_y) == None::<Seq<char>>,
{
    crate::command::lemma_env_pass_through(x, v, y, ambient_x, ambient_y);
}

} // verus!
