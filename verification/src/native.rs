//! The native-isolation strategy: the launcher itself creates a fresh,
//! non-interactive execution surface, starts the target bound to it, and
//! drives a wait/cancel/terminate protocol around the child's lifetime.
//!
//! The OS calls — creating and closing the surface, creating the
//! process, the blocking multi-wait, querying the exit code, terminating
//! by force — belong to the platform layer around this crate. Everything
//! the strategy decides or builds stands here with a contract: the
//! surface name and launch configuration, the double-terminated wide
//! command buffer, and the resolution of every wake of the wait,
//! including the race between natural exit and cancellation.

use vstd::prelude::*;
use vstd::string::StringExecFns;
use crate::cmdline::{
    build_command_buffer,
    command_buffer,
    encode_wide,
    nul_free,
    nul_free_str,
    valid_segments,
    views_of,
    wide_of,
};
use crate::command::CommandSpec;

verus! {

/// The code the OS reports for a process that has not exited yet. A
/// wait that woke through the cancellation signal can observe it; the
/// protocol then terminates the child by force and reports zero.
pub const STILL_ACTIVE_CODE: u32 = 259;

/// The wait result meaning the process handle became signaled.
pub const WAIT_OBJECT_PROCESS: u32 = 0;

/// The wait result meaning the cancellation signal became signaled.
pub const WAIT_OBJECT_CANCEL: u32 = 1;

/// The wait result meaning the wait itself failed.
pub const WAIT_FAILED_CODE: u32 = 4294967295;

/// What a finished multi-wait call means for the protocol.
#[derive(Clone, Copy, Debug, PartialEq, Eq, Structural)]
pub enum WaitStatus {
    /// One of the two awaited objects became signaled: go on to exit-code
    /// retrieval.
    Proceed,
    /// The wait itself failed: fatal, nothing was observed.
    Failed,
    /// A result this protocol never asks for (an abandoned or timed-out
    /// wait): fatal, the wait was infinite and took no mutex.
    Unexpected,
}

/// Reads a raw multi-wait result. Exactly the results that name one of
/// the two awaited objects let the protocol proceed.
pub fn classify_wait_result(code: u32) -> (r: WaitStatus)
    ensures
        r is Proceed <==> (code == WAIT_OBJECT_PROCESS || code == WAIT_OBJECT_CANCEL),
        r is Failed <==> code == WAIT_FAILED_CODE,
        r is Unexpected <==> !(code == WAIT_OBJECT_PROCESS || code == WAIT_OBJECT_CANCEL
            || code == WAIT_FAILED_CODE),
{
    if code == WAIT_OBJECT_PROCESS || code == WAIT_OBJECT_CANCEL {
        WaitStatus::Proceed
    } else if code == WAIT_FAILED_CODE {
        WaitStatus::Failed
    } else {
        WaitStatus::Unexpected
    }
}

/// The outcome the protocol reports for a queried exit code: the code
/// itself once the process has exited, and zero for a process that was
/// still running when queried and is terminated by force instead.
pub open spec fn exit_outcome_of(raw: u32) -> i32 {
    if raw == STILL_ACTIVE_CODE {
        0
    } else {
        raw as i32
    }
}

/// Where a process session stands in its lifetime.
#[derive(Clone, Copy, Debug, PartialEq, Eq, Structural)]
pub enum SessionPhase {
    /// The child exists and may still be running; the only phase in
    /// which waiting or killing is allowed.
    Running,
    /// The child exited on its own and its exit code was retrieved.
    Completed,
    /// The child was stopped by force, either on an explicit kill or to
    /// resolve a cancellation-triggered wake.
    ForceTerminated,
}

/// The identifiers process creation hands back for the launched child.
/// The secondary thread handle is closed at once by the launch path and
/// is never held here.
#[derive(Clone, Copy, Debug)]
pub struct ProcessInfo {
    /// The opaque native process handle, owned by exactly one session.
    pub process_handle: u64,
    /// The child's process identifier.
    pub process_id: u32,
}

/// A manual-reset cancellation signal: initially unset, set by the
/// external interrupt handler, and never reset within a run.
pub struct CancellationSignal {
    fired: bool,
}

impl CancellationSignal {
    /// Whether the signal has been set, as contracts see it.
    pub closed spec fn spec_is_set(self) -> bool {
        self.fired
    }

    /// A fresh, unset signal.
    pub fn new() -> (s: CancellationSignal)
        ensures
            !s.spec_is_set(),
    {
        CancellationSignal { fired: false }
    }

    /// Sets the signal. Manual-reset: once set it stays set, and setting
    /// it again changes nothing.
    pub fn fire(&mut self)
        ensures
            final(self).spec_is_set(),
    {
        self.fired = true;
    }

    /// Whether the signal has been set.
    pub fn is_set(&self) -> (r: bool)
        ensures
            r == self.spec_is_set(),
    {
        self.fired
    }
}

/// One launched child bound to an isolated surface: the process
/// identifiers, the cancellation signal raced against it, and where the
/// session stands. The process handle is released exactly once, on the
/// path that takes the session out of `Running`; both `resolve_wake`
/// and `kill` consume the running session, so no second release can be
/// written.
pub struct VirtualDesktopProcess {
    process_info: ProcessInfo,
    cancel_event: CancellationSignal,
    phase: SessionPhase,
}

impl VirtualDesktopProcess {
    /// The identifiers of the launched child, as contracts see them.
    pub closed spec fn spec_process_info(self) -> ProcessInfo {
        self.process_info
    }

    /// The session's cancellation signal, as contracts see it.
    pub closed spec fn spec_cancel(self) -> CancellationSignal {
        self.cancel_event
    }

    /// Where the session stands, as contracts see it.
    pub closed spec fn spec_phase(self) -> SessionPhase {
        self.phase
    }

    /// The session for a child the platform layer just created: running,
    /// with a fresh, unset cancellation signal.
    pub fn started(process_info: ProcessInfo) -> (s: VirtualDesktopProcess)
        ensures
            s.spec_process_info() == process_info,
            !s.spec_cancel().spec_is_set(),
            s.spec_phase() is Running,
    {
        VirtualDesktopProcess {
            process_info,
            cancel_event: CancellationSignal::new(),
            phase: SessionPhase::Running,
        }
    }

    /// The single wide command-line buffer for the target and its
    /// arguments: every segment encoded as UTF-16 and closed by one nul
    /// unit, with one more nul unit closing the buffer.
    pub fn parse_run_args(target_path: &String, target_args: &Vec<String>) -> (r: Vec<u16>)
        requires
            nul_free_str(target_path@),
            forall|j: int| 0 <= j < target_args@.len() ==> nul_free_str(#[trigger] target_args@[j]@),
        ensures
            r@ == command_buffer(wide_segments(target_path@, target_args@)),
            target_path@.len() > 0 && (forall|j: int|
                0 <= j < target_args@.len() ==> (#[trigger] target_args@[j]@).len() > 0)
                ==> valid_segments(wide_segments(target_path@, target_args@)),
    {
        let path_w = encode_wide(target_path.as_str());
        let mut args_w: Vec<Vec<u16>> = Vec::new();
        let n = target_args.len();
        let mut j: usize = 0;
        while j < n
            invariant
                j <= n,
                n == target_args@.len(),
                forall|t: int|
                    0 <= t < target_args@.len() ==> nul_free_str(#[trigger] target_args@[t]@),
                args_w@.len() == j,
                path_w@ == wide_of(target_path@),
                nul_free(path_w@),
                target_path@.len() > 0 ==> path_w@.len() > 0,
                forall|t: int|
                    0 <= t < j ==> (#[trigger] args_w@[t])@ == wide_of(target_args@[t]@),
                forall|t: int| 0 <= t < j ==> nul_free((#[trigger] args_w@[t])@),
                forall|t: int|
                    0 <= t < j ==> (target_args@[t]@.len() > 0 ==> (#[trigger] args_w@[t])@.len()
                        > 0),
            decreases n - j,
        {
            args_w.push(encode_wide(target_args[j].as_str()));
            j = j + 1;
        }
        let buf = build_command_buffer(&path_w, &args_w);
        proof {
            let ws = wide_segments(target_path@, target_args@);
            assert(views_of(args_w@) =~= target_args@.map_values(|a: String| wide_of(a@)));
            assert(seq![path_w@] + views_of(args_w@) =~= ws);
            if target_path@.len() > 0 && (forall|t: int|
                0 <= t < target_args@.len() ==> (#[trigger] target_args@[t]@).len() > 0) {
                assert forall|t: int| 0 <= t < ws.len() implies (#[trigger] ws[t]).len() > 0
                    && nul_free(ws[t]) by {
                    if t == 0 {
                        assert(ws[t] == path_w@);
                    } else {
                        assert(ws[t] == args_w@[t - 1]@);
                        assert(target_args@[t - 1]@.len() > 0);
                    }
                }
            }
        }
        buf
    }

    /// The identifiers of the launched child.
    pub fn process_info(&self) -> (r: &ProcessInfo)
        ensures
            *r == self.spec_process_info(),
    {
        &self.process_info
    }

    /// The cancellation signal raced against the child's exit.
    pub fn cancel_event(&self) -> (r: &CancellationSignal)
        ensures
            *r == self.spec_cancel(),
    {
        &self.cancel_event
    }

    /// Where the session stands.
    pub fn phase(&self) -> (p: SessionPhase)
        ensures
            p == self.spec_phase(),
    {
        self.phase
    }

    /// Resolves a wake of the blocking wait, given the exit code the OS
    /// reported for the child. A code other than `STILL_ACTIVE_CODE`
    /// means the child exited on its own: the session completes with
    /// that code. `STILL_ACTIVE_CODE` means the wake came from the
    /// cancellation signal while the child still ran: the child is to be
    /// terminated by force and the outcome is zero. Either way the
    /// session leaves `Running`, so a probe right after shows no running
    /// process, and no second wait or kill can be written.
    pub fn resolve_wake(self, raw_exit_code: u32) -> (r: (VirtualDesktopProcess, i32))
        requires
            self.spec_phase() is Running,
        ensures
            !(r.0.spec_phase() is Running),
            r.0.spec_phase() is Completed <==> raw_exit_code != STILL_ACTIVE_CODE,
            r.0.spec_phase() is ForceTerminated <==> raw_exit_code == STILL_ACTIVE_CODE,
            r.0.spec_process_info() == self.spec_process_info(),
            r.0.spec_cancel() == self.spec_cancel(),
            r.1 == exit_outcome_of(raw_exit_code),
    {
        if raw_exit_code == STILL_ACTIVE_CODE {
            let s = VirtualDesktopProcess { phase: SessionPhase::ForceTerminated, ..self };
            (s, 0)
        } else {
            let s = VirtualDesktopProcess { phase: SessionPhase::Completed, ..self };
            let outcome = #[verifier::truncate] (raw_exit_code as i32);
            (s, outcome)
        }
    }

    /// Stops the child by force, unconditionally. Consuming the running
    /// session releases the process handle on this one path; a session
    /// already out of `Running` cannot be killed again.
    pub fn kill(self) -> (r: VirtualDesktopProcess)
        requires
            self.spec_phase() is Running,
        ensures
            r.spec_phase() is ForceTerminated,
            r.spec_process_info() == self.spec_process_info(),
            r.spec_cancel() == self.spec_cancel(),
    {
        VirtualDesktopProcess { phase: SessionPhase::ForceTerminated, ..self }
    }
}

/// The wide segments of a native command line: the target path first,
/// then each argument, all in their UTF-16 form.
pub open spec fn wide_segments(path: Seq<char>, args: Seq<String>) -> Seq<Seq<u16>> {
    seq![wide_of(path)] + args.map_values(|a: String| wide_of(a@))
}

/// The process-creation configuration an isolated surface produces: the
/// created process's window affinity goes to the surface, and its
/// standard streams bind through to the launcher's own, so
/// caller-visible I/O is preserved while the surface stays invisible.
pub struct LaunchConfig {
    /// The name of the surface the new process is bound to.
    pub desktop_name: String,
    /// Standard input, output and error bind to the launcher's own
    /// streams rather than being redirected.
    pub inherit_standard_streams: bool,
}

impl LaunchConfig {
    /// A field-for-field copy.
    pub fn duplicate(&self) -> (r: LaunchConfig)
        ensures
            r == self,
    {
        LaunchConfig {
            desktop_name: self.desktop_name.clone(),
            inherit_standard_streams: self.inherit_standard_streams,
        }
    }
}

/// Relies on uuid::Uuid::new_v4 and its hyphenated text form: a random
/// version-4 identifier written as exactly 36 characters, hexadecimal
/// digits and hyphens, so never a nul character. Nothing ties one
/// call's result to another's.
#[verifier::external_body]
fn fresh_identifier() -> (r: String)
    ensures
        r@.len() == 36,
        nul_free_str(r@),
{
    uuid::Uuid::new_v4().to_string()
}

/// Everything process creation needs for one native launch: the
/// double-terminated wide command buffer and the configuration binding
/// the new process to the isolated surface. The platform layer performs
/// the creation call itself and reports the identifiers back through
/// `VirtualDesktopProcess::started`.
pub struct NativeLaunch {
    pub command_buffer: Vec<u16>,
    pub config: LaunchConfig,
}

/// An isolated execution surface: a non-interactive desktop object with
/// a name of its own, plus the launch configuration that binds new
/// processes to it. Created once per run and exclusively owned; it must
/// outlive every session launched onto it, and `close` consumes it, so
/// a second release cannot be written.
pub struct VirtualDesktop {
    name: String,
    config: LaunchConfig,
}

impl VirtualDesktop {
    /// The surface's name, as contracts see it.
    pub closed spec fn spec_name(self) -> Seq<char> {
        self.name@
    }

    /// The surface's launch configuration, as contracts see it.
    pub closed spec fn spec_config(self) -> LaunchConfig {
        self.config
    }

    /// A fresh surface description: a name unique to this run under the
    /// library's own prefix, and a configuration that directs window
    /// affinity to that name while binding the standard streams through.
    /// The surface's capabilities extend to creating windows only, never
    /// to the interactive session.
    pub fn new() -> (d: VirtualDesktop)
        ensures
            d.spec_name().len() == "virtual-desktop-runner/"@.len() + 36,
            d.spec_name().take("virtual-desktop-runner/"@.len() as int)
                == "virtual-desktop-runner/"@,
            d.spec_config().desktop_name@ == d.spec_name(),
            d.spec_config().inherit_standard_streams,
    {
        let id = fresh_identifier();
        let mut name = String::from_str("virtual-desktop-runner/");
        name.append(id.as_str());
        proof {
            assert(name@.take(name@.len() - 36) =~= "virtual-desktop-runner/"@);
        }
        let config = LaunchConfig { desktop_name: name.clone(), inherit_standard_streams: true };
        VirtualDesktop { name, config }
    }

    /// The surface's name.
    pub fn name(&self) -> (r: &String)
        ensures
            r@ == self.spec_name(),
    {
        &self.name
    }

    /// The configuration that binds a new process to this surface.
    pub fn launch_config(&self) -> (r: &LaunchConfig)
        ensures
            *r == self.spec_config(),
    {
        &self.config
    }

    /// Builds the launch request for `target_path` with `target_args`,
    /// bound to this surface: the command buffer in its
    /// double-terminated wide form, and this surface's configuration.
    /// The platform layer performs the process-creation call.
    pub fn spawn_process(&self, target_path: &String, target_args: &Vec<String>) -> (r:
        NativeLaunch)
        requires
            nul_free_str(target_path@),
            forall|j: int| 0 <= j < target_args@.len() ==> nul_free_str(#[trigger] target_args@[j]@),
        ensures
            r.command_buffer@ == command_buffer(wide_segments(target_path@, target_args@)),
            r.config == self.spec_config(),
    {
        NativeLaunch {
            command_buffer: VirtualDesktopProcess::parse_run_args(target_path, target_args),
            config: self.config.duplicate(),
        }
    }

    /// Gives the surface up. Release of the native handle is the
    /// platform layer's one duty here; consuming the value makes a
    /// second close impossible to write, and no session bound to the
    /// surface can be started from it afterwards.
    pub fn close(self) {
    }
}

/// The state the native strategy needs to run a command transparently.
#[derive(Clone, Debug)]
pub struct TransparentRunnerImpl {}

impl Default for TransparentRunnerImpl {
    /// The strategy carries no state of its own.
    fn default() -> (r: TransparentRunnerImpl)
        ensures
            r == (TransparentRunnerImpl {  }),
    {
        TransparentRunnerImpl {  }
    }
}

impl TransparentRunnerImpl {
    /// Everything the native strategy decides before its first OS call:
    /// a fresh isolated surface and the launch request binding the
    /// command's target to it. The platform layer then creates the
    /// surface and the process; the non-blocking mode returns the
    /// child's identifier at once, the blocking mode waits through
    /// `VirtualDesktopProcess::resolve_wake` and closes the surface.
    pub fn spawn_transparent(&self, command: &CommandSpec) -> (r: (VirtualDesktop, NativeLaunch))
        requires
            nul_free_str(command.program@),
            forall|j: int| 0 <= j < command.args@.len() ==> nul_free_str(#[trigger] command.args@[j]@),
        ensures
            r.1.command_buffer@ == command_buffer(wide_segments(command.program@, command.args@)),
            r.1.config == r.0.spec_config(),
            r.1.config.desktop_name@ == r.0.spec_name(),
            r.1.config.inherit_standard_streams,
            r.0.spec_name().len() == "virtual-desktop-runner/"@.len() + 36,
            r.0.spec_name().take("virtual-desktop-runner/"@.len() as int)
                == "virtual-desktop-runner/"@,
    {
        let desktop = VirtualDesktop::new();
        let launch = desktop.spawn_process(&command.program, &command.args);
        (desktop, launch)
    }

    /// The blocking mode's last step: once the wait woke and the
    /// platform queried `raw_exit_code` for the child, the session is
    /// resolved first and the surface is released only after it — a
    /// surface never goes away under an unfinished session — and the
    /// exit outcome is returned: the child's own code, or zero when
    /// cancellation won the race and the child was terminated by force.
    pub fn finish_blocking_run(
        &self,
        desktop: VirtualDesktop,
        session: VirtualDesktopProcess,
        raw_exit_code: u32,
    ) -> (r: (VirtualDesktopProcess, i32))
        requires
            session.spec_phase() is Running,
        ensures
            !(r.0.spec_phase() is Running),
            r.0.spec_phase() is Completed <==> raw_exit_code != STILL_ACTIVE_CODE,
            r.0.spec_process_info() == session.spec_process_info(),
            r.1 == exit_outcome_of(raw_exit_code),
    {
        let (finished, outcome) = session.resolve_wake(raw_exit_code);
        desktop.close();
        (finished, outcome)
    }
}

} // verus!
