//! The ECall gateway: the once-only initializer and the per-call decision
//! logic of process creation and thread execution.
//!
//! The gateway is a small state machine, `Uninitialized` until one
//! initialization call succeeds and `Ready` ever after. Its configuration
//! (the entry-point allow-list and the process environment) is loaded before
//! any call can succeed and is read-only thereafter; the `Ready` state adds
//! only the instance directory and the enclave image path derived from it,
//! written once and never mutated.
//!
//! The platform work itself is the embedding runtime's: each gateway call is
//! split into a *request* step that validates everything and decides what to
//! do, and a *complete* step that turns the outcome the runtime reports —
//! including a contained internal fault — into the status integer returned
//! across the boundary. The runtime must run the wrapped work under unwind
//! capture and report a fault outcome rather than let anything unwind out of
//! the enclave; the completion functions here guarantee that a fault is
//! reported as exactly `-EFAULT`, so no enclave-internal fault detail crosses
//! the trust boundary.

use vstd::prelude::*;
use vstd::string::StringSliceAdditionalSpecFns;

use crate::errno::Errno;
use crate::log_level::{
    effective_level, parse_log_level, spec_effective_level, spec_parse_log_level, LevelFilter,
};
use crate::marshal::{parse_arguments, spec_parse_arguments, utf8_ok, HostStdioFds};
use vstd::utf8::valid_utf8;
use crate::path_policy::{spec_validate_program_path, validate_program_path};

verus! {

/// What the platform capability probe reports: whether this enclave may run
/// with debug diagnostics, and whether the extended (MPX) instruction set is
/// available.
#[derive(Clone, Copy, Debug, PartialEq, Eq, Structural)]
pub struct PlatformInfo {
    pub debug_allowed: bool,
    pub mpx_available: bool,
}

/// One step of the ordered one-time initialization sequence the runtime must
/// perform: bring up logging first (so later steps can log), then enable the
/// extended instruction set where available, then register the exception
/// handlers.
#[derive(Clone, Copy, Debug, PartialEq, Eq, Structural)]
pub enum InitStep {
    InitLogger { level: LevelFilter },
    EnableMpx,
    RegisterExceptionHandlers,
}

impl View for InitStep {
    type V = InitStep;

    open spec fn view(&self) -> InitStep {
        *self
    }
}

impl DeepView for InitStep {
    type V = InitStep;

    open spec fn deep_view(&self) -> InitStep {
        *self
    }
}

/// The gateway's configuration, loaded before any call can succeed and
/// read-only thereafter: the entry-point allow-list (path prefixes the host
/// may launch binaries under) and the environment given to every new process.
pub struct LibosConfig {
    pub entry_points: Vec<Vec<u8>>,
    pub env: Vec<Vec<u8>>,
}

/// The state written by the one successful initialization call.
pub struct ReadyState {
    pub instance_dir: Vec<u8>,
    pub enclave_path: Vec<u8>,
    pub log_level: LevelFilter,
}

pub enum GatewayState {
    Uninitialized,
    Ready(ReadyState),
}

/// The ECall gateway.
pub struct Gateway {
    pub config: LibosConfig,
    pub state: GatewayState,
}

/// The mathematical model of the gateway: byte strings as sequences.
pub struct GatewayView {
    pub entry_points: Seq<Seq<u8>>,
    pub env: Seq<Seq<u8>>,
    pub state: GatewayStateView,
}

pub enum GatewayStateView {
    Uninitialized,
    Ready { instance_dir: Seq<u8>, enclave_path: Seq<u8>, log_level: LevelFilter },
}

impl View for Gateway {
    type V = GatewayView;

    open spec fn view(&self) -> GatewayView {
        GatewayView {
            entry_points: self.config.entry_points.deep_view(),
            env: self.config.env.deep_view(),
            state: match self.state {
                GatewayState::Uninitialized => GatewayStateView::Uninitialized,
                GatewayState::Ready(rs) => GatewayStateView::Ready {
                    instance_dir: rs.instance_dir@,
                    enclave_path: rs.enclave_path@,
                    log_level: rs.log_level,
                },
            },
        }
    }
}

/// The fixed suffix appended to the instance directory to name the enclave
/// image, used for best-effort symbolic fault reporting.
pub open spec fn spec_enclave_so_suffix() -> Seq<u8> {
    "/build/lib/libocclum-libos.signed.so".spec_bytes()
}

fn enclave_so_suffix() -> (r: Vec<u8>)
    ensures
        r@ == spec_enclave_so_suffix(),
{
    let s: &str = "/build/lib/libocclum-libos.signed.so";
    vstd::slice::slice_to_vec(s.as_bytes())
}

/// The enclave image path derived from the instance directory.
pub open spec fn spec_enclave_image_path(instance_dir: Seq<u8>) -> Seq<u8> {
    instance_dir + spec_enclave_so_suffix()
}

fn enclave_image_path(instance_dir: &Vec<u8>) -> (r: Vec<u8>)
    ensures
        r@ == spec_enclave_image_path(instance_dir@),
{
    let mut r: Vec<u8> = Vec::new();
    let mut i: usize = 0;
    while i < instance_dir.len()
        invariant
            i <= instance_dir@.len(),
            r@ == instance_dir@.subrange(0, i as int),
        decreases instance_dir@.len() - i,
    {
        r.push(instance_dir[i]);
        i += 1;
        proof {
            assert(r@ =~= instance_dir@.subrange(0, i as int));
        }
    }
    proof {
        assert(r@ =~= instance_dir@);
    }
    let mut suffix = enclave_so_suffix();
    r.append(&mut suffix);
    r
}

/// The ordered initialization steps for an effective verbosity and the
/// platform's capabilities.
pub open spec fn spec_init_steps(level: LevelFilter, mpx_available: bool) -> Seq<InitStep> {
    seq![InitStep::InitLogger { level }] + (if mpx_available {
        seq![InitStep::EnableMpx]
    } else {
        Seq::<InitStep>::empty()
    }) + seq![InitStep::RegisterExceptionHandlers]
}

/// The initialization transition: what one `init` call does to the gateway
/// and what it returns.
///
/// A gateway that is already `Ready` is left unchanged and the call fails
/// with `EEXIST`, performing no work. Otherwise the verbosity argument is
/// parsed and the instance directory must be text (a marshaling failure is
/// returned as its errno and the gateway stays uninitialized, so a later call
/// may succeed), the effective level is gated by the platform's debug
/// capability, and the gateway becomes `Ready` with the derived enclave image
/// path, returning status 0 and the ordered initialization steps to perform.
pub open spec fn spec_init(
    pre: GatewayView,
    log_level: Option<Seq<u8>>,
    instance_dir: Seq<u8>,
    platform: PlatformInfo,
) -> (GatewayView, int, Option<Seq<InitStep>>) {
    if pre.state is Ready {
        (pre, Errno::EEXIST.spec_ecall_status(), None::<Seq<InitStep>>)
    } else {
        match spec_parse_log_level(log_level) {
            Err(e) => (pre, e.spec_ecall_status(), None),
            Ok(requested) => if !valid_utf8(instance_dir) {
                (pre, Errno::EINVAL.spec_ecall_status(), None)
            } else {
                let level = spec_effective_level(requested, platform.debug_allowed);
                let post = GatewayView {
                    entry_points: pre.entry_points,
                    env: pre.env,
                    state: GatewayStateView::Ready {
                        instance_dir,
                        enclave_path: spec_enclave_image_path(instance_dir),
                        log_level: level,
                    },
                };
                (post, 0, Some(spec_init_steps(level, platform.mpx_available)))
            },
        }
    }
}

/// Everything the external process subsystem needs to create (but not yet
/// run) a new LibOS process: the validated program path, the full argument
/// vector (file name first), the configured environment, and the validated
/// stdio bindings. The initial file-action list of the new process is empty;
/// the current process is its parent.
pub struct SpawnRequest {
    pub program_path: Vec<u8>,
    pub argv: Vec<Vec<u8>>,
    pub env: Vec<Vec<u8>>,
    pub host_stdio_fds: HostStdioFds,
}

pub struct SpawnRequestView {
    pub program_path: Seq<u8>,
    pub argv: Seq<Seq<u8>>,
    pub env: Seq<Seq<u8>>,
    pub host_stdio_fds: HostStdioFds,
}

impl View for SpawnRequest {
    type V = SpawnRequestView;

    open spec fn view(&self) -> SpawnRequestView {
        SpawnRequestView {
            program_path: self.program_path@,
            argv: self.argv.deep_view(),
            env: self.env.deep_view(),
            host_stdio_fds: self.host_stdio_fds,
        }
    }
}

/// The process-creation request transition: what `new_process` decides before
/// any spawn is attempted.
///
/// An uninitialized gateway rejects the call with `EAGAIN` before any
/// validation. Otherwise the untrusted arguments are marshaled and the
/// program path is held to the entry-point policy; the first failure wins and
/// is returned as its negative errno. On success the spawn request is built:
/// the marshaled path, the file name followed by the host's arguments, the
/// configured environment, and the validated stdio bindings.
pub open spec fn spec_new_process_request(
    g: GatewayView,
    path: Option<Seq<u8>>,
    argv: Seq<Seq<u8>>,
    host_stdio_fds: Option<(i32, i32, i32)>,
) -> Result<SpawnRequestView, int> {
    if !(g.state is Ready) {
        Err(Errno::EAGAIN.spec_ecall_status())
    } else {
        match spec_parse_arguments(path, argv, host_stdio_fds) {
            Err(e) => Err(e.spec_ecall_status()),
            Ok((program_path, full_argv, fds)) => match spec_validate_program_path(
                program_path,
                g.entry_points,
            ) {
                Err(e) => Err(e.spec_ecall_status()),
                Ok(_) => Ok(
                    SpawnRequestView {
                        program_path,
                        argv: full_argv,
                        env: g.env,
                        host_stdio_fds: fds,
                    },
                ),
            },
        }
    }
}

/// What the external process subsystem reported for a spawn attempt: a new
/// process id, a failure with its errno, or a contained internal fault.
#[derive(Clone, Copy, Debug, PartialEq, Eq, Structural)]
pub enum SpawnOutcome {
    Spawned { pid: i32 },
    Failed { errno: Errno },
    Fault,
}

/// The status a finished spawn attempt reports to the host: the new process
/// id on success, the subsystem's own negative errno on an ordinary failure,
/// and exactly `-EFAULT` for a contained fault — by design the host learns
/// nothing more of an enclave-internal fault.
pub open spec fn spec_new_process_complete(outcome: SpawnOutcome) -> int {
    match outcome {
        SpawnOutcome::Spawned { pid } => pid as int,
        SpawnOutcome::Failed { errno } => errno.spec_ecall_status(),
        SpawnOutcome::Fault => Errno::EFAULT.spec_ecall_status(),
    }
}

/// The thread-execution task handed to the external task runtime: which LibOS
/// thread to run, under which host thread identity.
#[derive(Clone, Copy, Debug, PartialEq, Eq, Structural)]
pub struct ExecThreadTask {
    pub libos_tid: i32,
    pub host_tid: i32,
}

/// The thread-execution request transition: an uninitialized gateway rejects
/// the call with `EAGAIN`; otherwise both identifiers pass through unchanged.
pub open spec fn spec_exec_thread_request(g: GatewayView, libos_tid: i32, host_tid: i32) -> Result<
    ExecThreadTask,
    int,
> {
    if g.state is Ready {
        Ok(ExecThreadTask { libos_tid, host_tid })
    } else {
        Err(Errno::EAGAIN.spec_ecall_status())
    }
}

/// What the task runtime reported for a thread execution: the thread ran to
/// completion with a wait-encoded exit status (followed by the result of the
/// filesystem sync that runs after every completion), it failed to run with
/// an errno, or a contained internal fault occurred.
#[derive(Clone, Copy, Debug)]
pub enum ThreadExecOutcome {
    Exited { exit_status: i32, sync: Result<(), Errno> },
    Failed { errno: Errno },
    Fault,
}

/// The status a finished thread execution reports to the host: the exit
/// status unmodified (its encoding is the wait-family's, not reinterpreted
/// here) when the thread completed and the filesystem sync succeeded; the
/// sync's or the runtime's own negative errno otherwise; and exactly
/// `-EFAULT` for a contained fault.
pub open spec fn spec_exec_thread_complete(outcome: ThreadExecOutcome) -> int {
    match outcome {
        ThreadExecOutcome::Exited { exit_status, sync } => match sync {
            Ok(_) => exit_status as int,
            Err(e) => e.spec_ecall_status(),
        },
        ThreadExecOutcome::Failed { errno } => errno.spec_ecall_status(),
        ThreadExecOutcome::Fault => Errno::EFAULT.spec_ecall_status(),
    }
}

impl Gateway {
    /// A gateway over loaded configuration, not yet initialized.
    pub fn new(config: LibosConfig) -> (r: Gateway)
        ensures
            r@.entry_points == config.entry_points.deep_view(),
            r@.env == config.env.deep_view(),
            r@.state is Uninitialized,
    {
        Gateway { config, state: GatewayState::Uninitialized }
    }

    /// One-time initialization, `occlum_ecall_init`'s decision logic.
    ///
    /// Returns the status to report and, on the one successful call, the
    /// ordered initialization steps the runtime must perform. The instance
    /// directory must already be marshaled: a null pointer there is a
    /// programming error of the integration, not host input, and is asserted
    /// by the caller.
    pub fn init(
        &mut self,
        log_level: Option<Vec<u8>>,
        instance_dir: Vec<u8>,
        platform: PlatformInfo,
    ) -> (r: (i32, Option<Vec<InitStep>>))
        ensures
            ({
                let (post, status, steps) = spec_init(
                    old(self)@,
                    log_level.deep_view(),
                    instance_dir@,
                    platform,
                );
                &&& final(self)@ == post
                &&& r.0 as int == status
                &&& r.1.deep_view() == steps
            }),
    {
        match &self.state {
            GatewayState::Ready(_) => {
                return (Errno::EEXIST.ecall_status(), None);
            },
            GatewayState::Uninitialized => {},
        }
        let requested = match parse_log_level(log_level) {
            Err(e) => {
                return (e.ecall_status(), None);
            },
            Ok(l) => l,
        };
        if !utf8_ok(&instance_dir) {
            return (Errno::EINVAL.ecall_status(), None);
        }
        let level = effective_level(requested, platform.debug_allowed);
        let mut steps: Vec<InitStep> = Vec::new();
        steps.push(InitStep::InitLogger { level });
        if platform.mpx_available {
            steps.push(InitStep::EnableMpx);
        }
        steps.push(InitStep::RegisterExceptionHandlers);
        proof {
            assert(steps.deep_view() =~= spec_init_steps(level, platform.mpx_available));
        }
        let enclave_path = enclave_image_path(&instance_dir);
        self.state = GatewayState::Ready(
            ReadyState { instance_dir, enclave_path, log_level: level },
        );
        (0, Some(steps))
    }

    /// Validate a process-creation call and build the spawn request,
    /// `occlum_ecall_new_process`'s decision logic up to the spawn itself.
    ///
    /// `Err` carries the negative status to return at once; `Ok` carries the
    /// request the runtime hands to the process subsystem, under unwind
    /// capture, reporting the outcome to `new_process_complete`.
    pub fn new_process_request(
        &self,
        path: Option<Vec<u8>>,
        argv: Vec<Vec<u8>>,
        host_stdio_fds: Option<(i32, i32, i32)>,
    ) -> (r: Result<SpawnRequest, i32>)
        ensures
            ({
                let sr = spec_new_process_request(
                    self@,
                    path.deep_view(),
                    argv.deep_view(),
                    host_stdio_fds,
                );
                &&& (r is Ok <==> sr is Ok)
                &&& (r matches Ok(req) ==> sr matches Ok(v) && req@ == v)
                &&& (r matches Err(s) ==> sr matches Err(vs) && s as int == vs)
            }),
    {
        match &self.state {
            GatewayState::Uninitialized => {
                return Err(Errno::EAGAIN.ecall_status());
            },
            GatewayState::Ready(_) => {},
        }
        let (program_path, full_argv, fds) = match parse_arguments(path, argv, host_stdio_fds) {
            Ok(t) => t,
            Err(e) => {
                return Err(e.ecall_status());
            },
        };
        match validate_program_path(&program_path, &self.config.entry_points) {
            Ok(_) => {},
            Err(e) => {
                return Err(e.ecall_status());
            },
        }
        let env = clone_byte_strings(&self.config.env);
        Ok(SpawnRequest { program_path, argv: full_argv, env, host_stdio_fds: fds })
    }

    /// Gate a thread-execution call, `occlum_ecall_exec_thread`'s decision
    /// logic before the task runtime runs the thread.
    pub fn exec_thread_request(&self, libos_tid: i32, host_tid: i32) -> (r: Result<
        ExecThreadTask,
        i32,
    >)
        ensures
            ({
                let sr = spec_exec_thread_request(self@, libos_tid, host_tid);
                &&& (r is Ok <==> sr is Ok)
                &&& (r matches Ok(t) ==> sr matches Ok(v) && t == v)
                &&& (r matches Err(s) ==> sr matches Err(vs) && s as int == vs)
            }),
    {
        match &self.state {
            GatewayState::Uninitialized => Err(Errno::EAGAIN.ecall_status()),
            GatewayState::Ready(_) => Ok(ExecThreadTask { libos_tid, host_tid }),
        }
    }
}

/// Turn a reported spawn outcome into the status returned across the
/// boundary. This is the single place an unhandled failure mode of process
/// creation collapses into the fault code.
pub fn new_process_complete(outcome: SpawnOutcome) -> (r: i32)
    ensures
        r as int == spec_new_process_complete(outcome),
{
    match outcome {
        SpawnOutcome::Spawned { pid } => pid,
        SpawnOutcome::Failed { errno } => errno.ecall_status(),
        SpawnOutcome::Fault => Errno::EFAULT.ecall_status(),
    }
}

/// Turn a reported thread-execution outcome into the status returned across
/// the boundary. This is the single place an unhandled failure mode of thread
/// execution collapses into the fault code.
pub fn exec_thread_complete(outcome: ThreadExecOutcome) -> (r: i32)
    ensures
        r as int == spec_exec_thread_complete(outcome),
{
    match outcome {
        ThreadExecOutcome::Exited { exit_status, sync } => match sync {
            Ok(_) => exit_status,
            Err(e) => e.ecall_status(),
        },
        ThreadExecOutcome::Failed { errno } => errno.ecall_status(),
        ThreadExecOutcome::Fault => Errno::EFAULT.ecall_status(),
    }
}

fn clone_byte_strings(v: &Vec<Vec<u8>>) -> (r: Vec<Vec<u8>>)
    ensures
        r.deep_view() == v.deep_view(),
{
    let mut r: Vec<Vec<u8>> = Vec::new();
    let mut i: usize = 0;
    while i < v.len()
        invariant
            i <= v@.len(),
            r@.len() == i,
            forall|k: int| 0 <= k < i ==> #[trigger] r@[k]@ == v@[k]@,
        decreases v@.len() - i,
    {
        let mut s: Vec<u8> = Vec::new();
        let mut j: usize = 0;
        while j < v[i].len()
            invariant
                i < v@.len(),
                j <= v@[i as int]@.len(),
                s@ == v@[i as int]@.subrange(0, j as int),
            decreases v@[i as int]@.len() - j,
        {
            s.push(v[i][j]);
            j += 1;
            proof {
                assert(s@ =~= v@[i as int]@.subrange(0, j as int));
            }
        }
        proof {
            assert(s@ =~= v@[i as int]@);
        }
        r.push(s);
        i += 1;
    }
    proof {
        assert forall|k: int| 0 <= k < r.deep_view().len() implies r.deep_view()[k]
            == v.deep_view()[k] by {
            assert(r.deep_view()[k] == r@[k].deep_view());
            assert(v.deep_view()[k] == v@[k].deep_view());
            assert(r@[k].deep_view() =~= r@[k]@);
            assert(v@[k].deep_view() =~= v@[k]@);
        }
        assert(r.deep_view() =~= v.deep_view());
    }
    r
}

/// Law: initialization is idempotent. From an uninitialized gateway, a call
/// with a well-formed verbosity argument succeeds, and every later call —
/// whatever its arguments — returns `EEXIST` and leaves the gateway exactly
/// as the successful call left it.
pub proof fn lemma_init_idempotent(
    pre: GatewayView,
    log_level: Option<Seq<u8>>,
    instance_dir: Seq<u8>,
    platform: PlatformInfo,
    log_level2: Option<Seq<u8>>,
    instance_dir2: Seq<u8>,
    platform2: PlatformInfo,
)
    requires
        pre.state is Uninitialized,
        spec_parse_log_level(log_level) is Ok,
        valid_utf8(instance_dir),
    ensures
        spec_init(pre, log_level, instance_dir, platform).1 == 0,
        ({
            let post = spec_init(pre, log_level, instance_dir, platform).0;
            let second = spec_init(post, log_level2, instance_dir2, platform2);
            &&& second.1 == Errno::EEXIST.spec_ecall_status()
            &&& second.0 == post
            &&& second.2 is None
        }),
{
}

/// Law: gate ordering. Before any successful initialization, every
/// process-creation and thread-execution request fails with `EAGAIN`: no
/// validation runs, no spawn request or task is ever produced.
pub proof fn lemma_gate_ordering(
    g: GatewayView,
    path: Option<Seq<u8>>,
    argv: Seq<Seq<u8>>,
    host_stdio_fds: Option<(i32, i32, i32)>,
    libos_tid: i32,
    host_tid: i32,
)
    requires
        !(g.state is Ready),
    ensures
        spec_new_process_request(g, path, argv, host_stdio_fds) == Err::<SpawnRequestView, int>(
            Errno::EAGAIN.spec_ecall_status(),
        ),
        spec_exec_thread_request(g, libos_tid, host_tid) == Err::<ExecThreadTask, int>(
            Errno::EAGAIN.spec_ecall_status(),
        ),
{
}

/// Law: a spawn request is never built unless its program path passed the
/// whole entry-point policy — absolute, traversal-free, and under a
/// configured prefix — and its argument list is the file name followed by the
/// host's arguments.
pub proof fn lemma_spawn_request_only_for_accepted_paths(
    g: GatewayView,
    path: Option<Seq<u8>>,
    argv: Seq<Seq<u8>>,
    host_stdio_fds: Option<(i32, i32, i32)>,
)
    requires
        spec_new_process_request(g, path, argv, host_stdio_fds) is Ok,
    ensures
        ({
            let req = spec_new_process_request(g, path, argv, host_stdio_fds)->Ok_0;
            &&& crate::path_policy::spec_path_accepted(req.program_path, g.entry_points)
            &&& req.program_path == path->Some_0
            &&& req.argv == seq![
                crate::path_policy::spec_file_name(req.program_path)->Some_0,
            ] + argv
            &&& req.env == g.env
        }),
{
}

/// Law: fault containment. A contained internal fault during process
/// creation or thread execution is reported as exactly `-EFAULT`, whatever
/// happened inside; no other outcome maps to that code path's collapse.
pub proof fn lemma_fault_collapses_to_efault()
    ensures
        spec_new_process_complete(SpawnOutcome::Fault) == Errno::EFAULT.spec_ecall_status(),
        spec_exec_thread_complete(ThreadExecOutcome::Fault) == Errno::EFAULT.spec_ecall_status(),
{
}

/// Law: the exit status of a completed thread whose filesystem sync succeeded
/// is returned to the host unmodified.
pub proof fn lemma_exit_status_preserved(exit_status: i32)
    ensures
        spec_exec_thread_complete(
            ThreadExecOutcome::Exited { exit_status, sync: Ok(()) },
        ) == exit_status as int,
{
}

} // verus!
