use vstd::prelude::*;
use crate::state::Status;
use crate::text::{joined, views};

verus! {

/// The system error that nix reports, carried through opaquely.
#[verifier::external_type_specification]
#[verifier::external_body]
pub struct ExErrno(nix::errno::Errno);

/// Relies on `nix::errno::Errno::desc`: a fixed description of the error; nothing is
/// assumed of its text.
pub assume_specification[ nix::errno::Errno::desc ](e: nix::errno::Errno) -> &'static str;

/// State of one supervised process.
#[derive(Debug, Clone, Copy, PartialEq, Eq, Structural)]
pub enum ServiceState {
    Stopped,
    Running,
    Failed,
}

/// A signal that the supervisor delivers to its child.
#[derive(Debug, Clone, Copy, PartialEq, Eq, Structural)]
pub enum ProcessSignal {
    /// Asks the child to end.
    Term,
    /// First user signal (a DHCP client renews its lease).
    Usr1,
    /// Second user signal (a DHCP client releases its lease).
    Usr2,
}

/// Relies on `nix::sys::signal::kill`: delivers the signal to the process, or reports the
/// system's error.
#[verifier::external_body]
fn kill_process(pid: i32, sig: ProcessSignal) -> (r: Result<(), nix::errno::Errno>)
    requires
        pid > 0,
{
    let s = match sig {
        ProcessSignal::Term => nix::sys::signal::Signal::SIGTERM,
        ProcessSignal::Usr1 => nix::sys::signal::Signal::SIGUSR1,
        ProcessSignal::Usr2 => nix::sys::signal::Signal::SIGUSR2,
    };
    nix::sys::signal::kill(nix::unistd::Pid::from_raw(pid), s)
}

/// What went wrong in supervision.
#[derive(Debug, Clone, PartialEq, Eq)]
pub enum SupervisorError {
    /// A child of this service is already running.
    AlreadyRunning,
    /// The signal could not be delivered; the system's reason is given.
    Signal(String),
}

/// A daemon to supervise: its command, its arguments and how long to wait before a restart.
pub trait ProcessService: Sized {
    /// The program to run.
    spec fn command_spec(&self) -> Seq<char>;

    /// The arguments to run it with.
    spec fn args_spec(&self) -> Seq<Seq<char>>;

    /// Seconds to wait before starting it again.
    spec fn restart_spec(&self) -> u64;

    /// Name used in logs.
    fn service_name(&self) -> &'static str;

    /// The program to run.
    fn command(&self) -> (r: &'static str)
        ensures
            r@ == self.command_spec(),
    ;

    /// Seconds to wait before starting it again.
    fn restart_time(&self) -> (r: u64)
        ensures
            r == self.restart_spec(),
            8 <= r <= 30,
    ;

    /// The arguments to run it with.
    fn get_args(&self) -> (r: Vec<String>)
        ensures
            views(r@) == self.args_spec(),
    ;
}

/// What the logic reads of a supervisor.
pub struct SupervisorView {
    pub state: ServiceState,
    pub pid: u32,
}

/// The supervisor's state after a child ends: it was stopped on purpose, or it failed.
pub open spec fn after_exit(v: SupervisorView) -> SupervisorView {
    SupervisorView {
        state: if v.state == ServiceState::Stopped { ServiceState::Stopped } else { ServiceState::Failed },
        pid: 0,
    }
}

/// Whether a start may launch a child: not while one is running or still recorded, so that
/// at most one child lives at a time.
pub open spec fn start_allowed(v: SupervisorView) -> bool {
    v.state != ServiceState::Running && v.pid == 0
}

/// The supervision of one daemon: the state of its child and the child's process id
/// (0 when none runs).
#[derive(Debug)]
pub struct ProcessManager<P> {
    meta: P,
    state: ServiceState,
    pid: u32,
}

impl<P> View for ProcessManager<P> {
    type V = SupervisorView;

    closed spec fn view(&self) -> SupervisorView {
        SupervisorView { state: self.state, pid: self.pid }
    }
}

/// What the outer loop does after a run of the child.
#[derive(Debug, Clone, Copy, PartialEq, Eq, Structural)]
pub enum RunStep {
    /// The daemon is shutting down: leave the loop.
    Exit,
    /// Start the child again after this many seconds.
    RestartAfter(u64),
}

/// The outer loop's step after a run of the child.
pub open spec fn run_step(status: Status, restart_delay: u64) -> RunStep {
    if status == Status::ShuttingDown {
        RunStep::Exit
    } else {
        RunStep::RestartAfter(restart_delay)
    }
}

/// The outer loop's decision after each run: leave only on shutdown, else restart after the
/// service's delay.
pub fn after_run(status: Status, restart_delay: u64) -> (r: RunStep)
    ensures
        r == run_step(status, restart_delay),
{
    if status == Status::ShuttingDown {
        RunStep::Exit
    } else {
        RunStep::RestartAfter(restart_delay)
    }
}

impl<P: ProcessService> ProcessManager<P> {
    /// A supervisor with no child yet.
    pub fn new(meta: P) -> (r: Self)
        ensures
            r@.state == ServiceState::Stopped,
            r@.pid == 0,
            r.meta() == meta,
    {
        ProcessManager { meta, state: ServiceState::Stopped, pid: 0 }
    }

    /// The daemon's description.
    pub closed spec fn meta(&self) -> P {
        self.meta
    }

    /// The daemon's description.
    pub fn meta_ref(&self) -> (r: &P)
        ensures
            *r == self.meta(),
    {
        &self.meta
    }

    /// The state of the child.
    pub fn current_state(&self) -> (r: ServiceState)
        ensures
            r == self@.state,
    {
        self.state
    }

    /// The child's process id, 0 when none runs.
    pub fn get_pid(&self) -> (r: u32)
        ensures
            r == self@.pid,
    {
        self.pid
    }

    /// Claims the right to launch a child: refused while one runs or has not yet been seen
    /// to end, else the state becomes running before the child is spawned.
    pub fn begin_start(&mut self) -> (r: Result<(), SupervisorError>)
        ensures
            start_allowed(old(self)@) <==> r is Ok,
            r is Ok ==> final(self)@ == (SupervisorView { state: ServiceState::Running, pid: 0 }),
            r is Err ==> r == Err::<(), SupervisorError>(SupervisorError::AlreadyRunning) && final(self)@ == old(self)@,
            final(self).meta() == old(self).meta(),
    {
        if self.state == ServiceState::Running || self.pid != 0 {
            Err(SupervisorError::AlreadyRunning)
        } else {
            self.state = ServiceState::Running;
            Ok(())
        }
    }

    /// Records the id of the child just spawned.
    pub fn set_pid(&mut self, pid: u32)
        ensures
            final(self)@ == (SupervisorView { state: old(self)@.state, pid }),
            final(self).meta() == old(self).meta(),
    {
        self.pid = pid;
    }

    /// The child could not be spawned: nothing runs, and the start failed.
    pub fn spawn_failed(&mut self)
        ensures
            final(self)@ == (SupervisorView { state: ServiceState::Failed, pid: 0 }),
            final(self).meta() == old(self).meta(),
    {
        self.state = ServiceState::Failed;
        self.pid = 0;
    }

    /// The child ended: its id is cleared; unless it was stopped on purpose, it failed.
    pub fn child_exited(&mut self)
        ensures
            final(self)@ == after_exit(old(self)@),
            final(self).meta() == old(self).meta(),
    {
        if self.state != ServiceState::Stopped {
            self.state = ServiceState::Failed;
        }
        self.pid = 0;
    }

    /// The process id and signal that a signal to the child hands to `kill`: none when no
    /// child is recorded, or when its id does not fit a signed 32-bit number.
    pub fn kill_args(&self, sig: ProcessSignal) -> (r: Option<(i32, ProcessSignal)>)
        ensures
            r == kill_target(self@, sig),
    {
        if self.pid != 0 && self.pid <= 0x7fff_ffff {
            Some((self.pid as i32, sig))
        } else {
            None
        }
    }

    /// Delivers a signal to the child when one runs; does nothing otherwise. What is handed
    /// to `kill` is exactly `kill_args`.
    pub fn signal(&self, sig: ProcessSignal) -> (r: Result<(), SupervisorError>)
        ensures
            kill_target(self@, sig) is None ==> r is Ok,
            r matches Err(e) ==> e is Signal,
    {
        match self.kill_args(sig) {
            Some((pid, s)) => deliver(pid, s),
            None => Ok(()),
        }
    }

    /// Shutdown was announced: the service is stopped on purpose and its child is asked to
    /// end by a termination signal, handed to `kill` as `kill_args(Term)` gives it.
    pub fn on_shutdown(&mut self) -> (r: Result<(), SupervisorError>)
        ensures
            final(self)@ == (SupervisorView { state: ServiceState::Stopped, pid: old(self)@.pid }),
            kill_target(old(self)@, ProcessSignal::Term) is None ==> r is Ok,
            r matches Err(e) ==> e is Signal,
            final(self).meta() == old(self).meta(),
    {
        self.state = ServiceState::Stopped;
        self.signal(ProcessSignal::Term)
    }
}

/// The process id and signal handed to `kill` for a supervisor in state `v`.
pub open spec fn kill_target(v: SupervisorView, sig: ProcessSignal) -> Option<(i32, ProcessSignal)> {
    if v.pid != 0 && v.pid <= 0x7fff_ffff {
        Some((v.pid as i32, sig))
    } else {
        None
    }
}

/// Hands a signal to `kill` and reports the system's refusal as the library's error.
pub(crate) fn deliver(pid: i32, sig: ProcessSignal) -> (r: Result<(), SupervisorError>)
    requires
        pid > 0,
    ensures
        r matches Err(e) ==> e is Signal,
{
    match kill_process(pid, sig) {
        Ok(()) => Ok(()),
        Err(e) => Err(SupervisorError::Signal(joined("", e.desc()))),
    }
}

impl SupervisorError {
    /// The text shown to a user, for the service of the given name.
    pub fn message(&self, service: &str) -> (r: String)
        ensures
            *self == SupervisorError::AlreadyRunning ==> r@ == service@ + " service is already running!"@,
            self matches SupervisorError::Signal(m) ==> r@ == m@,
    {
        match self {
            SupervisorError::AlreadyRunning => joined(service, " service is already running!"),
            SupervisorError::Signal(m) => m.clone(),
        }
    }
}

/// A child that crashes while running is next seen as failed, its id cleared; unless the
/// daemon is shutting down, the loop starts it again after the service's delay, and that
/// start is allowed and makes it running.
pub proof fn lemma_crash_then_restart(v: SupervisorView, status: Status, delay: u64)
    requires
        v.state == ServiceState::Running,
        status != Status::ShuttingDown,
    ensures
        after_exit(v).state == ServiceState::Failed,
        after_exit(v).pid == 0,
        run_step(status, delay) == RunStep::RestartAfter(delay),
        start_allowed(after_exit(v)),
{
}

} // verus!
