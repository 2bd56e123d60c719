use vstd::prelude::*;
use crate::bus::{broadcast, BusError, Event, EventBus};
use crate::config::VagabondConfig;
use crate::text::owned;

verus! {

/// Global run-state of the daemon.
#[derive(Debug, Clone, Copy, PartialEq, Eq, Structural)]
pub enum Status {
    Starting,
    Running,
    ShuttingDown,
}

impl Status {
    /// Position of a status along the only order in which statuses may follow each other.
    pub open spec fn rank(self) -> nat {
        match self {
            Status::Starting => 0,
            Status::Running => 1,
            Status::ShuttingDown => 2,
        }
    }

    /// A change of status that the lifecycle allows: forward only, and nothing after shutdown.
    pub open spec fn may_follow(self, next: Status) -> bool {
        ||| self == next && self != Status::ShuttingDown
        ||| self.rank() < next.rank()
    }
}

/// A change of status that keeps the order: equal or later, and nothing but shutdown after
/// shutdown.
pub open spec fn advances(a: Status, b: Status) -> bool {
    &&& a.rank() <= b.rank()
    &&& a == Status::ShuttingDown ==> b == Status::ShuttingDown
}

/// What went wrong with the shared state.
#[derive(Debug, Clone, Copy, PartialEq, Eq, Structural)]
pub enum StateError {
    /// An app instance was installed before.
    AppAlreadySet,
    /// No app instance has been installed yet.
    AppNotAvailable,
}

impl StateError {
    /// The text shown to a user.
    pub fn message(&self) -> (r: String)
        ensures
            *self == StateError::AppAlreadySet ==> r@ == "App instance already initialized!"@,
            *self == StateError::AppNotAvailable ==> r@ == "Vagabond instance not yet available!"@,
    {
        match self {
            StateError::AppAlreadySet => owned("App instance already initialized!"),
            StateError::AppNotAvailable => owned("Vagabond instance not yet available!"),
        }
    }
}

/// What the logic reads of the state manager.
pub struct StateView<A> {
    pub status: Status,
    pub app: Option<A>,
    pub config: VagabondConfig,
}

/// The configuration, the run-state, and the assembled app once it is installed.
#[derive(Debug)]
pub struct StateManager<A> {
    config: VagabondConfig,
    app: Option<A>,
    status: Status,
}

impl<A> View for StateManager<A> {
    type V = StateView<A>;

    closed spec fn view(&self) -> StateView<A> {
        StateView { status: self.status, app: self.app, config: self.config }
    }
}

/// Whether the shutdown drain may end.
#[derive(Debug, Clone, Copy, PartialEq, Eq, Structural)]
pub enum DrainStep {
    /// Every subscriber has gone: shutdown is complete.
    Done,
    /// Subscribers remain: poll again after this many milliseconds.
    PollAfter(u64),
}

/// Milliseconds between two looks at the number of subscribers while draining.
pub const DRAIN_POLL_MS: u64 = 100;

/// The drain decision: done exactly when no subscriber is left.
pub fn drain_step(receivers: usize) -> (r: DrainStep)
    ensures
        r == DrainStep::Done <==> receivers == 0,
        r != DrainStep::Done ==> r == DrainStep::PollAfter(DRAIN_POLL_MS),
{
    if receivers == 0 {
        DrainStep::Done
    } else {
        DrainStep::PollAfter(DRAIN_POLL_MS)
    }
}

impl<A> StateManager<A> {
    /// A manager for a freshly loaded configuration: starting, with no app yet.
    pub fn new(config: VagabondConfig) -> (r: Self)
        ensures
            r@.status == Status::Starting,
            r@.app.is_none(),
            r@.config == config,
    {
        StateManager { config, app: None, status: Status::Starting }
    }

    /// The configuration loaded at start.
    pub fn config(&self) -> (r: &VagabondConfig)
        ensures
            *r == self@.config,
    {
        &self.config
    }

    /// The run-state now.
    pub fn current_status(&self) -> (r: Status)
        ensures
            r == self@.status,
    {
        self.status
    }

    /// Moves to `next` if the lifecycle allows it; reports whether it did.
    pub fn transition(&mut self, next: Status) -> (r: bool)
        ensures
            r == old(self)@.status.may_follow(next),
            final(self)@.status == (if r { next } else { old(self)@.status }),
            final(self)@.app == old(self)@.app,
            final(self)@.config == old(self)@.config,
            advances(old(self)@.status, final(self)@.status),
    {
        let ok = match (self.status, next) {
            (Status::Starting, _) => true,
            (Status::Running, Status::Starting) => false,
            (Status::Running, _) => true,
            (Status::ShuttingDown, _) => false,
        };
        if ok {
            self.status = next;
        }
        ok
    }

    /// Startup is over: a starting daemon is now running; any later status stays.
    pub fn finish_startup(&mut self)
        ensures
            final(self)@.status == (if old(self)@.status == Status::Starting {
                Status::Running
            } else {
                old(self)@.status
            }),
            final(self)@.app == old(self)@.app,
            final(self)@.config == old(self)@.config,
            advances(old(self)@.status, final(self)@.status),
    {
        if self.status == Status::Starting {
            self.status = Status::Running;
        }
    }

    /// Marks the daemon as shutting down and tells every subscriber of the bus. The caller
    /// then drains: it polls the subscriber count until `drain_step` says done.
    pub fn shutdown(&mut self, bus: &EventBus) -> (r: Result<usize, BusError>)
        ensures
            final(self)@.status == Status::ShuttingDown,
            final(self)@.app == old(self)@.app,
            final(self)@.config == old(self)@.config,
            advances(old(self)@.status, final(self)@.status),
            r matches Ok(n) ==> n > 0,
    {
        self.status = Status::ShuttingDown;
        broadcast(bus, Event::Shutdown)
    }

    /// Installs the assembled app; there is only ever one.
    pub fn set_app_instance(&mut self, app: A) -> (r: Result<(), StateError>)
        ensures
            old(self)@.app is Some ==> r == Err::<(), StateError>(StateError::AppAlreadySet) && final(self)@ == old(self)@,
            old(self)@.app is None ==> r is Ok && final(self)@ == (StateView { app: Some(app), ..old(self)@ }),
    {
        if self.app.is_some() {
            Err(StateError::AppAlreadySet)
        } else {
            self.app = Some(app);
            Ok(())
        }
    }

    /// The installed app.
    pub fn vagabond(&self) -> (r: Result<&A, StateError>)
        ensures
            self@.app is None ==> r == Err::<&A, StateError>(StateError::AppNotAvailable),
            self@.app matches Some(a) ==> (r matches Ok(x) && *x == a),
    {
        match &self.app {
            Some(a) => Ok(a),
            None => Err(StateError::AppNotAvailable),
        }
    }
}

/// Along any run whose every step keeps the order, the status never moves back, and once
/// shutting down nothing else follows.
pub proof fn lemma_status_never_regresses(run: Seq<Status>, i: int, j: int)
    requires
        forall|k: int| 0 <= k < run.len() - 1 ==> advances(#[trigger] run[k], run[k + 1]),
        0 <= i <= j < run.len(),
    ensures
        run[i].rank() <= run[j].rank(),
        run[i] == Status::ShuttingDown ==> run[j] == Status::ShuttingDown,
    decreases j - i,
{
    if i < j {
        lemma_status_never_regresses(run, i, j - 1);
        assert(advances(run[j - 1], run[j]));
    }
}

} // verus!
