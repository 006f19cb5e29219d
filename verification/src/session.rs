//! The compositor session: lifecycle state machine, event dispatch,
//! blend-mode negotiation and exit-request handling.
//!
//! One poll cycle drains every pending compositor event in order, updates
//! the lifecycle state, and reports a composite status: whether the process
//! should quit and whether a frame may be produced this cycle. Event kinds
//! the controller does not recognize are ignored, for forward compatibility.

use vstd::prelude::*;

verus! {

/// A compositor-defined blend mode (an opaque equality key): how rendered
/// content composites with the real environment. Chosen once at startup and
/// used for every end-frame call.
#[derive(Clone, Copy, Debug, PartialEq, Eq, Hash, Structural)]
pub struct XrBlendMode(pub i32);

/// Lifecycle state of the session, as the controller tracks it.
#[derive(Clone, Copy, Debug, PartialEq, Eq, Structural)]
pub enum SessionState {
    /// Session created but not begun; no frames may be submitted.
    Idle,
    /// Session begun; frames may be produced.
    Running,
    /// Terminal: the process should exit; no further frames are produced.
    Exiting,
}

/// The compositor-reported session lifecycle values the controller reacts
/// to. Values it does not react to are mapped to `Other`.
#[derive(Clone, Copy, Debug, PartialEq, Eq, Structural)]
pub enum SessionStateKind {
    Ready,
    Stopping,
    Exiting,
    LossPending,
    Other,
}

/// One drained compositor event.
#[derive(Clone, Copy, Debug, PartialEq, Eq, Structural)]
pub enum SessionEvent {
    /// The session changed lifecycle state.
    StateChanged { kind: SessionStateKind },
    /// The compositor instance itself is about to be lost.
    InstanceLossPending,
    /// The event queue overflowed; worth logging, not an error.
    EventsLost { count: u32 },
    /// An event kind this controller does not recognize; ignored.
    Other,
}

/// The native session call a transition demands of the driver.
#[derive(Clone, Copy, Debug, PartialEq, Eq, Structural)]
pub enum SessionAction {
    /// Call session-begin: the compositor is ready for frames.
    BeginSession,
    /// Call session-end: the compositor asked to stop frame production.
    EndSession,
    /// No native call.
    NoCall,
}

/// Composite outcome of one poll cycle.
#[derive(Clone, Copy, Debug, PartialEq, Eq, Structural)]
pub struct PollStatus {
    /// The process should exit after cleanup.
    pub quit: bool,
    /// A frame should be produced this cycle.
    pub frame: bool,
}

/// The lifecycle state after one event: from `Idle`, only readiness starts
/// the session; stopping while running returns to `Idle`; an exiting or
/// loss-pending report, or a pending instance loss, is terminal.
pub open spec fn step(s: SessionState, e: SessionEvent) -> SessionState {
    match e {
        SessionEvent::StateChanged { kind } => match kind {
            SessionStateKind::Ready => if s is Idle {
                SessionState::Running
            } else {
                s
            },
            SessionStateKind::Stopping => if s is Running {
                SessionState::Idle
            } else {
                s
            },
            SessionStateKind::Exiting => SessionState::Exiting,
            SessionStateKind::LossPending => SessionState::Exiting,
            SessionStateKind::Other => s,
        },
        SessionEvent::InstanceLossPending => SessionState::Exiting,
        SessionEvent::EventsLost { .. } => s,
        SessionEvent::Other => s,
    }
}

/// The native call one event demands: begin on readiness from `Idle`, end on
/// stopping from `Running`, nothing otherwise.
pub open spec fn action_spec(s: SessionState, e: SessionEvent) -> SessionAction {
    match e {
        SessionEvent::StateChanged { kind } => match kind {
            SessionStateKind::Ready => if s is Idle {
                SessionAction::BeginSession
            } else {
                SessionAction::NoCall
            },
            SessionStateKind::Stopping => if s is Running {
                SessionAction::EndSession
            } else {
                SessionAction::NoCall
            },
            _ => SessionAction::NoCall,
        },
        _ => SessionAction::NoCall,
    }
}

/// The poll status after one event: stopping suppresses the frame; an
/// exiting or loss-pending report, or a pending instance loss, suppresses
/// the frame and requests quit.
pub open spec fn status_step(st: PollStatus, e: SessionEvent) -> PollStatus {
    match e {
        SessionEvent::StateChanged { kind } => match kind {
            SessionStateKind::Stopping => PollStatus { quit: st.quit, frame: false },
            SessionStateKind::Exiting => PollStatus { quit: true, frame: false },
            SessionStateKind::LossPending => PollStatus { quit: true, frame: false },
            _ => st,
        },
        SessionEvent::InstanceLossPending => PollStatus { quit: true, frame: false },
        _ => st,
    }
}

/// The lifecycle state after a whole sequence of events, drained in order.
pub open spec fn run_steps(s: SessionState, events: Seq<SessionEvent>) -> SessionState
    decreases events.len(),
{
    if events.len() == 0 {
        s
    } else {
        step(run_steps(s, events.drop_last()), events.last())
    }
}

/// The poll status after a whole sequence of events, drained in order.
pub open spec fn run_status(st: PollStatus, events: Seq<SessionEvent>) -> PollStatus
    decreases events.len(),
{
    if events.len() == 0 {
        st
    } else {
        status_step(run_status(st, events.drop_last()), events.last())
    }
}

/// Owns the session lifecycle: begun once the compositor reports readiness,
/// ended on its stop request, terminal once an exit is under way.
pub struct SessionController {
    state: SessionState,
}

impl SessionController {
    /// Current lifecycle state.
    pub closed spec fn state(&self) -> SessionState {
        self.state
    }

    /// A controller for a freshly created, not yet begun session.
    pub fn new() -> (c: Self)
        ensures
            c.state() is Idle,
    {
        SessionController { state: SessionState::Idle }
    }

    /// Whether the session is currently running (frames permitted).
    pub fn session_running(&self) -> (r: bool)
        ensures
            r == (self.state() is Running),
    {
        match self.state {
            SessionState::Running => true,
            _ => false,
        }
    }

    /// The status every poll cycle starts from: no quit request, frame
    /// permitted until an event or the lifecycle says otherwise.
    pub fn initial_status() -> (st: PollStatus)
        ensures
            st == (PollStatus { quit: false, frame: true }),
    {
        PollStatus { quit: false, frame: true }
    }

    /// Applies one drained event: advances the lifecycle state, folds the
    /// event into the poll status, and names the native call the transition
    /// demands.
    pub fn handle_event(&mut self, e: SessionEvent, status: &mut PollStatus) -> (a: SessionAction)
        ensures
            final(self).state() == step(old(self).state(), e),
            *final(status) == status_step(*old(status), e),
            a == action_spec(old(self).state(), e),
    {
        let mut action = SessionAction::NoCall;
        match e {
            SessionEvent::StateChanged { kind } => match kind {
                SessionStateKind::Ready => {
                    if self.session_running() {
                    } else if matches!(self.state, SessionState::Idle) {
                        self.state = SessionState::Running;
                        action = SessionAction::BeginSession;
                    }
                },
                SessionStateKind::Stopping => {
                    if self.session_running() {
                        self.state = SessionState::Idle;
                        action = SessionAction::EndSession;
                    }
                    status.frame = false;
                },
                SessionStateKind::Exiting => {
                    self.state = SessionState::Exiting;
                    status.frame = false;
                    status.quit = true;
                },
                SessionStateKind::LossPending => {
                    self.state = SessionState::Exiting;
                    status.frame = false;
                    status.quit = true;
                },
                SessionStateKind::Other => {},
            },
            SessionEvent::InstanceLossPending => {
                self.state = SessionState::Exiting;
                status.frame = false;
                status.quit = true;
            },
            SessionEvent::EventsLost { .. } => {},
            SessionEvent::Other => {},
        }
        action
    }

    /// Drains a whole batch of events in order and returns the native call
    /// each one demanded, in the same order.
    pub fn process_events(
        &mut self,
        events: &Vec<SessionEvent>,
        status: &mut PollStatus,
    ) -> (actions: Vec<SessionAction>)
        ensures
            final(self).state() == run_steps(old(self).state(), events@),
            *final(status) == run_status(*old(status), events@),
            actions@.len() == events@.len(),
            forall|i: int|
                0 <= i < events@.len() ==> actions@[i] == action_spec(
                    run_steps(old(self).state(), events@.subrange(0, i)),
                    events@[i],
                ),
    {
        let ghost s0 = self.state();
        let ghost st0 = *status;
        let mut actions: Vec<SessionAction> = Vec::new();
        let mut i: usize = 0;
        proof {
            assert(events@.subrange(0, 0) =~= Seq::<SessionEvent>::empty());
        }
        while i < events.len()
            invariant
                i <= events@.len(),
                self.state() == run_steps(s0, events@.subrange(0, i as int)),
                *status == run_status(st0, events@.subrange(0, i as int)),
                actions@.len() == i,
                forall|j: int|
                    0 <= j < i ==> actions@[j] == action_spec(
                        run_steps(s0, events@.subrange(0, j)),
                        events@[j],
                    ),
            decreases events@.len() - i,
        {
            proof {
                assert(events@.subrange(0, i as int + 1).drop_last() =~= events@.subrange(
                    0,
                    i as int,
                ));
                assert(events@.subrange(0, i as int + 1).last() == events@[i as int]);
            }
            let a = self.handle_event(events[i], status);
            actions.push(a);
            i = i + 1;
        }
        proof {
            assert(events@.subrange(0, events@.len() as int) =~= events@);
        }
        actions
    }

    /// Closes a poll cycle: when the session is not running, the frame flag
    /// is suppressed and the driver should idle briefly instead of spinning.
    pub fn finalize_poll(&self, status: &mut PollStatus) -> (idle: bool)
        ensures
            final(status).quit == old(status).quit,
            final(status).frame == (old(status).frame && self.state() is Running),
            idle == !(self.state() is Running),
    {
        if !self.session_running() {
            status.frame = false;
            true
        } else {
            false
        }
    }
}

/// Outcome of the native exit request, as the compositor reports it.
#[derive(Clone, Copy, Debug, PartialEq, Eq, Structural)]
pub enum ExitRequestOutcome {
    /// The compositor accepted the request and will wind the session down.
    Accepted,
    /// The compositor reports the session is not running.
    SessionNotRunning,
    /// Any other failure.
    Failed,
}

/// How the poll cycle proceeds after requesting a graceful exit.
#[derive(Clone, Copy, Debug, PartialEq, Eq, Structural)]
pub enum ExitResolution {
    /// Keep polling: the compositor will drive the session through its exit
    /// transition and report it as events.
    AwaitTransition,
    /// The session was not running, so there is no transition to wait for:
    /// treat the report as an immediate quit signal, not an error.
    QuitImmediately,
    /// A real error: propagate it.
    Fail,
}

/// Resolves the compositor's answer to a graceful exit request.
pub fn resolve_exit_request(outcome: ExitRequestOutcome) -> (r: ExitResolution)
    ensures
        outcome is Accepted <==> r is AwaitTransition,
        outcome is SessionNotRunning <==> r is QuitImmediately,
        outcome is Failed <==> r is Fail,
{
    match outcome {
        ExitRequestOutcome::Accepted => ExitResolution::AwaitTransition,
        ExitRequestOutcome::SessionNotRunning => ExitResolution::QuitImmediately,
        ExitRequestOutcome::Failed => ExitResolution::Fail,
    }
}

/// Chooses the blend mode used for every end-frame call: the first the
/// compositor enumerates. An empty enumeration is a startup failure.
pub fn choose_blend_mode(modes: &Vec<XrBlendMode>) -> (r: Result<
    XrBlendMode,
    crate::errors::StartupError,
>)
    ensures
        r is Ok <==> modes@.len() > 0,
        r matches Ok(m) ==> m == modes@[0],
        r matches Err(e) ==> e == crate::errors::StartupError::NoBlendModes,
{
    if modes.len() == 0 {
        Err(crate::errors::StartupError::NoBlendModes)
    } else {
        Ok(modes[0])
    }
}

/// Gate for the one compositor extension the bridge depends on: without the
/// legacy GPU-enable extension the compositor cannot hand over its device
/// requirements, so startup fails with a missing-extension error.
pub fn require_gpu_enable_extension(available: bool) -> (r: Result<
    (),
    crate::errors::StartupError,
>)
    ensures
        r is Ok <==> available,
        r matches Err(e) ==> e == crate::errors::StartupError::ExtensionMissing,
{
    if available {
        Ok(())
    } else {
        Err(crate::errors::StartupError::ExtensionMissing)
    }
}

/// Law: from `Idle`, readiness and only readiness starts the session.
pub proof fn lemma_idle_starts_only_on_ready(e: SessionEvent)
    ensures
        step(SessionState::Idle, e) == SessionState::Running <==> e == (SessionEvent::StateChanged {
            kind: SessionStateKind::Ready,
        }),
{
}

/// Law: a stop report while the session is idle changes nothing.
pub proof fn lemma_stopping_while_idle_is_noop()
    ensures
        step(
            SessionState::Idle,
            SessionEvent::StateChanged { kind: SessionStateKind::Stopping },
        ) == SessionState::Idle,
{
}

/// Law: the exiting state is absorbing: no sequence of events leaves it.
pub proof fn lemma_exiting_absorbing(events: Seq<SessionEvent>)
    ensures
        run_steps(SessionState::Exiting, events) == SessionState::Exiting,
    decreases events.len(),
{
    if events.len() > 0 {
        lemma_exiting_absorbing(events.drop_last());
    }
}

} // verus!
