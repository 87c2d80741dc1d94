//! The detach policy state machine.
//!
//! The event handler owns the machine state and the ignore counter, consumes
//! classified events, and answers each with the list of actions the caller
//! must perform: pushes to the signal bus, synchronous hardware commands,
//! and jobs to enqueue on the process task queue. The handler itself never
//! touches hardware or spawns processes; keeping it pure is what lets every
//! transition be stated and checked against the policy table.
//!
//! Jobs run asynchronously and may resume after further events have been
//! handled, so a job's completion callback re-checks the machine state
//! before acting. Those callbacks are the `complete_*` methods here: the
//! driving shell calls them when a job's subprocess (if any) has finished,
//! and performs whatever they return. This re-check is the system's sole
//! guard against issuing a hardware command from a stale state.

use vstd::prelude::*;
use crate::events::{
    ConnectionState, DetachState, Event, LatchState, OpMode, RawEvent, DETACH_ERROR_TIMEOUT,
};
use crate::events::spec_classify;
use crate::events::classify;

verus! {

/// A synchronous hardware command toward the latch.
#[derive(Debug, Clone, Copy, PartialEq, Eq, Structural)]
pub enum HwCommand {
    /// Release the latch: physically begins detachment. Irreversible.
    LatchOpen,
    /// Signal a latch request: mirrors the hardware's own abort gesture.
    LatchRequest,
}

/// A unit of deferred work for the process task queue. Each variant carries
/// only the data its executor needs beyond the shared configuration.
#[derive(Debug, Clone, Copy, PartialEq, Eq, Structural)]
pub enum Job {
    /// Wait `delay_ms`, run the attach handler if configured, then call
    /// `EventHandler::complete_attach`.
    Attach { delay_ms: u64 },
    /// Run the detach handler if configured, then call
    /// `EventHandler::complete_detach` with its exit status (success when no
    /// handler is configured).
    Detach,
    /// Run the detach-abort handler if configured, then call
    /// `EventHandler::complete_detach_abort`.
    DetachAbort,
}

/// What the caller must do in response to one handled event, in order.
#[derive(Debug, Clone, Copy, PartialEq, Eq, Structural)]
pub enum Action {
    /// Forward the new operating mode to the signal bus service.
    SetDeviceMode { mode: OpMode },
    /// Push a detach-state change to the signal bus service.
    SignalDetachState { state: DetachState },
    /// Issue a synchronous hardware command.
    IssueCommand { command: HwCommand },
    /// Enqueue a job on the process task queue.
    ScheduleJob { job: Job },
    /// Log an unrecognized raw record; observational only.
    LogUnhandledEvent { event: RawEvent },
    /// Log a connection change that makes no sense in the current state;
    /// observational only, no transition.
    LogInvalidState { connection: ConnectionState },
    /// Log that the hardware reported a detachment timeout.
    LogDetachTimedOut,
    /// Log a detach error with an unrecognized code.
    LogUnknownDetachError { code: u8 },
}

/// The daemon's policy state.
#[derive(Debug, Clone, Copy, PartialEq, Eq, Structural)]
pub enum MachineState {
    /// Idle / attached.
    Normal,
    /// Detach sequence in progress, latch still closed.
    Detaching,
    /// Detach sequence being unwound.
    Aborting,
    /// Attach sequence in progress.
    Attaching,
}

/// Read-only configuration for external handler programs; loaded once,
/// immutable for the process lifetime.
#[derive(Clone)]
pub struct HandlerConfig {
    /// Executable run when the tablet is re-attached, if any.
    pub attach: Option<String>,
    /// Executable consulted before the latch opens, if any.
    pub detach: Option<String>,
    /// Executable run when a detachment is aborted, if any.
    pub detach_abort: Option<String>,
    /// Working directory for all handler invocations.
    pub dir: String,
    /// Delay before the attach handler runs, in milliseconds.
    pub attach_delay_ms: u64,
}

/// Result of one step of the policy machine: the state and ignore counter
/// after the event, and the actions it demands. Specification-level only.
pub struct Step {
    pub state: MachineState,
    pub ignore: nat,
    pub actions: Seq<Action>,
}

/// The transition table: one step of the policy machine on a classified
/// event. This is the single definition every handler method is checked
/// against.
pub open spec fn spec_handle_event(
    s: MachineState,
    ignore: nat,
    attach_delay_ms: u64,
    ev: Event,
) -> Step {
    match ev {
        Event::OpModeChange { mode } => Step {
            state: s,
            ignore,
            actions: seq![Action::SetDeviceMode { mode }],
        },
        Event::LatchStateChange { state } => Step {
            state: s,
            ignore,
            actions: if state == LatchState::Open {
                seq![Action::SignalDetachState { state: DetachState::DetachReady }]
            } else {
                Seq::empty()
            },
        },
        Event::ConnectionChange { state: connection } => {
            if s == MachineState::Detaching && connection == ConnectionState::Disconnected {
                Step {
                    state: MachineState::Normal,
                    ignore,
                    actions: seq![
                        Action::SignalDetachState { state: DetachState::DetachCompleted },
                    ],
                }
            } else if s == MachineState::Normal && connection == ConnectionState::Connected {
                Step {
                    state: MachineState::Attaching,
                    ignore,
                    actions: seq![
                        Action::ScheduleJob { job: Job::Attach { delay_ms: attach_delay_ms } },
                    ],
                }
            } else {
                Step {
                    state: s,
                    ignore,
                    actions: seq![Action::LogInvalidState { connection }],
                }
            }
        },
        Event::DetachRequest => {
            if ignore > 0 {
                Step { state: s, ignore: (ignore - 1) as nat, actions: Seq::empty() }
            } else if s == MachineState::Normal {
                Step {
                    state: MachineState::Detaching,
                    ignore,
                    actions: seq![Action::ScheduleJob { job: Job::Detach }],
                }
            } else if s == MachineState::Detaching {
                Step {
                    state: MachineState::Aborting,
                    ignore,
                    actions: seq![
                        Action::SignalDetachState { state: DetachState::DetachAborted },
                        Action::ScheduleJob { job: Job::DetachAbort },
                    ],
                }
            } else {
                Step {
                    state: s,
                    ignore: ignore + 1,
                    actions: seq![Action::IssueCommand { command: HwCommand::LatchRequest }],
                }
            }
        },
        Event::DetachError { code } => {
            let note = if code == DETACH_ERROR_TIMEOUT {
                Action::LogDetachTimedOut
            } else {
                Action::LogUnknownDetachError { code }
            };
            if s == MachineState::Detaching {
                Step {
                    state: MachineState::Aborting,
                    ignore,
                    actions: seq![note, Action::ScheduleJob { job: Job::DetachAbort }],
                }
            } else {
                Step { state: s, ignore, actions: seq![note] }
            }
        },
    }
}

/// One step of the policy machine on a raw record: classify, then apply the
/// table; an unrecognized record only asks to be logged.
pub open spec fn spec_handle_raw(
    s: MachineState,
    ignore: nat,
    attach_delay_ms: u64,
    raw: RawEvent,
) -> Step {
    match spec_classify(raw) {
        Some(ev) => spec_handle_event(s, ignore, attach_delay_ms, ev),
        None => Step {
            state: s,
            ignore,
            actions: seq![Action::LogUnhandledEvent { event: raw }],
        },
    }
}

/// The hardware command a completing detach job must issue, given the
/// machine state observed at completion time and the detach handler's
/// verdict. The latch opens only from `Detaching`; in any other state the
/// job resumed after a race and must not act.
pub open spec fn spec_detach_command(s: MachineState, handler_success: bool) -> Option<
    HwCommand,
> {
    if s == MachineState::Detaching {
        if handler_success {
            Some(HwCommand::LatchOpen)
        } else {
            Some(HwCommand::LatchRequest)
        }
    } else {
        None
    }
}

/// True when handling event `ev` took `pre` to `post` and demanded exactly
/// `actions`, as the transition table prescribes.
pub open spec fn step_matches(
    pre: EventHandler,
    post: EventHandler,
    actions: Seq<Action>,
    ev: Event,
) -> bool {
    let st = spec_handle_event(
        pre.state,
        pre.ignore_request as nat,
        pre.config.attach_delay_ms,
        ev,
    );
    &&& post.state == st.state
    &&& post.ignore_request as nat == st.ignore
    &&& post.config == pre.config
    &&& actions == st.actions
}

/// Owner of the policy state. Consumes classified events; answers with the
/// actions the driving shell must perform, in order.
pub struct EventHandler {
    /// Immutable handler configuration.
    pub config: HandlerConfig,
    /// Current policy state.
    pub state: MachineState,
    /// Count of expected-duplicate detach requests still to swallow: one per
    /// synthetic latch request issued while `Attaching` or `Aborting`.
    pub ignore_request: u32,
}

impl EventHandler {
    /// A fresh handler: the daemon starts in `Normal` with nothing to ignore.
    pub fn new(config: HandlerConfig) -> (r: EventHandler)
        ensures
            r.state == MachineState::Normal,
            r.ignore_request == 0,
            r.config == config,
    {
        EventHandler { config, state: MachineState::Normal, ignore_request: 0 }
    }

    /// Handles one raw record: classifies it and applies the transition
    /// table; an unrecognized record leaves the handler unchanged and asks
    /// only to be logged.
    pub fn handle(&mut self, raw: RawEvent) -> (actions: Vec<Action>)
        requires
            old(self).ignore_request < u32::MAX,
        ensures
            ({
                let st = spec_handle_raw(
                    old(self).state,
                    old(self).ignore_request as nat,
                    old(self).config.attach_delay_ms,
                    raw,
                );
                &&& final(self).state == st.state
                &&& final(self).ignore_request as nat == st.ignore
                &&& final(self).config == old(self).config
                &&& actions@ == st.actions
            }),
    {
        match classify(raw) {
            Some(Event::OpModeChange { mode }) => self.on_opmode_change(mode),
            Some(Event::ConnectionChange { state }) => self.on_connection_change(state),
            Some(Event::LatchStateChange { state }) => self.on_latch_state_change(state),
            Some(Event::DetachRequest) => self.on_detach_request(),
            Some(Event::DetachError { code }) => self.on_detach_error(code),
            None => {
                let mut actions: Vec<Action> = Vec::new();
                actions.push(Action::LogUnhandledEvent { event: raw });
                assert(actions@ =~= seq![Action::LogUnhandledEvent { event: raw }]);
                actions
            },
        }
    }

    /// The operating mode changed: forward it to the signal bus service.
    pub fn on_opmode_change(&mut self, mode: OpMode) -> (actions: Vec<Action>)
        ensures
            step_matches(*old(self), *final(self), actions@, Event::OpModeChange { mode }),
    {
        let mut actions: Vec<Action> = Vec::new();
        actions.push(Action::SetDeviceMode { mode });
        assert(actions@ =~= seq![Action::SetDeviceMode { mode }]);
        actions
    }

    /// The latch position changed: an open latch means detachment can
    /// physically proceed, which bus consumers are told about.
    pub fn on_latch_state_change(&mut self, state: LatchState) -> (actions: Vec<Action>)
        ensures
            step_matches(*old(self), *final(self), actions@, Event::LatchStateChange { state }),
    {
        let mut actions: Vec<Action> = Vec::new();
        if state == LatchState::Open {
            actions.push(Action::SignalDetachState { state: DetachState::DetachReady });
            assert(actions@ =~= seq![
                Action::SignalDetachState { state: DetachState::DetachReady },
            ]);
        } else {
            assert(actions@ =~= Seq::<Action>::empty());
        }
        actions
    }

    /// The base-to-tablet link changed. Disconnection while detaching
    /// completes the detachment; connection while normal starts the attach
    /// sequence; every other combination is logged as invalid and ignored.
    pub fn on_connection_change(&mut self, connection: ConnectionState) -> (actions: Vec<
        Action,
    >)
        ensures
            step_matches(
                *old(self),
                *final(self),
                actions@,
                Event::ConnectionChange { state: connection },
            ),
    {
        let mut actions: Vec<Action> = Vec::new();
        if self.state == MachineState::Detaching && connection == ConnectionState::Disconnected {
            self.state = MachineState::Normal;
            actions.push(Action::SignalDetachState { state: DetachState::DetachCompleted });
            assert(actions@ =~= seq![
                Action::SignalDetachState { state: DetachState::DetachCompleted },
            ]);
        } else if self.state == MachineState::Normal && connection == ConnectionState::Connected {
            self.state = MachineState::Attaching;
            let delay_ms = self.config.attach_delay_ms;
            actions.push(Action::ScheduleJob { job: Job::Attach { delay_ms } });
            assert(actions@ =~= seq![
                Action::ScheduleJob { job: Job::Attach { delay_ms } },
            ]);
        } else {
            actions.push(Action::LogInvalidState { connection });
            assert(actions@ =~= seq![Action::LogInvalidState { connection }]);
        }
        actions
    }

    /// The hardware requests detachment. A positive ignore counter swallows
    /// the request as the echo of a synthetic latch request. Otherwise:
    /// from `Normal` the detach sequence starts; from `Detaching` a second
    /// request aborts it; from `Attaching` or `Aborting` the request cannot
    /// be honored, so a synthetic latch request is issued to make the
    /// hardware abort its own gesture, and the echo it will produce is
    /// marked to be ignored.
    pub fn on_detach_request(&mut self) -> (actions: Vec<Action>)
        requires
            old(self).ignore_request < u32::MAX,
        ensures
            step_matches(*old(self), *final(self), actions@, Event::DetachRequest),
    {
        let mut actions: Vec<Action> = Vec::new();
        if self.ignore_request > 0 {
            self.ignore_request = self.ignore_request - 1;
            assert(actions@ =~= Seq::<Action>::empty());
        } else if self.state == MachineState::Normal {
            self.state = MachineState::Detaching;
            actions.push(Action::ScheduleJob { job: Job::Detach });
            assert(actions@ =~= seq![Action::ScheduleJob { job: Job::Detach }]);
        } else if self.state == MachineState::Detaching {
            self.state = MachineState::Aborting;
            actions.push(Action::SignalDetachState { state: DetachState::DetachAborted });
            actions.push(Action::ScheduleJob { job: Job::DetachAbort });
            assert(actions@ =~= seq![
                Action::SignalDetachState { state: DetachState::DetachAborted },
                Action::ScheduleJob { job: Job::DetachAbort },
            ]);
        } else {
            self.ignore_request = self.ignore_request + 1;
            actions.push(Action::IssueCommand { command: HwCommand::LatchRequest });
            assert(actions@ =~= seq![
                Action::IssueCommand { command: HwCommand::LatchRequest },
            ]);
        }
        actions
    }

    /// The hardware reports a detachment error. The timeout code gets its
    /// own log note, anything else is logged as unknown; either way an error
    /// during `Detaching` unwinds the sequence.
    pub fn on_detach_error(&mut self, code: u8) -> (actions: Vec<Action>)
        ensures
            step_matches(*old(self), *final(self), actions@, Event::DetachError { code }),
    {
        let mut actions: Vec<Action> = Vec::new();
        let note = if code == DETACH_ERROR_TIMEOUT {
            Action::LogDetachTimedOut
        } else {
            Action::LogUnknownDetachError { code }
        };
        if self.state == MachineState::Detaching {
            self.state = MachineState::Aborting;
            actions.push(note);
            actions.push(Action::ScheduleJob { job: Job::DetachAbort });
            assert(actions@ =~= seq![note, Action::ScheduleJob { job: Job::DetachAbort }]);
        } else {
            actions.push(note);
            assert(actions@ =~= seq![note]);
        }
        actions
    }

    /// Completion callback of the attach job: whatever happened, the attach
    /// sequence is over. The machine returns to `Normal` and bus consumers
    /// hear that the attachment completed.
    pub fn complete_attach(&mut self) -> (actions: Vec<Action>)
        ensures
            final(self).state == MachineState::Normal,
            final(self).ignore_request == old(self).ignore_request,
            final(self).config == old(self).config,
            actions@ == seq![
                Action::SignalDetachState { state: DetachState::AttachCompleted },
            ],
    {
        self.state = MachineState::Normal;
        let mut actions: Vec<Action> = Vec::new();
        actions.push(Action::SignalDetachState { state: DetachState::AttachCompleted });
        assert(actions@ =~= seq![
            Action::SignalDetachState { state: DetachState::AttachCompleted },
        ]);
        actions
    }

    /// Completion callback of the detach job: re-checks the state it resumed
    /// in and says which hardware command to issue, if any. Only a machine
    /// still `Detaching` acts: handler success opens the latch, handler
    /// failure requests the abort gesture. A machine that moved on (raced to
    /// `Aborting`) issues nothing. The state itself is not changed here; it
    /// returns to `Normal` only when the hardware reports disconnection.
    /// When no detach handler is configured the caller passes success.
    pub fn complete_detach(&self, handler_success: bool) -> (command: Option<HwCommand>)
        ensures
            command == spec_detach_command(self.state, handler_success),
    {
        if self.state == MachineState::Detaching {
            if handler_success {
                Some(HwCommand::LatchOpen)
            } else {
                Some(HwCommand::LatchRequest)
            }
        } else {
            None
        }
    }

    /// Completion callback of the detach-abort job: the unwinding is done,
    /// the machine returns to `Normal` unconditionally. No bus signal; the
    /// abort itself was announced when it was requested.
    pub fn complete_detach_abort(&mut self)
        ensures
            final(self).state == MachineState::Normal,
            final(self).ignore_request == old(self).ignore_request,
            final(self).config == old(self).config,
    {
        self.state = MachineState::Normal;
    }
}

/// State and ignore counter after handling a sequence of classified events
/// in order.
pub open spec fn spec_run(
    s: MachineState,
    ignore: nat,
    attach_delay_ms: u64,
    evs: Seq<Event>,
) -> (MachineState, nat)
    decreases evs.len(),
{
    if evs.len() == 0 {
        (s, ignore)
    } else {
        let st = spec_handle_event(s, ignore, attach_delay_ms, evs[0]);
        spec_run(st.state, st.ignore, attach_delay_ms, evs.drop_first())
    }
}

/// All actions demanded while handling a sequence of classified events, in
/// order.
pub open spec fn spec_run_actions(
    s: MachineState,
    ignore: nat,
    attach_delay_ms: u64,
    evs: Seq<Event>,
) -> Seq<Action>
    decreases evs.len(),
{
    if evs.len() == 0 {
        Seq::empty()
    } else {
        let st = spec_handle_event(s, ignore, attach_delay_ms, evs[0]);
        st.actions + spec_run_actions(st.state, st.ignore, attach_delay_ms, evs.drop_first())
    }
}

/// The policy table's state-changing rows: the only ways the machine state
/// may move. Everything else leaves it where it was.
pub open spec fn table_allows_change(
    s: MachineState,
    ignore: nat,
    ev: Event,
    next: MachineState,
) -> bool {
    ||| (s == MachineState::Normal && ev == (Event::ConnectionChange {
        state: ConnectionState::Connected,
    }) && next == MachineState::Attaching)
    ||| (s == MachineState::Detaching && ev == (Event::ConnectionChange {
        state: ConnectionState::Disconnected,
    }) && next == MachineState::Normal)
    ||| (s == MachineState::Normal && ignore == 0 && ev == Event::DetachRequest && next
        == MachineState::Detaching)
    ||| (s == MachineState::Detaching && ignore == 0 && ev == Event::DetachRequest && next
        == MachineState::Aborting)
    ||| (s == MachineState::Detaching && ev is DetachError && next == MachineState::Aborting)
}

/// Transition soundness: for every state, counter and event, one step
/// either keeps the machine state or changes it along a row of the policy
/// table — there is no other way to move.
pub proof fn lemma_transitions_follow_table(
    s: MachineState,
    ignore: nat,
    attach_delay_ms: u64,
    ev: Event,
)
    ensures
        ({
            let st = spec_handle_event(s, ignore, attach_delay_ms, ev);
            st.state == s || table_allows_change(s, ignore, ev, st.state)
        }),
{
}

/// Event handling never opens the latch: for every state, counter and
/// event, the demanded actions contain no latch-open command. The only
/// latch-open source in the library is `spec_detach_command`.
pub proof fn lemma_step_never_opens_latch(
    s: MachineState,
    ignore: nat,
    attach_delay_ms: u64,
    ev: Event,
)
    ensures
        !spec_handle_event(s, ignore, attach_delay_ms, ev).actions.contains(
            Action::IssueCommand { command: HwCommand::LatchOpen },
        ),
{
}

/// Event handling never opens the latch, over whole event histories: no
/// sequence of classified events ever demands a latch-open command. The
/// latch opens only through a detach job's completion check, and
/// `lemma_latch_open_requires_detaching` pins when that can happen.
pub proof fn lemma_run_never_opens_latch(
    s: MachineState,
    ignore: nat,
    attach_delay_ms: u64,
    evs: Seq<Event>,
)
    ensures
        !spec_run_actions(s, ignore, attach_delay_ms, evs).contains(
            Action::IssueCommand { command: HwCommand::LatchOpen },
        ),
    decreases evs.len(),
{
    let open_cmd = Action::IssueCommand { command: HwCommand::LatchOpen };
    if evs.len() > 0 {
        let st = spec_handle_event(s, ignore, attach_delay_ms, evs[0]);
        let rest = spec_run_actions(st.state, st.ignore, attach_delay_ms, evs.drop_first());
        lemma_step_never_opens_latch(s, ignore, attach_delay_ms, evs[0]);
        lemma_run_never_opens_latch(st.state, st.ignore, attach_delay_ms, evs.drop_first());
        let all = spec_run_actions(s, ignore, attach_delay_ms, evs);
        assert forall|i: int| 0 <= i < all.len() implies all[i] != open_cmd by {
            if i < st.actions.len() {
                assert(all[i] == st.actions[i]);
                if st.actions[i] == open_cmd {
                    assert(st.actions.contains(open_cmd));
                }
            } else {
                assert(all[i] == rest[i - st.actions.len()]);
                if rest[i - st.actions.len()] == open_cmd {
                    assert(rest.contains(open_cmd));
                }
            }
        }
    }
}

/// The latch opens only from `Detaching`, and only on the detach handler's
/// success: the completion check of a detach job that resumed in any other
/// state issues nothing.
pub proof fn lemma_latch_open_requires_detaching(s: MachineState, handler_success: bool)
    ensures
        spec_detach_command(s, handler_success) == Some(HwCommand::LatchOpen) ==> s
            == MachineState::Detaching && handler_success,
{
}

/// Whether one step issues the synthetic latch request (a detach request
/// arriving while `Attaching` or `Aborting` with nothing to ignore).
pub open spec fn step_issues_synthetic(s: MachineState, ignore: nat, ev: Event) -> bool {
    &&& ev == Event::DetachRequest
    &&& ignore == 0
    &&& (s == MachineState::Aborting || s == MachineState::Attaching)
}

/// Whether one step swallows a detach request as the expected echo of an
/// earlier synthetic latch request.
pub open spec fn step_swallows(ignore: nat, ev: Event) -> bool {
    ev == Event::DetachRequest && ignore > 0
}

/// Number of synthetic latch requests issued while handling `evs`.
pub open spec fn count_synthetic(
    s: MachineState,
    ignore: nat,
    attach_delay_ms: u64,
    evs: Seq<Event>,
) -> nat
    decreases evs.len(),
{
    if evs.len() == 0 {
        0
    } else {
        let st = spec_handle_event(s, ignore, attach_delay_ms, evs[0]);
        (if step_issues_synthetic(s, ignore, evs[0]) {
            1 as nat
        } else {
            0 as nat
        }) + count_synthetic(st.state, st.ignore, attach_delay_ms, evs.drop_first())
    }
}

/// Number of detach requests swallowed while handling `evs`.
pub open spec fn count_swallowed(
    s: MachineState,
    ignore: nat,
    attach_delay_ms: u64,
    evs: Seq<Event>,
) -> nat
    decreases evs.len(),
{
    if evs.len() == 0 {
        0
    } else {
        let st = spec_handle_event(s, ignore, attach_delay_ms, evs[0]);
        (if step_swallows(ignore, evs[0]) {
            1 as nat
        } else {
            0 as nat
        }) + count_swallowed(st.state, st.ignore, attach_delay_ms, evs.drop_first())
    }
}

/// A swallowed detach request has no side effect: the state keeps, no
/// action is demanded, and exactly one unit of the ignore counter is spent.
pub proof fn lemma_swallow_has_no_side_effect(
    s: MachineState,
    ignore: nat,
    attach_delay_ms: u64,
    ev: Event,
)
    requires
        step_swallows(ignore, ev),
    ensures
        ({
            let st = spec_handle_event(s, ignore, attach_delay_ms, ev);
            &&& st.state == s
            &&& st.ignore + 1 == ignore
            &&& st.actions == Seq::<Action>::empty()
        }),
{
}

/// Ignore-counter accounting: over any event history, the counter ends at
/// its start plus the synthetic latch requests issued minus the requests
/// swallowed — each synthetic request is answered by exactly one later
/// swallow, once its echo arrives, and the counter (a natural number by
/// type) can never be driven below zero because a swallow spends a unit
/// that an earlier increment must have provided.
pub proof fn lemma_ignore_counter_accounting(
    s: MachineState,
    ignore: nat,
    attach_delay_ms: u64,
    evs: Seq<Event>,
)
    ensures
        spec_run(s, ignore, attach_delay_ms, evs).1 + count_swallowed(
            s,
            ignore,
            attach_delay_ms,
            evs,
        ) == ignore + count_synthetic(s, ignore, attach_delay_ms, evs),
    decreases evs.len(),
{
    if evs.len() > 0 {
        let st = spec_handle_event(s, ignore, attach_delay_ms, evs[0]);
        lemma_ignore_counter_accounting(st.state, st.ignore, attach_delay_ms, evs.drop_first());
    }
}

/// Idempotence of the connect event: a connection report that finds the
/// machine `Normal` starts the attach sequence and schedules the attach
/// job; an immediate repeat finds the machine `Attaching`, demands exactly
/// one invalid-state log note, and schedules nothing further.
pub proof fn lemma_repeat_connected_logs_once(ignore: nat, attach_delay_ms: u64)
    ensures
        ({
            let connected = Event::ConnectionChange { state: ConnectionState::Connected };
            let first = spec_handle_event(
                MachineState::Normal,
                ignore,
                attach_delay_ms,
                connected,
            );
            let second = spec_handle_event(first.state, first.ignore, attach_delay_ms, connected);
            &&& first.state == MachineState::Attaching
            &&& first.actions == seq![
                Action::ScheduleJob { job: Job::Attach { delay_ms: attach_delay_ms } },
            ]
            &&& second.state == MachineState::Attaching
            &&& second.ignore == first.ignore
            &&& second.actions == seq![
                Action::LogInvalidState { connection: ConnectionState::Connected },
            ]
        }),
{
}

} // verus!
