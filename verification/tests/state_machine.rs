use dtx_core::events::ConnectionState;
use dtx_core::events::DetachState;
use dtx_core::events::OpMode;
use dtx_core::events::RawEvent;
use dtx_core::events::DETACH_ERROR_TIMEOUT;
use dtx_core::events::DTX_CODE_CONNECTION;
use dtx_core::events::DTX_CODE_DETACH_ERROR;
use dtx_core::events::DTX_CODE_DETACH_REQUEST;
use dtx_core::events::DTX_CODE_LATCH;
use dtx_core::events::DTX_CODE_OPMODE;
use dtx_core::events::DTX_EVENT_TYPE;
use dtx_core::machine::Action;
use dtx_core::machine::EventHandler;
use dtx_core::machine::HandlerConfig;
use dtx_core::machine::HwCommand;
use dtx_core::machine::Job;
use dtx_core::machine::MachineState;

const DELAY_MS: u64 = 2500;

fn config() -> HandlerConfig {
    HandlerConfig {
        attach: Some(String::from("/usr/local/libexec/on-attach")),
        detach: Some(String::from("/usr/local/libexec/on-detach")),
        detach_abort: Some(String::from("/usr/local/libexec/on-detach-abort")),
        dir: String::from("/"),
        attach_delay_ms: DELAY_MS,
    }
}

fn raw(code: u16, arg0: u8) -> RawEvent {
    RawEvent { typ: DTX_EVENT_TYPE, code, arg0, arg1: 0 }
}

fn connected() -> RawEvent {
    raw(DTX_CODE_CONNECTION, 1)
}

fn disconnected() -> RawEvent {
    raw(DTX_CODE_CONNECTION, 0)
}

fn detach_request() -> RawEvent {
    raw(DTX_CODE_DETACH_REQUEST, 0)
}

#[test]
fn starts_in_normal_with_nothing_to_ignore() {
    let h = EventHandler::new(config());
    assert_eq!(h.state, MachineState::Normal);
    assert_eq!(h.ignore_request, 0);
}

#[test]
fn connect_while_normal_starts_attach_with_configured_delay() {
    let mut h = EventHandler::new(config());
    let actions = h.handle(connected());
    assert_eq!(h.state, MachineState::Attaching);
    assert_eq!(actions, vec![Action::ScheduleJob { job: Job::Attach { delay_ms: DELAY_MS } }]);
}

#[test]
fn repeated_connect_logs_one_invalid_state_and_schedules_nothing() {
    let mut h = EventHandler::new(config());
    let first = h.handle(connected());
    assert_eq!(first.len(), 1);
    let second = h.handle(connected());
    assert_eq!(h.state, MachineState::Attaching);
    assert_eq!(
        second,
        vec![Action::LogInvalidState { connection: ConnectionState::Connected }]
    );
}

#[test]
fn detach_request_while_normal_starts_detaching() {
    let mut h = EventHandler::new(config());
    let actions = h.handle(detach_request());
    assert_eq!(h.state, MachineState::Detaching);
    assert_eq!(actions, vec![Action::ScheduleJob { job: Job::Detach }]);
}

#[test]
fn second_detach_request_aborts_and_announces_it() {
    let mut h = EventHandler::new(config());
    h.handle(detach_request());
    let actions = h.handle(detach_request());
    assert_eq!(h.state, MachineState::Aborting);
    assert_eq!(
        actions,
        vec![
            Action::SignalDetachState { state: DetachState::DetachAborted },
            Action::ScheduleJob { job: Job::DetachAbort },
        ]
    );
}

#[test]
fn detach_timeout_error_unwinds_with_timeout_note() {
    let mut h = EventHandler::new(config());
    h.handle(detach_request());
    let actions = h.handle(raw(DTX_CODE_DETACH_ERROR, DETACH_ERROR_TIMEOUT));
    assert_eq!(h.state, MachineState::Aborting);
    assert_eq!(
        actions,
        vec![Action::LogDetachTimedOut, Action::ScheduleJob { job: Job::DetachAbort }]
    );
}

#[test]
fn unknown_detach_error_unwinds_with_unknown_note() {
    let mut h = EventHandler::new(config());
    h.handle(detach_request());
    let actions = h.handle(raw(DTX_CODE_DETACH_ERROR, 0x5a));
    assert_eq!(h.state, MachineState::Aborting);
    assert_eq!(
        actions,
        vec![
            Action::LogUnknownDetachError { code: 0x5a },
            Action::ScheduleJob { job: Job::DetachAbort },
        ]
    );
}

#[test]
fn detach_error_outside_detaching_only_logs() {
    let mut h = EventHandler::new(config());
    let actions = h.handle(raw(DTX_CODE_DETACH_ERROR, DETACH_ERROR_TIMEOUT));
    assert_eq!(h.state, MachineState::Normal);
    assert_eq!(actions, vec![Action::LogDetachTimedOut]);
}

#[test]
fn disconnect_while_detaching_completes_the_detachment() {
    let mut h = EventHandler::new(config());
    h.handle(detach_request());
    let actions = h.handle(disconnected());
    assert_eq!(h.state, MachineState::Normal);
    assert_eq!(
        actions,
        vec![Action::SignalDetachState { state: DetachState::DetachCompleted }]
    );
}

#[test]
fn detach_request_while_attaching_issues_synthetic_latch_request() {
    let mut h = EventHandler::new(config());
    h.handle(connected());
    assert_eq!(h.state, MachineState::Attaching);
    let actions = h.handle(detach_request());
    assert_eq!(h.state, MachineState::Attaching);
    assert_eq!(h.ignore_request, 1);
    assert_eq!(actions, vec![Action::IssueCommand { command: HwCommand::LatchRequest }]);
}

#[test]
fn synthetic_latch_request_echo_is_swallowed_exactly_once() {
    let mut h = EventHandler::new(config());
    h.handle(connected());
    h.handle(detach_request());
    assert_eq!(h.ignore_request, 1);
    // the echo: swallowed, no side effect
    let echo = h.handle(detach_request());
    assert_eq!(h.state, MachineState::Attaching);
    assert_eq!(h.ignore_request, 0);
    assert!(echo.is_empty());
    // the counter is spent: the next request is treated afresh
    let third = h.handle(detach_request());
    assert_eq!(h.ignore_request, 1);
    assert_eq!(third, vec![Action::IssueCommand { command: HwCommand::LatchRequest }]);
}

#[test]
fn opmode_change_is_forwarded() {
    let mut h = EventHandler::new(config());
    let actions = h.handle(raw(DTX_CODE_OPMODE, 2));
    assert_eq!(h.state, MachineState::Normal);
    assert_eq!(actions, vec![Action::SetDeviceMode { mode: OpMode::Studio }]);
}

#[test]
fn open_latch_announces_detach_ready() {
    let mut h = EventHandler::new(config());
    let actions = h.handle(raw(DTX_CODE_LATCH, 1));
    assert_eq!(
        actions,
        vec![Action::SignalDetachState { state: DetachState::DetachReady }]
    );
    let closed = h.handle(raw(DTX_CODE_LATCH, 0));
    assert!(closed.is_empty());
}

#[test]
fn unrecognized_record_is_only_logged() {
    let mut h = EventHandler::new(config());
    let odd = RawEvent { typ: 0x99, code: 0x01, arg0: 3, arg1: 4 };
    let actions = h.handle(odd);
    assert_eq!(h.state, MachineState::Normal);
    assert_eq!(actions, vec![Action::LogUnhandledEvent { event: odd }]);
}

#[test]
fn detach_job_success_opens_latch_while_still_detaching() {
    let mut h = EventHandler::new(config());
    h.handle(detach_request());
    assert_eq!(h.state, MachineState::Detaching);
    assert_eq!(h.complete_detach(true), Some(HwCommand::LatchOpen));
    // the job itself changes no state; Normal comes only with disconnection
    assert_eq!(h.state, MachineState::Detaching);
}

#[test]
fn detach_job_failure_requests_abort_gesture() {
    let mut h = EventHandler::new(config());
    h.handle(detach_request());
    assert_eq!(h.complete_detach(false), Some(HwCommand::LatchRequest));
    assert_eq!(h.state, MachineState::Detaching);
}

#[test]
fn detach_job_resuming_after_race_issues_nothing() {
    let mut h = EventHandler::new(config());
    h.handle(detach_request());
    // a second request races the job and unwinds the sequence
    h.handle(detach_request());
    assert_eq!(h.state, MachineState::Aborting);
    assert_eq!(h.complete_detach(true), None);
    assert_eq!(h.complete_detach(false), None);
}

#[test]
fn attach_job_completion_returns_to_normal_and_announces() {
    let mut h = EventHandler::new(config());
    h.handle(connected());
    assert_eq!(h.state, MachineState::Attaching);
    let actions = h.complete_attach();
    assert_eq!(h.state, MachineState::Normal);
    assert_eq!(
        actions,
        vec![Action::SignalDetachState { state: DetachState::AttachCompleted }]
    );
}

#[test]
fn detach_abort_completion_returns_to_normal_silently() {
    let mut h = EventHandler::new(config());
    h.handle(detach_request());
    h.handle(detach_request());
    assert_eq!(h.state, MachineState::Aborting);
    h.complete_detach_abort();
    assert_eq!(h.state, MachineState::Normal);
}
