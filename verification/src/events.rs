//! Typed hardware events and the classifier that produces them.
//!
//! The device collaborator delivers opaque notification records. The
//! classifier turns each record into one of a closed set of typed events by
//! a pure lookup on its type and code fields; a record it does not recognize
//! is reported as such so the caller can log it and move on.

use vstd::prelude::*;

verus! {

/// Event type field shared by all detach-system notifications.
pub const DTX_EVENT_TYPE: u16 = 0x11;

/// Event code: base-to-tablet connection changed.
pub const DTX_CODE_CONNECTION: u16 = 0x0c;

/// Event code: device operating mode changed.
pub const DTX_CODE_OPMODE: u16 = 0x0d;

/// Event code: mechanical latch position changed.
pub const DTX_CODE_LATCH: u16 = 0x0e;

/// Event code: hardware reports a detachment error.
pub const DTX_CODE_DETACH_ERROR: u16 = 0x0f;

/// Event code: detach button pressed / hardware requests detachment.
pub const DTX_CODE_DETACH_REQUEST: u16 = 0x10;

/// Error code carried by a detach-error event when the hardware timed out
/// waiting for the detachment to proceed.
pub const DETACH_ERROR_TIMEOUT: u8 = 0x02;

/// An opaque hardware notification record, exactly as the device delivers it.
#[derive(Debug, Clone, Copy, PartialEq, Eq, Structural)]
pub struct RawEvent {
    pub typ: u16,
    pub code: u16,
    pub arg0: u8,
    pub arg1: u8,
}

/// Device operating mode (posture), as reported by the hardware.
#[derive(Debug, Clone, Copy, PartialEq, Eq, Structural)]
pub enum OpMode {
    Tablet,
    Laptop,
    Studio,
}

/// Electrical/data link between base and tablet.
#[derive(Debug, Clone, Copy, PartialEq, Eq, Structural)]
pub enum ConnectionState {
    Disconnected,
    Connected,
}

/// Mechanical latch position: `Open` means released, `Closed` engaged.
#[derive(Debug, Clone, Copy, PartialEq, Eq, Structural)]
pub enum LatchState {
    Closed,
    Open,
}

/// Status broadcast to bus consumers; emitted by the state machine and never
/// stored.
#[derive(Debug, Clone, Copy, PartialEq, Eq, Structural)]
pub enum DetachState {
    DetachReady,
    DetachCompleted,
    DetachAborted,
    AttachCompleted,
}

/// A classified hardware notification.
#[derive(Debug, Clone, Copy, PartialEq, Eq, Structural)]
#[allow(inconsistent_fields)]
pub enum Event {
    OpModeChange { mode: OpMode },
    ConnectionChange { state: ConnectionState },
    LatchStateChange { state: LatchState },
    DetachRequest,
    DetachError { code: u8 },
}

/// Meaning of a raw record: the typed event it stands for, or `None` when
/// the record is unrecognized.
pub open spec fn spec_classify(raw: RawEvent) -> Option<Event> {
    if raw.typ != DTX_EVENT_TYPE {
        None
    } else if raw.code == DTX_CODE_CONNECTION {
        if raw.arg0 == 0 {
            Some(Event::ConnectionChange { state: ConnectionState::Disconnected })
        } else if raw.arg0 == 1 {
            Some(Event::ConnectionChange { state: ConnectionState::Connected })
        } else {
            None
        }
    } else if raw.code == DTX_CODE_OPMODE {
        if raw.arg0 == 0 {
            Some(Event::OpModeChange { mode: OpMode::Tablet })
        } else if raw.arg0 == 1 {
            Some(Event::OpModeChange { mode: OpMode::Laptop })
        } else if raw.arg0 == 2 {
            Some(Event::OpModeChange { mode: OpMode::Studio })
        } else {
            None
        }
    } else if raw.code == DTX_CODE_LATCH {
        if raw.arg0 == 0 {
            Some(Event::LatchStateChange { state: LatchState::Closed })
        } else if raw.arg0 == 1 {
            Some(Event::LatchStateChange { state: LatchState::Open })
        } else {
            None
        }
    } else if raw.code == DTX_CODE_DETACH_REQUEST {
        Some(Event::DetachRequest)
    } else if raw.code == DTX_CODE_DETACH_ERROR {
        Some(Event::DetachError { code: raw.arg0 })
    } else {
        None
    }
}

/// Classifies a raw record. Pure lookup on the type and code fields; the
/// argument fields select variant payloads. `None` means unrecognized, which
/// the caller treats as log-and-continue, never as a failure.
pub fn classify(raw: RawEvent) -> (r: Option<Event>)
    ensures
        r == spec_classify(raw),
{
    if raw.typ != DTX_EVENT_TYPE {
        None
    } else if raw.code == DTX_CODE_CONNECTION {
        if raw.arg0 == 0 {
            Some(Event::ConnectionChange { state: ConnectionState::Disconnected })
        } else if raw.arg0 == 1 {
            Some(Event::ConnectionChange { state: ConnectionState::Connected })
        } else {
            None
        }
    } else if raw.code == DTX_CODE_OPMODE {
        if raw.arg0 == 0 {
            Some(Event::OpModeChange { mode: OpMode::Tablet })
        } else if raw.arg0 == 1 {
            Some(Event::OpModeChange { mode: OpMode::Laptop })
        } else if raw.arg0 == 2 {
            Some(Event::OpModeChange { mode: OpMode::Studio })
        } else {
            None
        }
    } else if raw.code == DTX_CODE_LATCH {
        if raw.arg0 == 0 {
            Some(Event::LatchStateChange { state: LatchState::Closed })
        } else if raw.arg0 == 1 {
            Some(Event::LatchStateChange { state: LatchState::Open })
        } else {
            None
        }
    } else if raw.code == DTX_CODE_DETACH_REQUEST {
        Some(Event::DetachRequest)
    } else if raw.code == DTX_CODE_DETACH_ERROR {
        Some(Event::DetachError { code: raw.arg0 })
    } else {
        None
    }
}

} // verus!
