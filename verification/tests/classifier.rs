use dtx_core::events::classify;
use dtx_core::events::ConnectionState;
use dtx_core::events::Event;
use dtx_core::events::LatchState;
use dtx_core::events::OpMode;
use dtx_core::events::RawEvent;
use dtx_core::events::DETACH_ERROR_TIMEOUT;
use dtx_core::events::DTX_CODE_CONNECTION;
use dtx_core::events::DTX_CODE_DETACH_ERROR;
use dtx_core::events::DTX_CODE_DETACH_REQUEST;
use dtx_core::events::DTX_CODE_LATCH;
use dtx_core::events::DTX_CODE_OPMODE;
use dtx_core::events::DTX_EVENT_TYPE;

fn raw(code: u16, arg0: u8) -> RawEvent {
    RawEvent { typ: DTX_EVENT_TYPE, code, arg0, arg1: 0 }
}

#[test]
fn classifies_connection_changes() {
    assert_eq!(
        classify(raw(DTX_CODE_CONNECTION, 0)),
        Some(Event::ConnectionChange { state: ConnectionState::Disconnected })
    );
    assert_eq!(
        classify(raw(DTX_CODE_CONNECTION, 1)),
        Some(Event::ConnectionChange { state: ConnectionState::Connected })
    );
    assert_eq!(classify(raw(DTX_CODE_CONNECTION, 2)), None);
}

#[test]
fn classifies_opmode_changes() {
    assert_eq!(
        classify(raw(DTX_CODE_OPMODE, 0)),
        Some(Event::OpModeChange { mode: OpMode::Tablet })
    );
    assert_eq!(
        classify(raw(DTX_CODE_OPMODE, 1)),
        Some(Event::OpModeChange { mode: OpMode::Laptop })
    );
    assert_eq!(
        classify(raw(DTX_CODE_OPMODE, 2)),
        Some(Event::OpModeChange { mode: OpMode::Studio })
    );
    assert_eq!(classify(raw(DTX_CODE_OPMODE, 3)), None);
}

#[test]
fn classifies_latch_changes() {
    assert_eq!(
        classify(raw(DTX_CODE_LATCH, 0)),
        Some(Event::LatchStateChange { state: LatchState::Closed })
    );
    assert_eq!(
        classify(raw(DTX_CODE_LATCH, 1)),
        Some(Event::LatchStateChange { state: LatchState::Open })
    );
    assert_eq!(classify(raw(DTX_CODE_LATCH, 9)), None);
}

#[test]
fn classifies_detach_request() {
    assert_eq!(classify(raw(DTX_CODE_DETACH_REQUEST, 0)), Some(Event::DetachRequest));
    // the argument fields carry nothing for a detach request
    assert_eq!(classify(raw(DTX_CODE_DETACH_REQUEST, 7)), Some(Event::DetachRequest));
}

#[test]
fn classifies_detach_error_with_its_code() {
    assert_eq!(
        classify(raw(DTX_CODE_DETACH_ERROR, DETACH_ERROR_TIMEOUT)),
        Some(Event::DetachError { code: DETACH_ERROR_TIMEOUT })
    );
    assert_eq!(
        classify(raw(DTX_CODE_DETACH_ERROR, 0x7f)),
        Some(Event::DetachError { code: 0x7f })
    );
}

#[test]
fn reports_unrecognized_records() {
    assert_eq!(classify(RawEvent { typ: 0x12, code: DTX_CODE_OPMODE, arg0: 0, arg1: 0 }), None);
    assert_eq!(classify(raw(0x42, 0)), None);
}
