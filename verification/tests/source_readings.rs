use screen_lock_status::source::{
    from_dictionary_snapshot, from_property_change, from_pump_result, from_session_message, Event,
    FailureKind, SourceError, LOCK_INDICATOR_KEY, PUMP_CLOSED, PUMP_FAILED,
    SESSION_CHANGE_MESSAGE, SESSION_LOCK_CODE, SESSION_UNLOCK_CODE,
};

#[test]
fn native_constants() {
    assert_eq!(SESSION_CHANGE_MESSAGE, 0x02B1);
    assert_eq!(SESSION_LOCK_CODE, 7);
    assert_eq!(SESSION_UNLOCK_CODE, 8);
    assert_eq!(PUMP_CLOSED, 0);
    assert_eq!(PUMP_FAILED, -1);
    assert_eq!(LOCK_INDICATOR_KEY, "CGSSessionScreenIsLocked");
}

#[test]
fn property_change_readings() {
    assert_eq!(from_property_change(Some(Some(true))), Event::Observed(true));
    assert_eq!(from_property_change(Some(Some(false))), Event::Observed(false));
    assert_eq!(from_property_change(Some(None)), Event::Failed(SourceError::PropertyRead));
    assert_eq!(from_property_change(None), Event::Failed(SourceError::StreamEnded));
}

#[test]
fn session_message_readings() {
    assert_eq!(from_session_message(0x02B1, 7), Event::Observed(true));
    assert_eq!(from_session_message(0x02B1, 8), Event::Observed(false));
    assert_eq!(from_session_message(0x02B1, 1), Event::Unrecognized);
    assert_eq!(from_session_message(0x02B1, 0), Event::Unrecognized);
    assert_eq!(from_session_message(0x0010, 7), Event::Unrecognized);
    assert_eq!(from_session_message(0x000F, 8), Event::Unrecognized);
    assert_eq!(from_session_message(0, 0), Event::Unrecognized);
}

#[test]
fn pump_readings() {
    assert_eq!(from_pump_result(0, 0x02B1, 7), Event::Failed(SourceError::StreamEnded));
    assert_eq!(from_pump_result(-1, 0x02B1, 7), Event::Failed(SourceError::MessageLoop));
    assert_eq!(from_pump_result(1, 0x02B1, 7), Event::Observed(true));
    assert_eq!(from_pump_result(1, 0x02B1, 8), Event::Observed(false));
    assert_eq!(from_pump_result(1, 0x0113, 7), Event::Unrecognized);
    assert_eq!(from_pump_result(2, 0x02B1, 3), Event::Unrecognized);
}

#[test]
fn dictionary_readings() {
    assert_eq!(from_dictionary_snapshot(Some(true)), Event::Observed(true));
    assert_eq!(from_dictionary_snapshot(Some(false)), Event::Observed(false));
    assert_eq!(from_dictionary_snapshot(None), Event::Failed(SourceError::Dictionary));
}

#[test]
fn failure_kinds() {
    assert_eq!(SourceError::Connection.kind(), FailureKind::Acquisition);
    assert_eq!(SourceError::Proxy.kind(), FailureKind::Acquisition);
    assert_eq!(SourceError::Window.kind(), FailureKind::Acquisition);
    assert_eq!(SourceError::Dictionary.kind(), FailureKind::Acquisition);
    assert_eq!(SourceError::PropertyRead.kind(), FailureKind::Read);
    assert_eq!(SourceError::MessageLoop.kind(), FailureKind::Read);
    assert_eq!(SourceError::StreamEnded.kind(), FailureKind::Read);
}
