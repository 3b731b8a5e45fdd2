// The event lifecycle: pending, ready-with-success, ready-with-failure.

use rrad_pjrt::error::ERROR_CODE_OK;
use rrad_pjrt::error::ERROR_CODE_UNKNOWN;
use rrad_pjrt::event::EventOutcome;
use rrad_pjrt::event::PJRTEvent;
use rrad_pjrt::error::PJRTErrorKind;
use rrad_pjrt::raw::PluginFailure;

#[test]
fn event_on_ready_requires_callback() {
    let event = PJRTEvent::interpret_create(None, 0x3000).unwrap();
    let err = event
        .on_ready(false)
        .expect_err("on_ready(None, ..) should return an error");
    let err_msg = err.message();
    assert!(
        err_msg.contains("callback"),
        "expected callback validation error, got: {err_msg}"
    );
}

#[test]
fn event_create_and_is_ready_smoke() {
    let event = PJRTEvent::interpret_create(None, 0x3000).unwrap();
    assert!(
        event.handle.addr != 0,
        "created event should not be null"
    );
    assert!(!event.is_ready());

    let err = PJRTEvent::interpret_create(None, 0).unwrap_err();
    assert_eq!(err.error_kind(), PJRTErrorKind::ProtocolViolation);

    let err = PJRTEvent::interpret_create(
        Some(PluginFailure {
            code: ERROR_CODE_UNKNOWN,
            message: "no event support".to_string(),
        }),
        0,
    )
    .unwrap_err();
    assert_eq!(err.error_kind(), PJRTErrorKind::PluginReported);
}

#[test]
fn terminal_event_answers_without_the_plugin() {
    let mut event = PJRTEvent::new(0x3000);
    assert_eq!(event.plan_await().unwrap(), Some(0x3000));

    event.note_ready(EventOutcome::Success);
    assert!(event.is_ready());
    assert_eq!(event.plan_await().unwrap(), None);
    event.ok().unwrap();
}

#[test]
fn failed_event_surfaces_its_recorded_failure() {
    let mut event = PJRTEvent::new(0x3000);
    event.note_ready(EventOutcome::Failure {
        code: ERROR_CODE_UNKNOWN,
        message: "transfer failed".to_string(),
    });
    let err = event.ok().unwrap_err();
    assert_eq!(err.error_kind(), PJRTErrorKind::PluginReported);
    assert_eq!(err.get_code(), ERROR_CODE_UNKNOWN);
    assert_eq!(err.message(), "transfer failed");
}

#[test]
fn only_a_pending_standalone_event_can_be_set() {
    let plugin_event = PJRTEvent::new(0x3000);
    let err = plugin_event.plan_set().unwrap_err();
    assert_eq!(err.error_kind(), PJRTErrorKind::LocalValidation);

    let mut local_event = PJRTEvent::interpret_create(None, 0x3001).unwrap();
    assert_eq!(local_event.plan_set().unwrap(), 0x3001);
    local_event.note_set(ERROR_CODE_OK, "");
    assert!(local_event.is_ready());
    local_event.ok().unwrap();

    let err = local_event.plan_set().unwrap_err();
    assert_eq!(err.error_kind(), PJRTErrorKind::LocalValidation);
}

#[test]
fn set_with_an_error_code_makes_the_event_fail() {
    let mut local_event = PJRTEvent::interpret_create(None, 0x3001).unwrap();
    local_event.note_set(ERROR_CODE_UNKNOWN, "producer failed");
    let err = local_event.ok().unwrap_err();
    assert_eq!(err.get_code(), ERROR_CODE_UNKNOWN);
    assert_eq!(err.message(), "producer failed");
}

#[test]
fn event_into_raw_manual_destroy_smoke() {
    let mut event = PJRTEvent::new(0x3000);
    let raw = event.into_raw();
    assert!(raw != 0, "raw event should not be null");
    // ownership went with the raw handle: this wrapper never destroys
    assert!(!event.begin_destroy());
}
