use capture::CaptureError;

#[test]
fn filter_error_message_names_kind_and_cause() {
    let e = CaptureError::Filter(String::from("bad expression"));
    assert_eq!(e.message(), "Filter error: bad expression");
}

#[test]
fn capture_error_message_shows_flag_and_cause_before_data() {
    let e = CaptureError::Capture {
        has_captured: false,
        error: String::from("session start refused"),
    };
    assert_eq!(
        e.message(),
        "Capture error (has_captured = false): session start refused"
    );
}

#[test]
fn capture_error_message_shows_flag_and_cause_mid_stream() {
    let e = CaptureError::Capture {
        has_captured: true,
        error: String::from("device vanished"),
    };
    assert_eq!(
        e.message(),
        "Capture error (has_captured = true): device vanished"
    );
}

#[test]
fn capture_closed_message() {
    assert_eq!(CaptureError::CaptureClosed.message(), "Capture closed");
}

#[test]
fn channel_closed_message() {
    assert_eq!(CaptureError::ChannelClosed.message(), "Channel closed");
}
