use capture::{
    create_capture, encode_frame, Backend, BackendType, CaptureBackend, CaptureError,
    PktmonBackend, Platform, PORT_RANGE_FIRST, PORT_RANGE_SECOND,
};

#[test]
fn severed_connection_reports_channel_closed() {
    let mut b = PktmonBackend::new();
    b.connection_lost();
    assert!(matches!(b.next_packet(), Err(CaptureError::ChannelClosed)));
    assert!(matches!(b.next_packet(), Err(CaptureError::ChannelClosed)));
}

#[test]
fn session_failure_reports_capture_error_not_channel_closed() {
    let mut b = PktmonBackend::new();
    b.session_failed(String::from("trace session aborted"));
    match b.next_packet() {
        Err(CaptureError::Capture { has_captured, error }) => {
            assert!(!has_captured);
            assert_eq!(error, "trace session aborted");
        }
        _ => panic!("expected a Capture error"),
    }
}

#[test]
fn session_failure_after_delivery_sets_has_captured() {
    let mut b = PktmonBackend::new();
    b.feed_bytes(&encode_frame(&[1, 2, 3]));
    b.session_failed(String::from("device vanished"));
    assert_eq!(b.next_packet().unwrap(), vec![1, 2, 3]);
    match b.next_packet() {
        Err(CaptureError::Capture { has_captured, error }) => {
            assert!(has_captured);
            assert_eq!(error, "device vanished");
        }
        _ => panic!("expected a Capture error"),
    }
}

#[test]
fn filter_rejection_reports_filter_error() {
    let mut b = PktmonBackend::new();
    b.filter_rejected(String::from("syntax error in filter"));
    match b.next_packet() {
        Err(CaptureError::Filter(cause)) => {
            assert_eq!(cause, "syntax error in filter");
        }
        _ => panic!("expected a Filter error"),
    }
}

#[test]
fn session_end_reports_capture_closed_forever() {
    let mut b = PktmonBackend::new();
    b.feed_bytes(&encode_frame(&[9]));
    b.session_ended();
    assert_eq!(b.next_packet().unwrap(), vec![9]);
    assert!(matches!(b.next_packet(), Err(CaptureError::CaptureClosed)));
    assert!(matches!(b.next_packet(), Err(CaptureError::CaptureClosed)));
    assert!(matches!(b.next_packet(), Err(CaptureError::CaptureClosed)));
}

#[test]
fn first_terminal_outcome_wins() {
    let mut b = PktmonBackend::new();
    b.session_ended();
    b.connection_lost();
    assert!(matches!(b.next_packet(), Err(CaptureError::CaptureClosed)));
}

#[test]
fn frames_come_out_in_stream_order() {
    let mut b = PktmonBackend::new();
    let mut stream = Vec::new();
    stream.extend_from_slice(&encode_frame(&[1]));
    stream.extend_from_slice(&encode_frame(&[2, 2]));
    stream.extend_from_slice(&encode_frame(&[3, 3, 3]));
    b.feed_bytes(&stream);
    assert_eq!(b.ready_len(), 3);
    assert_eq!(b.next_packet().unwrap(), vec![1]);
    assert_eq!(b.next_packet().unwrap(), vec![2, 2]);
    assert_eq!(b.next_packet().unwrap(), vec![3, 3, 3]);
    assert_eq!(b.ready_len(), 0);
}

#[test]
fn split_feeds_reassemble_frames() {
    let mut b = PktmonBackend::new();
    let frame = encode_frame(&[10, 20, 30, 40]);
    b.feed_bytes(&frame[..2]);
    assert_eq!(b.ready_len(), 0);
    b.feed_bytes(&frame[2..6]);
    assert_eq!(b.ready_len(), 0);
    b.feed_bytes(&frame[6..]);
    assert_eq!(b.ready_len(), 1);
    assert_eq!(b.next_packet().unwrap(), vec![10, 20, 30, 40]);
}

#[test]
fn empty_payload_frame_is_a_packet() {
    let mut b = PktmonBackend::new();
    b.feed_bytes(&encode_frame(&[]));
    assert_eq!(b.ready_len(), 1);
    assert_eq!(b.next_packet().unwrap(), Vec::<u8>::new());
}

#[test]
fn late_bytes_after_terminal_are_ignored() {
    let mut b = PktmonBackend::new();
    b.connection_lost();
    b.feed_bytes(&encode_frame(&[5]));
    assert_eq!(b.ready_len(), 0);
    assert!(matches!(b.next_packet(), Err(CaptureError::ChannelClosed)));
}

#[test]
fn factory_built_backend_streams_frames() {
    let r = create_capture(BackendType::Pktmon, Platform::Windows);
    let Ok(Backend::Pktmon(mut b)) = r else {
        panic!("expected the native backend");
    };
    assert!(!b.is_done());
    assert!(!b.has_captured());
    b.feed_bytes(&encode_frame(&[42, 43]));
    assert_eq!(b.next_packet().unwrap(), vec![42, 43]);
    assert!(b.has_captured());
    b.connection_lost();
    assert!(b.is_done());
    assert!(matches!(b.next_packet(), Err(CaptureError::ChannelClosed)));
}

#[test]
fn encode_frame_writes_big_endian_length_then_payload() {
    assert_eq!(encode_frame(&[0xAB, 0xCD]), vec![0, 0, 0, 2, 0xAB, 0xCD]);
    assert_eq!(encode_frame(&[]), vec![0, 0, 0, 0]);
    let long = vec![7u8; 300];
    let framed = encode_frame(&long);
    assert_eq!(&framed[..4], &[0, 0, 1, 44]);
    assert_eq!(&framed[4..], &long[..]);
}

#[test]
fn reserved_port_pair_is_adjacent() {
    assert_eq!(PORT_RANGE_SECOND, PORT_RANGE_FIRST + 1);
    assert_eq!(PORT_RANGE_FIRST, 22101);
}
