use capture::{
    create_capture, default_capture_backend_type, BackendType, CaptureError, Platform,
};

#[test]
fn userspace_library_kind_is_unsupported() {
    let r = create_capture(BackendType::Pcap, Platform::Windows);
    match r {
        Err(CaptureError::Capture { has_captured, error }) => {
            assert!(!has_captured);
            assert_eq!(
                error,
                "Capture backend type Pcap not supported on this operating system"
            );
        }
        _ => panic!("expected a Capture configuration error"),
    }
}

#[test]
fn native_kind_is_unsupported_off_windows() {
    let r = create_capture(BackendType::Pktmon, Platform::Unix);
    match r {
        Err(CaptureError::Capture { has_captured, error }) => {
            assert!(!has_captured);
            assert_eq!(
                error,
                "Capture backend type Pktmon not supported on this operating system"
            );
        }
        _ => panic!("expected a Capture configuration error"),
    }
}

#[test]
fn pcap_kind_is_unsupported_everywhere() {
    let r = create_capture(BackendType::Pcap, Platform::Unix);
    assert!(matches!(
        r,
        Err(CaptureError::Capture { has_captured: false, .. })
    ));
}

#[test]
fn native_kind_constructs_on_windows() {
    let r = create_capture(BackendType::Pktmon, Platform::Windows);
    assert!(r.is_ok());
}

#[test]
fn platform_defaults() {
    assert!(matches!(
        default_capture_backend_type(Platform::Windows),
        BackendType::Pktmon
    ));
    assert!(matches!(
        default_capture_backend_type(Platform::Unix),
        BackendType::Pcap
    ));
}
