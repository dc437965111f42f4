use swupdate_ipc::progress::{
    after_receive, ReceiveAction, check_progress_ack, layout_for_version, layout_from_version_output, parse_swupdate_version,
    progress_event_from_bytes,
};
use swupdate_ipc::wire::{
    ProgressLayout, RawProgressAck, RawProgressMsg, RawProgressMsgUnpacked, PROGRESS_API_VERSION,
};
use swupdate_ipc::{Error, ProgressEvent};

#[test]
fn parse_version_full() {
    assert_eq!(parse_swupdate_version("SWUpdate v2024.12.1"), Some((2024, 12)));
}

#[test]
fn parse_version_no_patch() {
    assert_eq!(parse_swupdate_version("SWUpdate v2025.05"), Some((2025, 5)));
}

#[test]
fn parse_version_future() {
    assert_eq!(parse_swupdate_version("SWUpdate v2025.12"), Some((2025, 12)));
}

#[test]
fn parse_version_empty() {
    assert_eq!(parse_swupdate_version(""), None);
}

#[test]
fn parse_version_garbage() {
    assert_eq!(parse_swupdate_version("not a version"), None);
}

#[test]
fn layout_from_old_version() {
    match parse_swupdate_version("SWUpdate v2024.12.1") {
        Some((year, month)) => assert!((year, month) < (2025, 12)),
        None => panic!("should parse"),
    }
}

#[test]
fn layout_from_new_version() {
    match parse_swupdate_version("SWUpdate v2025.12") {
        Some((year, month)) => assert!((year, month) >= (2025, 12)),
        None => panic!("should parse"),
    }
}

#[test]
fn packed_receive() {
    let mut msg = RawProgressMsg::new_zeroed();
    msg.apiversion = PROGRESS_API_VERSION;
    msg.status = 3; // Success
    msg.dwl_percent = 100;

    let event = progress_event_from_bytes(ProgressLayout::Packed, &msg.to_bytes()).unwrap();
    assert_eq!(event, ProgressEvent::Success);
}

#[test]
fn unpacked_receive() {
    let mut msg = RawProgressMsgUnpacked::new_zeroed();
    msg.apiversion = PROGRESS_API_VERSION;
    msg.status = 3; // Success
    msg.dwl_percent = 100;

    let event = progress_event_from_bytes(ProgressLayout::Unpacked, &msg.to_bytes()).unwrap();
    assert_eq!(event, ProgressEvent::Success);
}

// ---------------------------------------------------------------------------

#[test]
fn parse_version_edge_cases() {
    assert_eq!(parse_swupdate_version("  v1.2  "), Some((1, 2)));
    assert_eq!(parse_swupdate_version("SWUpdate\tv+7.+8x"), None);
    assert_eq!(parse_swupdate_version("SWUpdate v+7.+8"), Some((7, 8)));
    assert_eq!(parse_swupdate_version("v2025 v2025.3"), Some((2025, 3)));
    assert_eq!(parse_swupdate_version("vx.1 v2025.3"), None); // first match wins
    assert_eq!(parse_swupdate_version("v.5"), None);
    assert_eq!(parse_swupdate_version("v5."), None);
    assert_eq!(parse_swupdate_version("v4294967295.1"), Some((4294967295, 1)));
    assert_eq!(parse_swupdate_version("v4294967296.1"), None);
    assert_eq!(parse_swupdate_version("v-1.2"), None);
    assert_eq!(parse_swupdate_version("SWUpdate\u{3000}v2023.1"), Some((2023, 1)));
    assert_eq!(parse_swupdate_version("SWUpdate v２０２３.1"), None);
}

#[test]
fn layout_choice() {
    assert_eq!(layout_for_version(Some((2025, 12))), ProgressLayout::Packed);
    assert_eq!(layout_for_version(Some((2026, 1))), ProgressLayout::Packed);
    assert_eq!(layout_for_version(Some((2025, 11))), ProgressLayout::Unpacked);
    assert_eq!(layout_for_version(Some((2024, 12))), ProgressLayout::Unpacked);
    assert_eq!(layout_for_version(None), ProgressLayout::Packed);
    assert_eq!(layout_from_version_output(b"SWUpdate v2025.05\n"), ProgressLayout::Unpacked);
    assert_eq!(layout_from_version_output(b""), ProgressLayout::Packed);
    assert_eq!(layout_from_version_output(b"SWUpdate v2025.12.0\n"), ProgressLayout::Packed);
}

#[test]
fn handshake_checks() {
    let good = RawProgressAck { apiversion: 0x0002_0103, magic: *b"ACK\0" };
    assert!(check_progress_ack(&good).is_ok());

    let bad_magic = RawProgressAck { apiversion: PROGRESS_API_VERSION, magic: *b"NAK\0" };
    match check_progress_ack(&bad_magic) {
        Err(Error::Protocol(m)) => assert_eq!(m, "invalid ACK magic: [78, 65, 75, 0]"),
        other => panic!("unexpected {other:?}"),
    }

    let old = RawProgressAck { apiversion: 0x0001_0000, magic: *b"ACK\0" };
    match check_progress_ack(&old) {
        Err(Error::VersionMismatch { expected, actual }) => {
            assert_eq!(expected, PROGRESS_API_VERSION);
            assert_eq!(actual, 0x0001_0000);
        }
        other => panic!("unexpected {other:?}"),
    }
}

#[test]
fn progress_bytes_wrong_length() {
    let msg = RawProgressMsg::new_zeroed().to_bytes();
    assert!(progress_event_from_bytes(ProgressLayout::Unpacked, &msg).is_none());
    assert_eq!(
        progress_event_from_bytes(ProgressLayout::Packed, &msg),
        Some(ProgressEvent::Idle)
    );
}

#[test]
fn reconnect_decision() {
    let lost = || Err(Error::Connection(std::io::Error::new(std::io::ErrorKind::BrokenPipe, "x")));
    assert!(matches!(after_receive(true, lost()), ReceiveAction::Reconnect));
    assert!(matches!(
        after_receive(false, lost()),
        ReceiveAction::Return(Err(Error::Connection(_)))
    ));
    assert!(matches!(
        after_receive(true, Ok(ProgressEvent::Idle)),
        ReceiveAction::Return(Ok(ProgressEvent::Idle))
    ));
    assert!(matches!(
        after_receive(true, Err(Error::Rejected)),
        ReceiveAction::Return(Err(Error::Rejected))
    ));
}
