use ptouch::{
    check_written, find_endpoint, is_candidate, locate_endpoints, serial_matches, Direction,
    Endless, Endpoint, EndpointInfo, Error, ErrorFlag, Media, Model, Notification, Phase, PollStep,
    PrinterError, Status, StatusPoll, StatusType, TransferType,
};

fn reply(phase: u8, width: u8, kind: u8) -> [u8; 32] {
    let mut buf = [0u8; 32];
    buf[0] = 0x80;
    buf[1] = 0x20;
    buf[2] = 0x42;
    buf[4] = 0x38;
    buf[10] = width;
    buf[11] = kind;
    buf[19] = phase;
    buf
}

#[test]
fn decode_receiving_reply() {
    let status = Status::from_buf(reply(0x00, 62, 0x0A));
    assert_eq!(status.model, Some(Model::QL800));
    assert_eq!(status.media, Some(Media::Endless(Endless::Endless62)));
    assert_eq!(status.phase, Phase::Receiving);
    assert_eq!(status.status_type, StatusType::ReplyToRequest);
    assert_eq!(status.notification, Notification::NotAvailable);
    assert!(status.error.is_clear());
}

#[test]
fn decode_is_total() {
    for fill in [0x00u8, 0x03, 0x07, 0x55, 0xAA, 0xFF] {
        let status = Status::from_buf([fill; 32]);
        assert_eq!(status.mode, fill);
        assert_eq!(status.id, fill);
    }
    let status = Status::from_buf([0xFF; 32]);
    assert_eq!(status.model, None);
    assert_eq!(status.media, None);
    assert_eq!(status.status_type, StatusType::Unknown);
    assert_eq!(status.phase, Phase::Waiting(0));
    assert_eq!(status.notification, Notification::NotAvailable);
}

#[test]
fn decode_codes() {
    let mut buf = [0u8; 32];
    buf[18] = 0x06;
    buf[19] = 0x01;
    buf[22] = 0x03;
    let status = Status::from_buf(buf);
    assert_eq!(status.status_type, StatusType::PhaseChange);
    assert_eq!(status.phase, Phase::Printing);
    assert_eq!(status.notification, Notification::CoolingStarted);
    assert_eq!(StatusType::from_code(0x02), StatusType::Error);
    assert_eq!(StatusType::from_code(0x03), StatusType::Unknown);
    assert_eq!(Notification::from_code(0x04), Notification::CoolingFinished);
}

#[test]
fn error_flags() {
    let mut buf = [0u8; 32];
    buf[8] = 0x01;
    buf[9] = 0x10;
    let error = PrinterError::from_buf(buf);
    assert_eq!(error.bits(), 0x1001);
    assert!(error.has(ErrorFlag::NoMedia));
    assert!(error.has(ErrorFlag::CoverOpen));
    assert!(!error.has(ErrorFlag::CutterJam));
    assert!(!error.is_clear());
}

#[test]
fn check_media_matches() {
    let media = Media::Endless(Endless::Endless62);
    assert!(Status::from_buf(reply(0, 62, 0x0A)).check_media(media).is_ok());
    let other = Status::from_buf(reply(0, 29, 0x0A)).check_media(media);
    assert!(matches!(other, Err(Error::InvalidMedia(m)) if m == media));
    let none = Status::from_buf(reply(0, 0, 0)).check_media(media);
    assert!(matches!(none, Err(Error::InvalidMedia(m)) if m == media));
}

#[test]
fn models() {
    assert_eq!(Model::from_str("QL-800"), Some(Model::QL800));
    assert_eq!(Model::from_str("QL-1115NWB"), Some(Model::QL1115NWB));
    assert_eq!(Model::from_str("QL-500"), None);
    assert_eq!(Model::from_str("ql-800"), None);
    assert_eq!(Model::QL800.pid(), 0x209B);
    assert_eq!(Model::QL500.pid(), 0);
    assert_eq!(Model::QL800.pins(), 720);
    assert_eq!(Model::QL1100.pins(), 1296);
    assert_eq!(Model::QL820NWB.name(), "QL-820NWB");
    assert_eq!(Model::from_code(0x41), Model::QL820NWB);
    assert_eq!(Model::try_from_code(0x00), None);
}

#[test]
fn device_matching() {
    assert!(is_candidate(Model::QL800, 0x04F9, 0x209B));
    assert!(!is_candidate(Model::QL800, 0x04F8, 0x209B));
    assert!(!is_candidate(Model::QL800, 0x04F9, 0x209C));
    assert!(serial_matches("000G0Z714634", "000G0Z714634"));
    assert!(!serial_matches("000G0Z714634", "000G0Z714635"));
}

fn endpoint(address: u8, direction: Direction, transfer_type: TransferType) -> EndpointInfo {
    EndpointInfo { config: 1, iface: 0, setting: 0, address, direction, transfer_type }
}

#[test]
fn endpoints_first_match() {
    let list = vec![
        endpoint(0x81, Direction::In, TransferType::Interrupt),
        endpoint(0x82, Direction::In, TransferType::Bulk),
        endpoint(0x02, Direction::Out, TransferType::Bulk),
        endpoint(0x83, Direction::In, TransferType::Bulk),
    ];
    let found = find_endpoint(&list, Direction::In, TransferType::Bulk);
    assert_eq!(found, Some(Endpoint { config: 1, iface: 0, setting: 0, address: 0x82 }));
    let (i, o) = locate_endpoints(&list).unwrap();
    assert_eq!(i.address, 0x82);
    assert_eq!(o.address, 0x02);
    let no_out = vec![endpoint(0x82, Direction::In, TransferType::Bulk)];
    assert!(matches!(locate_endpoints(&no_out), Err(Error::MissingEndpoint)));
    assert_eq!(find_endpoint(&Vec::new(), Direction::Out, TransferType::Bulk), None);
}

#[test]
fn write_results() {
    assert_eq!(check_written(10, Ok(10)).unwrap(), 10);
    assert!(matches!(check_written(10, Ok(4)), Err(Error::InvalidResponse(4))));
    assert!(matches!(
        check_written(10, Err(rusb::Error::Timeout)),
        Err(Error::UsbError(rusb::Error::Timeout))
    ));
}

#[test]
fn status_poll_returns_receiving_reply() {
    let mut poll = StatusPoll::new();
    assert!(matches!(poll.on_read(Ok(32), reply(0x01, 62, 0x0A)), PollStep::Retry));
    assert!(matches!(poll.on_read(Ok(12), reply(0x00, 62, 0x0A)), PollStep::Retry));
    match poll.on_read(Ok(32), reply(0x00, 62, 0x0A)) {
        PollStep::Done(status) => assert_eq!(status.phase, Phase::Receiving),
        other => panic!("unexpected step {:?}", other),
    }
}

#[test]
fn status_poll_gives_up_after_ten_reads() {
    let mut poll = StatusPoll::new();
    for _ in 0..9 {
        assert!(matches!(poll.on_read(Ok(32), reply(0x01, 62, 0x0A)), PollStep::Retry));
    }
    assert!(matches!(
        poll.on_read(Ok(32), reply(0x01, 62, 0x0A)),
        PollStep::Failed(Error::ReadStatusTimeout)
    ));
}

#[test]
fn status_poll_stops_on_usb_error() {
    let mut poll = StatusPoll::new();
    assert!(matches!(
        poll.on_read(Err(rusb::Error::NoDevice), [0; 32]),
        PollStep::Failed(Error::UsbError(rusb::Error::NoDevice))
    ));
}
