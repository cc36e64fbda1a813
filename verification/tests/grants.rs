use esb::peripherals::EsbTimer;
use esb::peripherals::Sealed;
use esb::sim::SimRadio;
use esb::Addresses;
use esb::ConfigBuilder;
use esb::Error;
use esb::EsbBuffer;
use esb::EsbHeader;

struct FakeTimer;

impl Sealed for FakeTimer {}

impl EsbTimer for FakeTimer {
    fn init(&mut self) {}
    fn set_interrupt_retransmit(&mut self, _micros: u16) {}
    fn clear_interrupt_retransmit() {}
    fn is_retransmit_pending() -> bool {
        true
    }
    fn set_interrupt_ack(&mut self, _micros: u16) {}
    fn clear_interrupt_ack() {}
    fn is_ack_pending() -> bool {
        true
    }
    fn stop() {}
}

#[test]
fn split_succeeds_once() {
    let mut buffer = EsbBuffer::new(512, 512);
    let mut dev = SimRadio::new();
    let config = ConfigBuilder::default().check().unwrap();
    let first = buffer.try_split(FakeTimer, &mut dev, Addresses::default(), config);
    assert!(first.is_ok());
    let second = buffer.try_split(FakeTimer, &mut dev, Addresses::default(), config);
    assert_eq!(second.err(), Some(Error::AlreadySplit));
}

#[test]
fn release_timer_requires_quiescence() {
    let mut buffer = EsbBuffer::new(512, 512);
    let mut dev = SimRadio::new();
    let config = ConfigBuilder::default().check().unwrap();
    let (mut app, irq, _irq_timer) = buffer
        .try_split(FakeTimer, &mut dev, Addresses::default(), config)
        .unwrap();

    // A queued frame blocks the release.
    let header = EsbHeader::new(1, 0, 0, true).unwrap();
    let mut grant = app.grant_packet(&mut buffer, header).unwrap();
    grant.copy_from_slice(&[0x55]);
    grant.commit_all(&mut buffer.app_to_radio);
    let irq = match irq.release_timer(&buffer) {
        Ok(_) => panic!("released with a queued frame"),
        Err(irq) => irq,
    };

    // Draining the queue makes the driver quiescent.
    buffer.app_to_radio.release();
    assert!(irq.release_timer(&buffer).is_ok());
}

#[test]
fn commit_length_is_header_plus_min_of_used_and_length() {
    let mut buffer = EsbBuffer::new(512, 512);
    let mut dev = SimRadio::new();
    let config = ConfigBuilder::default().check().unwrap();
    let (mut app, _irq, _irq_timer) = buffer
        .try_split(FakeTimer, &mut dev, Addresses::default(), config)
        .unwrap();

    // used < length: the committed frame shrinks to `used` payload bytes.
    let header = EsbHeader::new(10, 0, 0, true).unwrap();
    let grant = app.grant_packet(&mut buffer, header).unwrap();
    grant.commit(4, &mut buffer.app_to_radio);
    let frame = buffer.app_to_radio.read_next().unwrap();
    assert_eq!(frame.len(), 4 + 4);
    assert_eq!(frame[2], 4);
    buffer.app_to_radio.release();

    // used > length: the committed frame is capped at `length`.
    let header = EsbHeader::new(10, 0, 0, true).unwrap();
    let grant = app.grant_packet(&mut buffer, header).unwrap();
    grant.commit(64, &mut buffer.app_to_radio);
    let frame = buffer.app_to_radio.read_next().unwrap();
    assert_eq!(frame.len(), 4 + 10);
    assert_eq!(frame[2], 10);
    buffer.app_to_radio.release();
}

#[test]
fn second_grant_before_commit_is_in_progress() {
    let mut buffer = EsbBuffer::new(512, 512);
    let mut dev = SimRadio::new();
    let config = ConfigBuilder::default().check().unwrap();
    let (mut app, _irq, _irq_timer) = buffer
        .try_split(FakeTimer, &mut dev, Addresses::default(), config)
        .unwrap();

    let header = EsbHeader::new(8, 0, 0, true).unwrap();
    let first = app.grant_packet(&mut buffer, header).unwrap();
    let second = app.grant_packet(&mut buffer, header);
    assert_eq!(second.err(), Some(Error::GrantInProgress));

    // Dropping the grant explicitly frees the reservation.
    first.abandon(&mut buffer.app_to_radio);
    let third = app.grant_packet(&mut buffer, header);
    assert!(third.is_ok());
}

#[test]
fn outgoing_queue_full_is_reported() {
    let mut buffer = EsbBuffer::new(16, 512);
    let mut dev = SimRadio::new();
    let config = ConfigBuilder::default().check().unwrap();
    let (mut app, _irq, _irq_timer) = buffer
        .try_split(FakeTimer, &mut dev, Addresses::default(), config)
        .unwrap();

    let header = EsbHeader::new(8, 0, 0, true).unwrap();
    let grant = app.grant_packet(&mut buffer, header).unwrap();
    grant.commit_all(&mut buffer.app_to_radio);
    // 12 of 16 bytes used: another 12-byte packet does not fit.
    let refused = app.grant_packet(&mut buffer, header);
    assert_eq!(refused.err(), Some(Error::OutgoingQueueFull));
}

#[test]
fn oversized_packet_is_rejected() {
    let mut buffer = EsbBuffer::new(512, 512);
    let mut dev = SimRadio::new();
    let config = ConfigBuilder::default()
        .max_payload_size(10)
        .check()
        .unwrap();
    let (mut app, _irq, _irq_timer) = buffer
        .try_split(FakeTimer, &mut dev, Addresses::default(), config)
        .unwrap();
    assert_eq!(app.maximum_payload_size(), 10);

    let header = EsbHeader::new(11, 0, 0, true).unwrap();
    let refused = app.grant_packet(&mut buffer, header);
    assert_eq!(refused.err(), Some(Error::MaximumPacketExceeded));
}

#[test]
fn update_header_truncates_length_to_grant_capacity() {
    let mut buffer = EsbBuffer::new(512, 512);
    let mut dev = SimRadio::new();
    let config = ConfigBuilder::default().check().unwrap();
    let (mut app, _irq, _irq_timer) = buffer
        .try_split(FakeTimer, &mut dev, Addresses::default(), config)
        .unwrap();

    let header = EsbHeader::new(10, 0, 0, true).unwrap();
    let mut grant = app.grant_packet(&mut buffer, header).unwrap();
    // A larger length cannot grow the grant: it is truncated to the
    // capacity the grant was created with.
    let bigger = EsbHeader::new(20, 0, 0, true).unwrap();
    grant.update_header(bigger);
    assert_eq!(grant.payload_len(), 10);
    grant.abandon(&mut buffer.app_to_radio);
}

#[test]
fn read_without_release_returns_same_packet() {
    let mut buffer = EsbBuffer::new(512, 512);
    let mut dev = SimRadio::new();
    let config = ConfigBuilder::default().check().unwrap();
    let (mut app, _irq, _irq_timer) = buffer
        .try_split(FakeTimer, &mut dev, Addresses::default(), config)
        .unwrap();

    assert!(!app.msg_ready(&buffer));
    assert!(app.read_packet(&mut buffer).is_none());

    let header = EsbHeader::new(2, 0, 0, true).unwrap();
    let mut grant = app.grant_packet(&mut buffer, header).unwrap();
    grant.copy_from_slice(&[0x0A, 0x0B]);
    grant.commit_all(&mut buffer.app_to_radio);

    let first = buffer.app_to_radio.read_next().unwrap();
    let second = buffer.app_to_radio.read_next().unwrap();
    assert_eq!(first, second);
}
