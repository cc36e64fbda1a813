use esb::irq::StatePRX;
use esb::peripherals::EsbTimer;
use esb::peripherals::Sealed;
use esb::sim::SimRadio;
use esb::Addresses;
use esb::ConfigBuilder;
use esb::Error;
use esb::EsbBuffer;
use esb::EsbHeader;

struct FakeTimer;

impl Sealed for FakeTimer {}

impl EsbTimer for FakeTimer {
    fn init(&mut self) {}
    fn set_interrupt_retransmit(&mut self, _micros: u16) {}
    fn clear_interrupt_retransmit() {}
    fn is_retransmit_pending() -> bool {
        true
    }
    fn set_interrupt_ack(&mut self, _micros: u16) {}
    fn clear_interrupt_ack() {}
    fn is_ack_pending() -> bool {
        true
    }
    fn stop() {}
}

#[test]
fn prx_duplicate_ack_commits_once_but_acks_twice() {
    let mut buffer = EsbBuffer::new(512, 512);
    let mut dev = SimRadio::new();
    let config = ConfigBuilder::default().check().unwrap();
    let (mut app, irq, _irq_timer) = buffer
        .try_split(FakeTimer, &mut dev, Addresses::default(), config)
        .unwrap();
    let mut irq = irq.into_prx();

    irq.start_receiving(&mut buffer, &mut dev).unwrap();
    assert_eq!(irq.state, StatePRX::Receiver);
    assert_eq!(dev.rx_addresses_reg, 0xFF);

    // First reception: length 2, pid 1, acknowledgement requested.
    let dma = vec![2, 0b0000_0011, 0x01, 0x02];
    dev.deliver(3, 0xBEEF, 55, true, dma.clone());
    let state = irq.radio_interrupt(&mut buffer, &mut dev);
    assert_eq!(state, Ok(StatePRX::TransmittingAck));
    // No payload is queued: an empty acknowledgement goes out.
    assert_eq!(dev.tx_loaded_buf, vec![0, 0]);
    assert_eq!(dev.tx_address_reg, 3);
    let loads_after_first = dev.loads;

    // The acknowledgement transmission completes.
    dev.fire_disabled();
    assert_eq!(
        irq.radio_interrupt(&mut buffer, &mut dev),
        Ok(StatePRX::Receiver)
    );

    // The identical packet arrives again (the peer missed the ack).
    dev.deliver(3, 0xBEEF, 55, true, dma);
    let state = irq.radio_interrupt(&mut buffer, &mut dev);
    assert_eq!(state, Ok(StatePRX::TransmittingRepeatedAck));
    // The acknowledgement is sent again.
    assert_eq!(dev.loads, loads_after_first + 1);
    dev.fire_disabled();
    assert_eq!(
        irq.radio_interrupt(&mut buffer, &mut dev),
        Ok(StatePRX::Receiver)
    );

    // Exactly one frame was committed towards the application.
    let packet = app.read_packet(&mut buffer).unwrap();
    assert_eq!(packet.payload(), &[0x01, 0x02]);
    assert_eq!(packet.pipe(), 3);
    assert_eq!(packet.pid(), 1);
    assert_eq!(packet.get_header().rssi(), 55);
    packet.release(&mut buffer.radio_to_app);
    assert!(app.read_packet(&mut buffer).is_none());
}

#[test]
fn prx_no_ack_reception_commits_and_returns_to_rx() {
    let mut buffer = EsbBuffer::new(512, 512);
    let mut dev = SimRadio::new();
    let config = ConfigBuilder::default().check().unwrap();
    let (mut app, irq, _irq_timer) = buffer
        .try_split(FakeTimer, &mut dev, Addresses::default(), config)
        .unwrap();
    let mut irq = irq.into_prx();

    irq.start_receiving(&mut buffer, &mut dev).unwrap();
    let rx_starts_before = dev.rx_starts;
    let loads_before = dev.loads;

    // One packet with no_ack set: length 1, pid 0, payload 0xAA.
    dev.deliver(0, 0x0C0C, 40, true, vec![1, 0b0000_0000, 0xAA]);
    let state = irq.radio_interrupt(&mut buffer, &mut dev);
    assert_eq!(state, Ok(StatePRX::Receiver));

    // One frame committed, no acknowledgement loaded, radio back in RX.
    let packet = app.read_packet(&mut buffer).unwrap();
    assert_eq!(packet.payload(), &[0xAA]);
    assert_eq!(packet.pipe(), 0);
    packet.release(&mut buffer.radio_to_app);
    assert_eq!(dev.loads, loads_before);
    assert!(dev.rx_starts > rx_starts_before);
}

#[test]
fn prx_bad_crc_restarts_receiver_without_commit() {
    let mut buffer = EsbBuffer::new(512, 512);
    let mut dev = SimRadio::new();
    let config = ConfigBuilder::default().check().unwrap();
    let (mut app, irq, _irq_timer) = buffer
        .try_split(FakeTimer, &mut dev, Addresses::default(), config)
        .unwrap();
    let mut irq = irq.into_prx();

    irq.start_receiving(&mut buffer, &mut dev).unwrap();
    let rx_starts_before = dev.rx_starts;

    dev.deliver(1, 0x5555, 33, false, vec![1, 0b0000_0011, 0x77]);
    let state = irq.radio_interrupt(&mut buffer, &mut dev);
    assert_eq!(state, Ok(StatePRX::Receiver));
    assert!(app.read_packet(&mut buffer).is_none());
    assert!(dev.rx_starts > rx_starts_before);
}

#[test]
fn prx_ack_carries_queued_payload() {
    let mut buffer = EsbBuffer::new(512, 512);
    let mut dev = SimRadio::new();
    let config = ConfigBuilder::default().check().unwrap();
    let (mut app, irq, _irq_timer) = buffer
        .try_split(FakeTimer, &mut dev, Addresses::default(), config)
        .unwrap();
    let mut irq = irq.into_prx();

    irq.start_receiving(&mut buffer, &mut dev).unwrap();

    // The application pre-buffers an acknowledgement payload.
    let header = EsbHeader::new(2, 1, 3, false).unwrap();
    let mut grant = app.grant_packet(&mut buffer, header).unwrap();
    grant.copy_from_slice(&[0xCA, 0xFE]);
    grant.commit_all(&mut buffer.app_to_radio);

    dev.deliver(3, 0x1111, 60, true, vec![1, 0b0000_0011, 0x10]);
    let state = irq.radio_interrupt(&mut buffer, &mut dev);
    assert_eq!(state, Ok(StatePRX::TransmittingAck));
    // The acknowledgement carries the queued payload.
    assert_eq!(dev.tx_loaded_buf, vec![2, 0b0000_0011, 0xCA, 0xFE]);
}

#[test]
fn prx_stop_receiving_goes_idle() {
    let mut buffer = EsbBuffer::new(512, 512);
    let mut dev = SimRadio::new();
    let config = ConfigBuilder::default().check().unwrap();
    let (_app, irq, _irq_timer) = buffer
        .try_split(FakeTimer, &mut dev, Addresses::default(), config)
        .unwrap();
    let mut irq = irq.into_prx();

    irq.start_receiving(&mut buffer, &mut dev).unwrap();
    assert_eq!(irq.state, StatePRX::Receiver);

    irq.stop_receiving(&mut buffer, &mut dev);
    assert_eq!(irq.state, StatePRX::IdleRx);
    assert!(irq.radio.tx_grant.is_none());
    assert!(irq.radio.rx_grant.is_none());
    assert!(!buffer.radio_to_app.write_open);
}

#[test]
fn prx_incoming_queue_full_goes_idle() {
    // No room for even one full-size receive grant.
    let mut buffer = EsbBuffer::new(512, 64);
    let mut dev = SimRadio::new();
    let config = ConfigBuilder::default().check().unwrap();
    let (_app, irq, _irq_timer) = buffer
        .try_split(FakeTimer, &mut dev, Addresses::default(), config)
        .unwrap();
    let mut irq = irq.into_prx();

    let result = irq.start_receiving(&mut buffer, &mut dev);
    assert_eq!(result, Err(Error::IncomingQueueFull));
    assert_eq!(irq.state, StatePRX::IdleRx);
}
