use esb::irq::StatePTX;
use esb::peripherals::EsbTimer;
use esb::peripherals::Sealed;
use esb::sim::SimRadio;
use esb::Addresses;
use esb::ConfigBuilder;
use esb::Error;
use esb::EsbBuffer;
use esb::EsbHeader;

struct FakeTimer;

impl Sealed for FakeTimer {}

impl EsbTimer for FakeTimer {
    fn init(&mut self) {}
    fn set_interrupt_retransmit(&mut self, _micros: u16) {}
    fn clear_interrupt_retransmit() {}
    fn is_retransmit_pending() -> bool {
        true
    }
    fn set_interrupt_ack(&mut self, _micros: u16) {}
    fn clear_interrupt_ack() {}
    fn is_ack_pending() -> bool {
        true
    }
    fn stop() {}
}

#[test]
fn ptx_single_frame_acked_first_attempt() {
    let mut buffer = EsbBuffer::new(512, 512);
    let mut dev = SimRadio::new();
    let config = ConfigBuilder::default().check().unwrap();
    let (mut app, irq, _irq_timer) = buffer
        .try_split(FakeTimer, &mut dev, Addresses::default(), config)
        .unwrap();
    let mut irq = irq.into_ptx();

    let header = EsbHeader::new(4, 0, 2, false).unwrap();
    let mut grant = app.grant_packet(&mut buffer, header).unwrap();
    grant.copy_from_slice(&[0xDE, 0xAD, 0xBE, 0xEF]);
    grant.commit_all(&mut buffer.app_to_radio);
    app.start_tx(&mut buffer);
    assert!(buffer.radio_pending);

    // User-pended interrupt: the driver starts the transmission.
    let state = irq.radio_interrupt(&mut buffer, &mut dev);
    assert_eq!(state, Ok(StatePTX::TransmitterTx));
    assert_eq!(dev.tx_loaded_buf, vec![4, 0b0000_0001, 0xDE, 0xAD, 0xBE, 0xEF]);
    assert_eq!(dev.tx_address_reg, 2);
    assert_eq!(dev.rx_addresses_reg, 1 << 2);
    assert_eq!(dev.tx_starts, 1);

    // The transmission ends: the radio turns around to listen for the ack.
    dev.fire_disabled();
    let state = irq.radio_interrupt(&mut buffer, &mut dev);
    assert_eq!(state, Ok(StatePTX::TransmitterWaitAck));

    // The peer answers with an empty acknowledgement, CRC good.
    dev.deliver(2, 0x1234, 70, true, vec![0, 0]);
    let state = irq.radio_interrupt(&mut buffer, &mut dev);
    assert_eq!(state, Ok(StatePTX::IdleTx));

    // The frame left the outgoing queue and no grants are outstanding.
    assert!(buffer.app_to_radio.read_next().is_none());
    assert!(irq.radio.tx_grant.is_none());
    assert!(irq.radio.rx_grant.is_none());
    assert_eq!(irq.attempts, 0);

    // The acknowledgement was committed towards the application.
    assert!(app.msg_ready(&buffer));
    let packet = app.read_packet(&mut buffer).unwrap();
    assert_eq!(packet.payload_len(), 0);
    assert_eq!(packet.pipe(), 2);
    assert_eq!(packet.get_header().rssi(), 70);
    packet.release(&mut buffer.radio_to_app);
    assert!(!app.msg_ready(&buffer));
}

#[test]
fn ptx_retransmit_exhaustion_after_three_timeouts() {
    let mut buffer = EsbBuffer::new(512, 512);
    let mut dev = SimRadio::new();
    let config = ConfigBuilder::default().check().unwrap();
    let (mut app, irq, mut irq_timer) = buffer
        .try_split(FakeTimer, &mut dev, Addresses::default(), config)
        .unwrap();
    let mut irq = irq.into_ptx();

    let header = EsbHeader::new(4, 0, 2, false).unwrap();
    let mut grant = app.grant_packet(&mut buffer, header).unwrap();
    grant.copy_from_slice(&[0xDE, 0xAD, 0xBE, 0xEF]);
    grant.commit_all(&mut buffer.app_to_radio);
    app.start_tx(&mut buffer);

    assert_eq!(
        irq.radio_interrupt(&mut buffer, &mut dev),
        Ok(StatePTX::TransmitterTx)
    );

    let mut timeouts: u8 = 0;
    let result = loop {
        // The transmission ends; the driver arms the ack window.
        dev.fire_disabled();
        assert_eq!(
            irq.radio_interrupt(&mut buffer, &mut dev),
            Ok(StatePTX::TransmitterWaitAck)
        );

        // No acknowledgement ever arrives: the ack timeout fires.
        irq_timer.timer_interrupt(&mut buffer);
        timeouts += 1;
        match irq.radio_interrupt(&mut buffer, &mut dev) {
            Ok(StatePTX::TransmitterWaitRetransmit) => {
                assert_eq!(irq.attempts, timeouts);
                // The retransmit timer fires and the frame goes out again.
                irq_timer.timer_interrupt(&mut buffer);
                assert_eq!(
                    irq.radio_interrupt(&mut buffer, &mut dev),
                    Ok(StatePTX::TransmitterTx)
                );
            },
            other => break other,
        }
    };

    // The third ack timeout reports the exhaustion exactly once.
    assert_eq!(result, Err(Error::MaximumAttempts));
    assert_eq!(timeouts, 3);
    assert_eq!(irq.attempts, 0);
    assert_eq!(irq.state, StatePTX::IdleTx);
    // The frame was dropped for good.
    assert!(buffer.app_to_radio.read_next().is_none());
}

#[test]
fn ptx_no_ack_frame_is_sent_and_released() {
    let mut buffer = EsbBuffer::new(512, 512);
    let mut dev = SimRadio::new();
    let config = ConfigBuilder::default().check().unwrap();
    let (mut app, irq, _irq_timer) = buffer
        .try_split(FakeTimer, &mut dev, Addresses::default(), config)
        .unwrap();
    let mut irq = irq.into_ptx();

    let header = EsbHeader::new(1, 2, 5, true).unwrap();
    let mut grant = app.grant_packet(&mut buffer, header).unwrap();
    grant.copy_from_slice(&[0x42]);
    grant.commit_all(&mut buffer.app_to_radio);
    app.start_tx(&mut buffer);

    let state = irq.radio_interrupt(&mut buffer, &mut dev);
    assert_eq!(state, Ok(StatePTX::TransmitterTxNoAck));
    assert_eq!(dev.tx_loaded_buf, vec![1, 0b0000_0100, 0x42]);

    // The transmission ends; the frame is released and the driver idles.
    dev.fire_disabled();
    let state = irq.radio_interrupt(&mut buffer, &mut dev);
    assert_eq!(state, Ok(StatePTX::IdleTx));
    assert!(buffer.app_to_radio.read_next().is_none());
    assert!(irq.radio.tx_grant.is_none());
}

#[test]
fn ptx_incoming_queue_backpressure_keeps_frame_for_retry() {
    // The incoming queue is too small for an acknowledgement grant.
    let mut buffer = EsbBuffer::new(512, 64);
    let mut dev = SimRadio::new();
    let config = ConfigBuilder::default().check().unwrap();
    let (mut app, irq, _irq_timer) = buffer
        .try_split(FakeTimer, &mut dev, Addresses::default(), config)
        .unwrap();
    let mut irq = irq.into_ptx();

    let header = EsbHeader::new(4, 0, 2, false).unwrap();
    let mut grant = app.grant_packet(&mut buffer, header).unwrap();
    grant.copy_from_slice(&[0xDE, 0xAD, 0xBE, 0xEF]);
    grant.commit_all(&mut buffer.app_to_radio);
    app.start_tx(&mut buffer);

    assert_eq!(
        irq.radio_interrupt(&mut buffer, &mut dev),
        Ok(StatePTX::TransmitterTx)
    );
    let loaded = dev.tx_loaded_buf.clone();

    // The acked TX completion cannot obtain a receive grant.
    dev.fire_disabled();
    let state = irq.radio_interrupt(&mut buffer, &mut dev);
    assert_eq!(state, Err(Error::IncomingQueueFull));
    assert_eq!(irq.state, StatePTX::IdleTx);
    assert!(irq.radio.tx_grant.is_none());
    assert!(irq.radio.rx_grant.is_none());

    // The outgoing frame stayed in the queue: a retry transmits the very
    // same bytes.
    assert!(buffer.app_to_radio.read_next().is_some());
    app.start_tx(&mut buffer);
    assert_eq!(
        irq.radio_interrupt(&mut buffer, &mut dev),
        Ok(StatePTX::TransmitterTx)
    );
    assert_eq!(dev.tx_loaded_buf, loaded);
}

#[test]
fn ptx_user_event_while_busy_is_ignored() {
    let mut buffer = EsbBuffer::new(512, 512);
    let mut dev = SimRadio::new();
    let config = ConfigBuilder::default().check().unwrap();
    let (mut app, irq, _irq_timer) = buffer
        .try_split(FakeTimer, &mut dev, Addresses::default(), config)
        .unwrap();
    let mut irq = irq.into_ptx();

    let header = EsbHeader::new(1, 0, 0, false).unwrap();
    let mut grant = app.grant_packet(&mut buffer, header).unwrap();
    grant.copy_from_slice(&[0x01]);
    grant.commit_all(&mut buffer.app_to_radio);
    app.start_tx(&mut buffer);
    assert_eq!(
        irq.radio_interrupt(&mut buffer, &mut dev),
        Ok(StatePTX::TransmitterTx)
    );

    // A second user pend while transmitting changes nothing.
    app.start_tx(&mut buffer);
    assert_eq!(
        irq.radio_interrupt(&mut buffer, &mut dev),
        Ok(StatePTX::TransmitterTx)
    );
    assert_eq!(dev.tx_starts, 1);
}

#[test]
fn ptx_into_disabled_resets_state() {
    let mut buffer = EsbBuffer::new(512, 512);
    let mut dev = SimRadio::new();
    let config = ConfigBuilder::default().check().unwrap();
    let (mut app, irq, _irq_timer) = buffer
        .try_split(FakeTimer, &mut dev, Addresses::default(), config)
        .unwrap();
    let mut irq = irq.into_ptx();

    let header = EsbHeader::new(1, 0, 0, false).unwrap();
    let mut grant = app.grant_packet(&mut buffer, header).unwrap();
    grant.copy_from_slice(&[0x01]);
    grant.commit_all(&mut buffer.app_to_radio);
    app.start_tx(&mut buffer);
    assert_eq!(
        irq.radio_interrupt(&mut buffer, &mut dev),
        Ok(StatePTX::TransmitterTx)
    );

    let disabled = irq.into_disabled(&mut buffer, &mut dev);
    assert_eq!(disabled.attempts, 0);
    assert!(disabled.radio.tx_grant.is_none());
    assert!(disabled.radio.rx_grant.is_none());
    assert!(!buffer.timer_flag);
    // The frame was dropped without release: it is still queued.
    assert!(buffer.app_to_radio.read_next().is_some());

    // The driver can be brought back up in either role.
    let irq = disabled.into_prx();
    assert_eq!(irq.attempts, 0);
}
