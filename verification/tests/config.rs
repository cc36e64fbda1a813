use esb::ConfigBuilder;
use esb::Error;
use esb::TxPower;

#[test]
fn default_config_is_valid() {
    let config = ConfigBuilder::default().check().unwrap();
    assert_eq!(config.wait_for_ack_timeout, 120);
    assert_eq!(config.retransmit_delay, 500);
    assert_eq!(config.maximum_transmit_attempts, 3);
    assert_eq!(config.enabled_pipes, 0xFF);
    assert_eq!(config.tx_power, TxPower::ZeroDbm);
    assert_eq!(config.maximum_payload_size, 252);
}

#[test]
fn config_builder_example() {
    let config = ConfigBuilder::default()
        .wait_for_ack_timeout(50)
        .retransmit_delay(240)
        .maximum_transmit_attempts(4)
        .enabled_pipes(0x01)
        .check()
        .unwrap();
    assert_eq!(config.wait_for_ack_timeout, 50);
    assert_eq!(config.retransmit_delay, 240);
    assert_eq!(config.maximum_transmit_attempts, 4);
    assert_eq!(config.enabled_pipes, 0x01);
}

#[test]
fn config_rejects_retransmit_delay_within_ack_offset() {
    // retransmit_delay <= wait_for_ack_timeout + 62
    let result = ConfigBuilder::default()
        .wait_for_ack_timeout(200)
        .retransmit_delay(262)
        .check();
    assert_eq!(result.err(), Some(Error::InvalidParameters));
}

#[test]
fn config_rejects_retransmit_delay_within_ramp_up() {
    // retransmit_delay <= 140 (the ramp-up time)
    let result = ConfigBuilder::default()
        .wait_for_ack_timeout(44)
        .retransmit_delay(140)
        .check();
    assert_eq!(result.err(), Some(Error::InvalidParameters));
}

#[test]
fn config_rejects_short_ack_timeout() {
    // wait_for_ack_timeout < 44
    let result = ConfigBuilder::default().wait_for_ack_timeout(43).check();
    assert_eq!(result.err(), Some(Error::InvalidParameters));
}

#[test]
fn config_rejects_oversized_payload() {
    let result = ConfigBuilder::default().max_payload_size(253).check();
    assert_eq!(result.err(), Some(Error::InvalidParameters));
}

#[test]
fn config_accepts_boundary_values() {
    // The smallest accepted timing pair: the delay just clears both the
    // ack-timeout offset and the ramp-up time.
    let config = ConfigBuilder::default()
        .wait_for_ack_timeout(44)
        .retransmit_delay(150)
        .max_payload_size(252)
        .check();
    assert!(config.is_ok());
}

#[test]
fn config_rejects_ack_timeout_overflowing_timer_word() {
    // Adding the ramp-up time to the ack timeout must still fit a
    // microsecond counter word.
    let result = ConfigBuilder::default()
        .wait_for_ack_timeout(65500)
        .retransmit_delay(65535)
        .check();
    assert_eq!(result.err(), Some(Error::InvalidParameters));
}
