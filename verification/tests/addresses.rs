use esb::peripherals::address_conversion;
use esb::peripherals::bytewise_bit_swap;
use esb::peripherals::u32_from_le_bytes;
use esb::peripherals::EsbTimer;
use esb::peripherals::Sealed;
use esb::sim::SimRadio;
use esb::Addresses;
use esb::ConfigBuilder;
use esb::Error;
use esb::EsbBuffer;

struct FakeTimer;

impl Sealed for FakeTimer {}

impl EsbTimer for FakeTimer {
    fn init(&mut self) {}
    fn set_interrupt_retransmit(&mut self, _micros: u16) {}
    fn clear_interrupt_retransmit() {}
    fn is_retransmit_pending() -> bool {
        true
    }
    fn set_interrupt_ack(&mut self, _micros: u16) {}
    fn clear_interrupt_ack() {}
    fn is_ack_pending() -> bool {
        true
    }
    fn stop() {}
}

#[test]
fn addresses_default_values() {
    let addresses = Addresses::default();
    assert_eq!(addresses.base0, [0xE7, 0xE7, 0xE7, 0xE7]);
    assert_eq!(addresses.base1, [0xC2, 0xC2, 0xC2, 0xC2]);
    assert_eq!(addresses.prefixes0, [0xE7, 0xC2, 0xC3, 0xC4]);
    assert_eq!(addresses.prefixes1, [0xC5, 0xC6, 0xC7, 0xC8]);
    assert_eq!(addresses.rf_channel, 2);
}

#[test]
fn addresses_accept_channel_100() {
    let a = Addresses::new([0; 4], [0; 4], [0; 4], [0; 4], 100).unwrap();
    assert_eq!(a.rf_channel, 100);
}

#[test]
fn addresses_reject_channel_101() {
    let refused = Addresses::new([0; 4], [0; 4], [0; 4], [0; 4], 101);
    assert_eq!(refused.err(), Some(Error::InvalidParameters));
}

#[test]
fn u32_from_le_bytes_assembles_little_endian() {
    assert_eq!(u32_from_le_bytes(&[0x01, 0x02, 0x03, 0x04]), 0x0403_0201);
    assert_eq!(u32_from_le_bytes(&[0xFF, 0x00, 0x00, 0x00]), 0x0000_00FF);
}

#[test]
fn address_conversion_reverses_all_bits() {
    assert_eq!(address_conversion(0x8000_0000), 0x0000_0001);
    assert_eq!(address_conversion(0x0000_0001), 0x8000_0000);
    // 0xE7E7E7E7 reversed bit-by-bit is its own mirror image.
    assert_eq!(address_conversion(0xE7E7_E7E7), 0xE7E7_E7E7);
    assert_eq!(address_conversion(0x0102_0304), 0x20C0_4080);
}

#[test]
fn bytewise_bit_swap_reverses_bits_within_each_byte() {
    // Each byte is reversed in place; the byte order stays.
    assert_eq!(bytewise_bit_swap(0x0102_0304), 0x8040_C020);
    assert_eq!(bytewise_bit_swap(0x0000_00FF), 0x0000_00FF);
    assert_eq!(bytewise_bit_swap(0x0000_0080), 0x0000_0001);
}

#[test]
fn init_programs_converted_addresses() {
    let mut buffer = EsbBuffer::new(512, 512);
    let mut dev = SimRadio::new();
    let config = ConfigBuilder::default().check().unwrap();
    let split = buffer.try_split(FakeTimer, &mut dev, Addresses::default(), config);
    assert!(split.is_ok());

    let settings = dev.configured.unwrap();
    // The default base addresses are bit-wise palindromes per byte, so only
    // the byte order flip of the whole-word reversal shows.
    assert_eq!(settings.base0, address_conversion(0xE7E7_E7E7));
    assert_eq!(settings.base0, 0xE7E7_E7E7);
    assert_eq!(settings.base1, 0x4343_4343);
    // Prefixes are reversed within each byte, order kept:
    // [E7, C2, C3, C4] as a little-endian word, each byte mirrored.
    assert_eq!(settings.prefix0, 0x23C3_43E7);
    assert_eq!(settings.prefix1, 0x13E3_63A3);
    assert_eq!(settings.rf_channel, 2);
    assert_eq!(settings.max_payload, 252);
    // Payloads over 32 bytes need the full 8-bit length field.
    assert_eq!(settings.length_field_bits, 8);
}

#[test]
fn init_selects_short_length_field_for_small_payloads() {
    let mut buffer = EsbBuffer::new(512, 512);
    let mut dev = SimRadio::new();
    let config = ConfigBuilder::default()
        .max_payload_size(32)
        .check()
        .unwrap();
    let split = buffer.try_split(FakeTimer, &mut dev, Addresses::default(), config);
    assert!(split.is_ok());
    // At most 32 bytes of payload: the nRF24L01+-compatible 6-bit field.
    assert_eq!(dev.configured.unwrap().length_field_bits, 6);
    assert_eq!(dev.configured.unwrap().max_payload, 32);
}
