//! The abstract peripheral contract and the radio wrapper.
//!
//! [`RadioDevice`] captures what the protocol core consumes from a 2.4 GHz
//! radio peripheral: event latches, short-cuts, address registers, the
//! transmit buffer handed to its DMA engine, and the observables of the last
//! reception. [`EsbRadio`] owns the in-flight queue grants and translates
//! protocol intent into operations on such a device; it is where the
//! per-pipe duplicate suppression state lives. [`EsbTimer`] is the matching
//! contract for a microsecond timer with two compare channels.

use vstd::prelude::*;

use crate::app::Addresses;
use crate::payload::PayloadR;
use crate::payload::PayloadW;
use crate::payload::HEADER_SIZE;
use crate::queue::FramedQueue;
use crate::Error;
use crate::TxPower;

verus! {

/// The CRC initial value programmed into the radio.
pub const CRC_INIT: u32 = 0x0000_FFFF;

/// The CRC polynomial programmed into the radio.
pub const CRC_POLY: u32 = 0x0001_1021;

/// Number of logical pipes sharing the radio channel.
pub const NUM_PIPES: usize = 8;

/// True exactly when bit `i` of `v` is set.
pub open spec fn u32_bit(v: u32, i: u32) -> bool {
    ((v >> i) & 1) == 1
}

/// Relies on `u32::reverse_bits`: bit `i` of the result is bit `31 - i` of
/// the input.
#[verifier::external_body]
fn u32_reverse_bits(v: u32) -> (r: u32)
    ensures
        forall|i: u32| i < 32 ==> #[trigger] u32_bit(r, i) == u32_bit(v, (31 - i) as u32),
{
    v.reverse_bits()
}

/// Relies on `u32::swap_bytes`: the byte order is reversed, so bit `i` of
/// the result is the bit at the same offset inside the opposite byte of the
/// input.
#[verifier::external_body]
fn u32_swap_bytes(v: u32) -> (r: u32)
    ensures
        forall|i: u32|
            i < 32 ==> #[trigger] u32_bit(r, i) == u32_bit(
                v,
                (i % 8 + 8 * (3 - i / 8)) as u32,
            ),
{
    v.swap_bytes()
}

/// Reverses the bits inside each byte of `value`, keeping the byte order.
///
/// ESB stores address bytes most-significant-bit first while the hardware
/// transmits least-significant-bit first, so each prefix byte is reversed in
/// place.
pub fn bytewise_bit_swap(value: u32) -> (r: u32)
    ensures
        forall|i: u32|
            i < 32 ==> #[trigger] u32_bit(r, i) == u32_bit(
                value,
                (8 * (i / 8) + 7 - i % 8) as u32,
            ),
{
    let reversed = u32_reverse_bits(value);
    let r = u32_swap_bytes(reversed);
    proof {
        assert forall|i: u32| i < 32 implies #[trigger] u32_bit(r, i) == u32_bit(
            value,
            (8 * (i / 8) + 7 - i % 8) as u32,
        ) by {
            let j = (i % 8 + 8 * (3 - i / 8)) as u32;
            assert(u32_bit(r, i) == u32_bit(reversed, j));
            assert(j < 32);
            assert(u32_bit(reversed, j) == u32_bit(value, (31 - j) as u32));
            assert(31 - j == 8 * (i / 8) + 7 - i % 8);
        }
    }
    r
}

/// Reverses the bit order of a whole 32-bit address word, so that the
/// hardware's least-significant-bit-first transmission produces the
/// most-significant-bit-first on-air sequence that ESB peers expect.
pub fn address_conversion(value: u32) -> (r: u32)
    ensures
        forall|i: u32| i < 32 ==> #[trigger] u32_bit(r, i) == u32_bit(value, (31 - i) as u32),
{
    u32_reverse_bits(value)
}

/// The value of four bytes read as a little-endian 32-bit word.
pub open spec fn spec_u32_le(bytes: Seq<u8>) -> int
    recommends
        bytes.len() == 4,
{
    bytes[0] + 0x100 * bytes[1] + 0x1_0000 * bytes[2] + 0x100_0000 * bytes[3]
}

/// Assembles four bytes into a little-endian 32-bit word.
pub fn u32_from_le_bytes(bytes: &[u8; 4]) -> (r: u32)
    ensures
        r == spec_u32_le(bytes@),
{
    (bytes[0] as u32) + 0x100 * (bytes[1] as u32) + 0x1_0000 * (bytes[2] as u32) + 0x100_0000 * (
    bytes[3] as u32)
}

/// Everything that [`RadioDevice::configure`] programs into the radio: the
/// 2 Mbps mode and packet layout, the converted addresses, the CRC unit and
/// the channel.
#[derive(Debug, Clone, Copy)]
pub struct RadioSettings {
    /// Width in bits of the on-air length field: 6 for payloads up to 32
    /// bytes, 8 otherwise.
    pub length_field_bits: u8,
    /// The maximum payload length the DMA engine accepts.
    pub max_payload: u8,
    /// Bit-reversed base address for pipe 0.
    pub base0: u32,
    /// Bit-reversed base address for pipes 1-7.
    pub base1: u32,
    /// Byte-wise bit-reversed prefixes for pipes 0-3.
    pub prefix0: u32,
    /// Byte-wise bit-reversed prefixes for pipes 4-7.
    pub prefix1: u32,
    /// The radio channel, in `0..=100`.
    pub rf_channel: u8,
    /// CRC initial value.
    pub crc_init: u32,
    /// CRC polynomial.
    pub crc_poly: u32,
    /// Transmission power.
    pub tx_power: TxPower,
}

/// What the protocol core consumes from the radio peripheral.
///
/// The view functions describe the observable state of the device: the
/// `disabled` event latch, the interrupt and short-cut configuration, the
/// address registers, the frame loaded for transmission, and the observables
/// of the most recent reception. An adapter for real silicon maps these
/// operations onto the radio's registers; the reference model in
/// [`crate::sim`] implements them directly.
pub trait RadioDevice: Sized {
    /// The latched state of the `disabled` event.
    spec fn disabled_event(&self) -> bool;

    /// Whether the interrupt on the `disabled` event is enabled.
    spec fn irq_disabled(&self) -> bool;

    /// The state of the disabled-to-rxen short-cut.
    spec fn short_rxen(&self) -> bool;

    /// The state of the disabled-to-txen short-cut.
    spec fn short_txen(&self) -> bool;

    /// The pipe the next transmission is addressed to.
    spec fn tx_address(&self) -> u8;

    /// The bit mask of pipes listened on.
    spec fn rx_addresses(&self) -> u8;

    /// The bytes most recently loaded for transmission: the length and
    /// pid_no_ack bytes followed by the payload.
    spec fn tx_loaded(&self) -> Seq<u8>;

    /// Whether the CRC of the last reception checked out.
    spec fn crc_ok(&self) -> bool;

    /// The pipe whose address matched on the last reception.
    spec fn rx_pipe(&self) -> u8;

    /// The 16-bit CRC of the last received packet.
    spec fn rx_crc(&self) -> u16;

    /// The signal strength sample of the last reception.
    spec fn rssi_sample(&self) -> u8;

    /// The bytes the last reception produced: the length and pid_no_ack
    /// bytes followed by the payload.
    spec fn received(&self) -> Seq<u8>;

    /// The configured maximum payload length.
    spec fn max_payload(&self) -> u8;

    /// Programs mode, packet layout, addresses, CRC unit and channel, and
    /// installs the standard short-cuts; the turnaround short-cuts start
    /// disabled and all interrupts start masked.
    fn configure(&mut self, settings: &RadioSettings)
        ensures
            final(self).max_payload() == settings.max_payload,
            !final(self).short_rxen(),
            !final(self).short_txen(),
            !final(self).irq_disabled(),
            !final(self).disabled_event(),
    ;

    /// Reads the `disabled` event latch.
    fn check_disabled_event(&self) -> (r: bool)
        ensures
            r == self.disabled_event(),
    ;

    /// Clears the `disabled` event latch.
    fn clear_disabled_event(&mut self)
        ensures
            !final(self).disabled_event(),
            final(self).irq_disabled() == old(self).irq_disabled(),
            final(self).short_rxen() == old(self).short_rxen(),
            final(self).short_txen() == old(self).short_txen(),
            final(self).tx_address() == old(self).tx_address(),
            final(self).rx_addresses() == old(self).rx_addresses(),
            final(self).tx_loaded() == old(self).tx_loaded(),
            final(self).crc_ok() == old(self).crc_ok(),
            final(self).rx_pipe() == old(self).rx_pipe(),
            final(self).rx_crc() == old(self).rx_crc(),
            final(self).rssi_sample() == old(self).rssi_sample(),
            final(self).received() == old(self).received(),
            final(self).max_payload() == old(self).max_payload(),
    ;

    /// Enables the interrupt on the `disabled` event, and when `ready` is
    /// set also the one on the `ready` event.
    fn enable_interrupt_disabled(&mut self, ready: bool)
        ensures
            final(self).irq_disabled(),
            final(self).disabled_event() == old(self).disabled_event(),
            final(self).short_rxen() == old(self).short_rxen(),
            final(self).short_txen() == old(self).short_txen(),
            final(self).tx_address() == old(self).tx_address(),
            final(self).rx_addresses() == old(self).rx_addresses(),
            final(self).tx_loaded() == old(self).tx_loaded(),
            final(self).crc_ok() == old(self).crc_ok(),
            final(self).rx_pipe() == old(self).rx_pipe(),
            final(self).rx_crc() == old(self).rx_crc(),
            final(self).rssi_sample() == old(self).rssi_sample(),
            final(self).received() == old(self).received(),
            final(self).max_payload() == old(self).max_payload(),
    ;

    /// Masks the interrupt on the `disabled` event.
    fn disable_interrupt_disabled(&mut self)
        ensures
            !final(self).irq_disabled(),
            final(self).disabled_event() == old(self).disabled_event(),
            final(self).short_rxen() == old(self).short_rxen(),
            final(self).short_txen() == old(self).short_txen(),
            final(self).tx_address() == old(self).tx_address(),
            final(self).rx_addresses() == old(self).rx_addresses(),
            final(self).tx_loaded() == old(self).tx_loaded(),
            final(self).crc_ok() == old(self).crc_ok(),
            final(self).rx_pipe() == old(self).rx_pipe(),
            final(self).rx_crc() == old(self).rx_crc(),
            final(self).rssi_sample() == old(self).rssi_sample(),
            final(self).received() == old(self).received(),
            final(self).max_payload() == old(self).max_payload(),
    ;

    /// Switches the disabled-to-rxen short-cut.
    fn set_short_disabled_rxen(&mut self, enabled: bool)
        ensures
            final(self).short_rxen() == enabled,
            final(self).disabled_event() == old(self).disabled_event(),
            final(self).irq_disabled() == old(self).irq_disabled(),
            final(self).short_txen() == old(self).short_txen(),
            final(self).tx_address() == old(self).tx_address(),
            final(self).rx_addresses() == old(self).rx_addresses(),
            final(self).tx_loaded() == old(self).tx_loaded(),
            final(self).crc_ok() == old(self).crc_ok(),
            final(self).rx_pipe() == old(self).rx_pipe(),
            final(self).rx_crc() == old(self).rx_crc(),
            final(self).rssi_sample() == old(self).rssi_sample(),
            final(self).received() == old(self).received(),
            final(self).max_payload() == old(self).max_payload(),
    ;

    /// Switches the disabled-to-txen short-cut.
    fn set_short_disabled_txen(&mut self, enabled: bool)
        ensures
            final(self).short_txen() == enabled,
            final(self).disabled_event() == old(self).disabled_event(),
            final(self).irq_disabled() == old(self).irq_disabled(),
            final(self).short_rxen() == old(self).short_rxen(),
            final(self).tx_address() == old(self).tx_address(),
            final(self).rx_addresses() == old(self).rx_addresses(),
            final(self).tx_loaded() == old(self).tx_loaded(),
            final(self).crc_ok() == old(self).crc_ok(),
            final(self).rx_pipe() == old(self).rx_pipe(),
            final(self).rx_crc() == old(self).rx_crc(),
            final(self).rssi_sample() == old(self).rssi_sample(),
            final(self).received() == old(self).received(),
            final(self).max_payload() == old(self).max_payload(),
    ;

    /// Programs the pipe for the next transmission.
    fn set_tx_address(&mut self, pipe: u8)
        requires
            pipe <= 7,
        ensures
            final(self).tx_address() == pipe,
            final(self).disabled_event() == old(self).disabled_event(),
            final(self).irq_disabled() == old(self).irq_disabled(),
            final(self).short_rxen() == old(self).short_rxen(),
            final(self).short_txen() == old(self).short_txen(),
            final(self).rx_addresses() == old(self).rx_addresses(),
            final(self).tx_loaded() == old(self).tx_loaded(),
            final(self).crc_ok() == old(self).crc_ok(),
            final(self).rx_pipe() == old(self).rx_pipe(),
            final(self).rx_crc() == old(self).rx_crc(),
            final(self).rssi_sample() == old(self).rssi_sample(),
            final(self).received() == old(self).received(),
            final(self).max_payload() == old(self).max_payload(),
    ;

    /// Programs the bit mask of pipes listened on.
    fn set_rx_addresses(&mut self, mask: u8)
        ensures
            final(self).rx_addresses() == mask,
            final(self).disabled_event() == old(self).disabled_event(),
            final(self).irq_disabled() == old(self).irq_disabled(),
            final(self).short_rxen() == old(self).short_rxen(),
            final(self).short_txen() == old(self).short_txen(),
            final(self).tx_address() == old(self).tx_address(),
            final(self).tx_loaded() == old(self).tx_loaded(),
            final(self).crc_ok() == old(self).crc_ok(),
            final(self).rx_pipe() == old(self).rx_pipe(),
            final(self).rx_crc() == old(self).rx_crc(),
            final(self).rssi_sample() == old(self).rssi_sample(),
            final(self).received() == old(self).received(),
            final(self).max_payload() == old(self).max_payload(),
    ;

    /// Hands a frame to the radio for transmission, starting at its length
    /// byte.
    fn load_transmit(&mut self, frame: &[u8])
        ensures
            final(self).tx_loaded() == frame@,
            final(self).disabled_event() == old(self).disabled_event(),
            final(self).irq_disabled() == old(self).irq_disabled(),
            final(self).short_rxen() == old(self).short_rxen(),
            final(self).short_txen() == old(self).short_txen(),
            final(self).tx_address() == old(self).tx_address(),
            final(self).rx_addresses() == old(self).rx_addresses(),
            final(self).crc_ok() == old(self).crc_ok(),
            final(self).rx_pipe() == old(self).rx_pipe(),
            final(self).rx_crc() == old(self).rx_crc(),
            final(self).rssi_sample() == old(self).rssi_sample(),
            final(self).received() == old(self).received(),
            final(self).max_payload() == old(self).max_payload(),
    ;

    /// Triggers the transmitter enable task.
    fn start_tx(&mut self)
        ensures
            final(self).disabled_event() == old(self).disabled_event(),
            final(self).irq_disabled() == old(self).irq_disabled(),
            final(self).short_rxen() == old(self).short_rxen(),
            final(self).short_txen() == old(self).short_txen(),
            final(self).tx_address() == old(self).tx_address(),
            final(self).rx_addresses() == old(self).rx_addresses(),
            final(self).tx_loaded() == old(self).tx_loaded(),
            final(self).crc_ok() == old(self).crc_ok(),
            final(self).rx_pipe() == old(self).rx_pipe(),
            final(self).rx_crc() == old(self).rx_crc(),
            final(self).rssi_sample() == old(self).rssi_sample(),
            final(self).received() == old(self).received(),
            final(self).max_payload() == old(self).max_payload(),
    ;

    /// Triggers the receiver enable task.
    fn start_rx(&mut self)
        ensures
            final(self).disabled_event() == old(self).disabled_event(),
            final(self).irq_disabled() == old(self).irq_disabled(),
            final(self).short_rxen() == old(self).short_rxen(),
            final(self).short_txen() == old(self).short_txen(),
            final(self).tx_address() == old(self).tx_address(),
            final(self).rx_addresses() == old(self).rx_addresses(),
            final(self).tx_loaded() == old(self).tx_loaded(),
            final(self).crc_ok() == old(self).crc_ok(),
            final(self).rx_pipe() == old(self).rx_pipe(),
            final(self).rx_crc() == old(self).rx_crc(),
            final(self).rssi_sample() == old(self).rssi_sample(),
            final(self).received() == old(self).received(),
            final(self).max_payload() == old(self).max_payload(),
    ;

    /// Requests radio disable, spins until the `disabled` event latches, and
    /// clears it.
    fn disable_and_wait(&mut self)
        ensures
            !final(self).disabled_event(),
            final(self).irq_disabled() == old(self).irq_disabled(),
            final(self).short_rxen() == old(self).short_rxen(),
            final(self).short_txen() == old(self).short_txen(),
            final(self).tx_address() == old(self).tx_address(),
            final(self).rx_addresses() == old(self).rx_addresses(),
            final(self).tx_loaded() == old(self).tx_loaded(),
            final(self).crc_ok() == old(self).crc_ok(),
            final(self).rx_pipe() == old(self).rx_pipe(),
            final(self).rx_crc() == old(self).rx_crc(),
            final(self).rssi_sample() == old(self).rssi_sample(),
            final(self).received() == old(self).received(),
            final(self).max_payload() == old(self).max_payload(),
    ;

    /// Reads the CRC status of the last reception.
    fn read_crc_ok(&self) -> (r: bool)
        ensures
            r == self.crc_ok(),
    ;

    /// Reads which pipe's address matched on the last reception; the match
    /// register is three bits wide.
    fn read_rx_pipe(&self) -> (r: u8)
        ensures
            r == self.rx_pipe(),
            r <= 7,
    ;

    /// Reads the CRC of the last received packet.
    fn read_rx_crc(&self) -> (r: u16)
        ensures
            r == self.rx_crc(),
    ;

    /// Reads the signal strength sample of the last reception.
    fn read_rssi(&self) -> (r: u8)
        ensures
            r == self.rssi_sample(),
    ;

    /// Reads out the bytes the last reception produced. The frame is
    /// well-formed: a length byte within the configured maximum, the
    /// pid_no_ack byte, then exactly `length` payload bytes. An adapter for
    /// real silicon must bound the length byte by the maximum it programmed,
    /// as the DMA engine does.
    fn read_received(&self) -> (r: Vec<u8>)
        ensures
            r@ == self.received(),
            r@.len() >= 2,
            r@.len() == 2 + r@[0],
            r@[0] <= self.max_payload(),
    ;
}

/// The observables of the last reception, and the configured maximum, agree
/// between two device states.
pub open spec fn rx_unchanged<D: RadioDevice>(a: D, b: D) -> bool {
    &&& b.crc_ok() == a.crc_ok()
    &&& b.rx_pipe() == a.rx_pipe()
    &&& b.rx_crc() == a.rx_crc()
    &&& b.rssi_sample() == a.rssi_sample()
    &&& b.received() == a.received()
    &&& b.max_payload() == a.max_payload()
}

/// Every frame in an outgoing queue was committed through a checked grant:
/// it has a full header, its length byte matches the frame, and its pipe is
/// a valid pipe number.
pub open spec fn out_frames_wf(frames: Seq<Seq<u8>>) -> bool {
    forall|i: int|
        0 <= i < frames.len() ==> {
            &&& (#[trigger] frames[i]).len() >= HEADER_SIZE
            &&& frames[i].len() == HEADER_SIZE + frames[i][2]
            &&& frames[i][1] <= 7
        }
}

/// The duplicate detection rule: a reception is repeated exactly when its
/// CRC and packet id both match the last packet committed on its pipe.
pub open spec fn is_repeated(last_crc: Seq<u16>, last_pid: Seq<u8>, pipe: u8, crc: u16, pid: u8) -> bool {
    &&& last_crc[pipe as int] == crc
    &&& last_pid[pipe as int] == pid
}

/// Duplicate suppression: a fresh reception updates the per-pipe state to
/// its own CRC and packet id, so a second reception with the identical
/// pipe, CRC and packet id is classified as repeated — and a repeated
/// reception commits nothing to the incoming queue while a requested
/// acknowledgement is still answered (see the contracts of
/// [`EsbRadio::check_packet`]
/// and [`crate::irq::EsbIrq::radio_interrupt`]).
pub proof fn lemma_duplicate_suppression(
    last_crc: Seq<u16>,
    last_pid: Seq<u8>,
    pipe: u8,
    crc: u16,
    pid: u8,
)
    requires
        pipe < 8,
        last_crc.len() == 8,
        last_pid.len() == 8,
    ensures
        is_repeated(
            last_crc.update(pipe as int, crc),
            last_pid.update(pipe as int, pid),
            pipe,
            crc,
            pid,
        ),
{
}

/// Every frame in an incoming queue was committed by the radio: it has a
/// full header and its length byte matches the frame.
pub open spec fn in_frames_wf(frames: Seq<Seq<u8>>) -> bool {
    forall|i: int|
        0 <= i < frames.len() ==> {
            &&& (#[trigger] frames[i]).len() >= HEADER_SIZE
            &&& frames[i].len() == HEADER_SIZE + frames[i][2]
        }
}

/// Classification of a reception by the radio wrapper.
#[derive(Debug, Clone, Copy, PartialEq, Eq, Structural)]
pub enum RxPayloadState {
    /// A fresh packet that requests an acknowledgement.
    Ack,
    /// A fresh packet that requests no acknowledgement.
    NoAck,
    /// A duplicate of the last packet on its pipe, acknowledgement
    /// requested.
    RepeatedAck,
    /// A duplicate of the last packet on its pipe, no acknowledgement.
    RepeatedNoAck,
    /// The reception failed its CRC check.
    BadCRC,
}

/// Marker restricting which types may implement [`EsbTimer`].
pub trait Sealed {}

/// Contract for the timer peripheral used for acknowledgement and
/// retransmission timeouts: a one-megahertz timer with two compare
/// channels, the first used for the retransmit delay and the second for the
/// acknowledgement timeout.
pub trait EsbTimer: Sealed {
    /// Initializes the timer with a 1 MHz rate.
    fn init(&mut self);

    /// Configures the retransmit interrupt to fire after the given number of
    /// microseconds, clearing and starting the counter.
    fn set_interrupt_retransmit(&mut self, micros: u16);

    /// Acknowledges the retransmit interrupt and stops the timer.
    fn clear_interrupt_retransmit();

    /// Whether the retransmit interrupt is currently pending.
    fn is_retransmit_pending() -> bool;

    /// Configures the acknowledgement timeout interrupt to fire after the
    /// given number of microseconds from now.
    fn set_interrupt_ack(&mut self, micros: u16);

    /// Acknowledges the acknowledgement timeout interrupt.
    fn clear_interrupt_ack();

    /// Whether the acknowledgement timeout interrupt is currently pending.
    fn is_ack_pending() -> bool;

    /// Stops the timer.
    fn stop();
}

/// The radio wrapper: it owns the in-flight queue grants, the per-pipe
/// duplicate suppression state, and translates protocol intent into
/// operations on a [`RadioDevice`].
pub struct EsbRadio {
    /// The outgoing frame handed to the radio, retained for the duration of
    /// the transmission (and, on the receiver side, of a possible
    /// retransmission).
    pub tx_grant: Option<PayloadR>,
    /// The incoming write grant the next reception is written into.
    pub rx_grant: Option<PayloadW>,
    /// The CRC of the last committed packet, per pipe.
    pub last_crc: Vec<u16>,
    /// The packet id of the last committed packet, per pipe.
    pub last_pid: Vec<u8>,
    /// The pipe of the last acknowledgement payload handed to the radio.
    pub cached_pipe: u8,
}

impl EsbRadio {
    /// The duplicate detection arrays cover every pipe, and any retained
    /// grant is a well-formed frame.
    pub open spec fn wf(&self) -> bool {
        &&& self.last_crc@.len() == NUM_PIPES
        &&& self.last_pid@.len() == NUM_PIPES
        &&& self.cached_pipe <= 7
        &&& (self.tx_grant is Some ==> {
            let g = self.tx_grant->Some_0@;
            &&& g.len() >= HEADER_SIZE
            &&& g.len() == HEADER_SIZE + g[2]
            &&& g[1] <= 7
        })
        &&& (self.rx_grant is Some ==> self.rx_grant->Some_0.wf())
    }

    /// Creates a radio wrapper with no retained grants and cleared
    /// duplicate detection state.
    pub fn new() -> (r: Self)
        ensures
            r.wf(),
            r.tx_grant is None,
            r.rx_grant is None,
            r.last_crc@ =~= Seq::new(NUM_PIPES as nat, |i: int| 0u16),
            r.last_pid@ =~= Seq::new(NUM_PIPES as nat, |i: int| 0u8),
            r.cached_pipe == 0,
    {
        EsbRadio {
            tx_grant: None,
            rx_grant: None,
            last_crc: vec![0u16; NUM_PIPES],
            last_pid: vec![0u8; NUM_PIPES],
            cached_pipe: 0,
        }
    }

    /// Initializes the radio: 2 Mbps mode, a 6-bit length field when the
    /// maximum payload allows interoperation with nRF24L01+ devices,
    /// bit-converted addresses, the ESB CRC unit and the channel.
    pub fn init<D: RadioDevice>(
        &mut self,
        device: &mut D,
        max_payload: u8,
        tx_power: TxPower,
        addresses: &Addresses,
    )
        requires
            old(self).wf(),
            addresses.wf(),
            max_payload <= 252,
        ensures
            *final(self) == *old(self),
            final(self).wf(),
            final(device).max_payload() == max_payload,
            !final(device).short_rxen(),
            !final(device).short_txen(),
            !final(device).irq_disabled(),
            !final(device).disabled_event(),
    {
        let length_field_bits: u8 = if max_payload <= 32 {
            6
        } else {
            8
        };
        // Convert the addresses to remain compatible with nRF24L devices.
        let base0 = address_conversion(u32_from_le_bytes(&addresses.base0));
        let base1 = address_conversion(u32_from_le_bytes(&addresses.base1));
        let prefix0 = bytewise_bit_swap(u32_from_le_bytes(&addresses.prefixes0));
        let prefix1 = bytewise_bit_swap(u32_from_le_bytes(&addresses.prefixes1));
        let settings = RadioSettings {
            length_field_bits,
            max_payload,
            base0,
            base1,
            prefix0,
            prefix1,
            rf_channel: addresses.rf_channel,
            crc_init: CRC_INIT & 0x00FF_FFFF,
            crc_poly: CRC_POLY & 0x00FF_FFFF,
            tx_power,
        };
        device.configure(&settings);
    }

    /// Disables the radio and drops both retained grants: the read grant is
    /// dropped without release, so its frame stays available for a retry,
    /// and the write grant's reservation is freed without committing a
    /// frame.
    pub fn stop<D: RadioDevice>(&mut self, device: &mut D, incoming: &mut FramedQueue)
        requires
            old(self).wf(),
            old(incoming).wf(),
            old(self).rx_grant is Some ==> old(incoming).write_in_progress(),
        ensures
            final(self).wf(),
            *final(self) == (EsbRadio {
                tx_grant: None,
                rx_grant: None,
                ..*old(self)
            }),
            final(incoming).wf(),
            final(incoming)@ == old(incoming)@,
            final(incoming).spec_capacity() == old(incoming).spec_capacity(),
            final(incoming).write_in_progress() == (old(self).rx_grant is None && old(
                incoming,
            ).write_in_progress()),
            !final(device).short_rxen(),
            !final(device).short_txen(),
            !final(device).irq_disabled(),
            !final(device).disabled_event(),
            final(device).tx_address() == old(device).tx_address(),
            final(device).rx_addresses() == old(device).rx_addresses(),
            final(device).tx_loaded() == old(device).tx_loaded(),
            rx_unchanged(*old(device), *final(device)),
    {
        device.set_short_disabled_rxen(false);
        device.set_short_disabled_txen(false);
        device.disable_interrupt_disabled();
        device.disable_and_wait();
        self.tx_grant = None;
        let rx = self.rx_grant.take();
        match rx {
            Some(grant) => grant.abandon(incoming),
            None => (),
        }
    }

    /// Hands an outgoing frame to the radio and starts the transmission.
    ///
    /// With an acknowledgement requested, the radio is set up to turn
    /// around to the receiver after the transmission; the grant is retained
    /// until the transmission completes.
    pub fn transmit<D: RadioDevice>(&mut self, device: &mut D, payload: PayloadR, ack: bool)
        requires
            old(self).wf(),
            payload@.len() >= HEADER_SIZE,
            payload@.len() == HEADER_SIZE + payload@[2],
            payload@[1] <= 7,
        ensures
            final(self).wf(),
            *final(self) == (EsbRadio { tx_grant: Some(payload), ..*old(self) }),
            final(device).tx_loaded() == payload@.skip(2),
            final(device).tx_address() == payload@[1],
            final(device).rx_addresses() == (1u8 << payload@[1]),
            final(device).short_rxen() == (ack || old(device).short_rxen()),
            final(device).short_txen() == old(device).short_txen(),
            final(device).irq_disabled(),
            !final(device).disabled_event(),
            rx_unchanged(*old(device), *final(device)),
    {
        if ack {
            // Go to RX mode after the transmission, and learn both when the
            // transmission finished and when the radio started listening.
            device.set_short_disabled_rxen(true);
            device.enable_interrupt_disabled(true);
        } else {
            device.enable_interrupt_disabled(false);
        }
        device.set_tx_address(payload.pipe());
        device.set_rx_addresses(1u8 << payload.pipe());
        device.load_transmit(payload.dma_slice());
        device.clear_disabled_event();
        device.start_tx();
        self.tx_grant = Some(payload);
    }

    /// Must be called after the end of a transmission that requested no
    /// acknowledgement: releases the transmitted frame from its queue.
    pub fn finish_tx_no_ack<D: RadioDevice>(&mut self, device: &mut D, outgoing: &mut FramedQueue)
        requires
            old(self).wf(),
            old(outgoing).wf(),
            old(self).tx_grant is Some,
            old(outgoing)@.len() > 0,
            old(outgoing)@[0] == old(self).tx_grant->Some_0@,
        ensures
            final(self).wf(),
            *final(self) == (EsbRadio { tx_grant: None, ..*old(self) }),
            final(outgoing).wf(),
            final(outgoing)@ == old(outgoing)@.drop_first(),
            final(outgoing).write_in_progress() == old(outgoing).write_in_progress(),
            final(outgoing).reserved() == old(outgoing).reserved(),
            final(outgoing).spec_capacity() == old(outgoing).spec_capacity(),
            !final(device).irq_disabled(),
            final(device).disabled_event() == old(device).disabled_event(),
            final(device).short_rxen() == old(device).short_rxen(),
            final(device).short_txen() == old(device).short_txen(),
            final(device).tx_address() == old(device).tx_address(),
            final(device).rx_addresses() == old(device).rx_addresses(),
            final(device).tx_loaded() == old(device).tx_loaded(),
            rx_unchanged(*old(device), *final(device)),
    {
        let grant = self.tx_grant.take();
        match grant {
            Some(grant) => grant.release(outgoing),
            None => (),
        }
        // The interrupt is enabled again by the next transmit.
        device.disable_interrupt_disabled();
    }

    /// Must be called after the end of a transmission that requested an
    /// acknowledgement: retains the write grant the acknowledgement will be
    /// received into. The frame is not released yet, a retransmission may
    /// still need it.
    pub fn prepare_for_ack<D: RadioDevice>(&mut self, device: &mut D, rx_buf: PayloadW)
        requires
            old(self).wf(),
            rx_buf.wf(),
        ensures
            final(self).wf(),
            *final(self) == (EsbRadio { rx_grant: Some(rx_buf), ..*old(self) }),
            !final(device).short_rxen(),
            final(device).disabled_event() == old(device).disabled_event(),
            final(device).irq_disabled() == old(device).irq_disabled(),
            final(device).short_txen() == old(device).short_txen(),
            final(device).tx_address() == old(device).tx_address(),
            final(device).rx_addresses() == old(device).rx_addresses(),
            final(device).tx_loaded() == old(device).tx_loaded(),
            rx_unchanged(*old(device), *final(device)),
    {
        self.rx_grant = Some(rx_buf);
        // The disabled-to-rxen short-cut already fired.
        device.set_short_disabled_rxen(false);
    }

    /// Must be called after the end of a transmission that requested an
    /// acknowledgement: checks the received acknowledgement.
    ///
    /// On a good CRC the transmitted frame is released from the outgoing
    /// queue and the acknowledgement, stamped with its signal strength and
    /// pipe, is committed to the incoming queue; the call returns
    /// `Ok(true)`. On a CRC failure both retained grants are dropped so the
    /// retransmission can obtain fresh ones, and the call returns
    /// `Ok(false)`.
    pub fn check_ack<D: RadioDevice>(
        &mut self,
        device: &D,
        outgoing: &mut FramedQueue,
        incoming: &mut FramedQueue,
    ) -> (r: Result<bool, Error>)
        requires
            old(self).wf(),
            old(outgoing).wf(),
            old(incoming).wf(),
            old(self).tx_grant is Some,
            old(self).rx_grant is Some,
            old(outgoing)@.len() > 0,
            old(outgoing)@[0] == old(self).tx_grant->Some_0@,
            old(incoming).write_in_progress(),
            old(incoming).reserved() == old(self).rx_grant->Some_0@.len(),
            old(self).rx_grant->Some_0@.len() == HEADER_SIZE + device.max_payload(),
        ensures
            final(self).wf(),
            r == Ok::<bool, Error>(device.crc_ok()),
            *final(self) == (EsbRadio { tx_grant: None, rx_grant: None, ..*old(self) }),
            final(outgoing).wf(),
            final(incoming).wf(),
            final(outgoing).write_in_progress() == old(outgoing).write_in_progress(),
            final(outgoing).reserved() == old(outgoing).reserved(),
            final(outgoing).spec_capacity() == old(outgoing).spec_capacity(),
            final(incoming).spec_capacity() == old(incoming).spec_capacity(),
            !final(incoming).write_in_progress(),
            device.crc_ok() ==> {
                &&& final(outgoing)@ == old(outgoing)@.drop_first()
                &&& final(incoming)@ == old(incoming)@.push(
                    seq![device.rssi_sample(), old(outgoing)@[0][1]] + device.received(),
                )
                &&& device.received().len() >= 2
                &&& device.received().len() == 2 + device.received()[0]
            },
            !device.crc_ok() ==> {
                &&& final(outgoing)@ == old(outgoing)@
                &&& final(incoming)@ == old(incoming)@
            },
    {
        let ret = device.read_crc_ok();
        if ret {
            let tx = match self.tx_grant.take() {
                Some(grant) => grant,
                None => { return Err(Error::InternalError) },
            };
            let mut rx = match self.rx_grant.take() {
                Some(grant) => grant,
                None => { return Err(Error::InternalError) },
            };
            let pipe = tx.pipe();
            tx.release(outgoing);
            let received = device.read_received();
            rx.fill_dma_part(&received);
            let rssi = device.read_rssi();
            rx.set_pipe(pipe);
            rx.set_rssi(rssi);
            proof {
                assert(rx@[2] == received@[0]);
                assert(rx@.take(HEADER_SIZE + rx@[2]) =~= seq![rssi, pipe] + received@);
            }
            rx.commit_all(incoming);
            Ok(true)
        } else {
            // Drop both grants so the upper layer can pass fresh ones to the
            // next transmit and prepare_for_ack.
            self.tx_grant = None;
            let rx = self.rx_grant.take();
            match rx {
                Some(grant) => grant.abandon(incoming),
                None => (),
            }
            Ok(false)
        }
    }

    /// Starts listening for packets on the enabled pipes, retaining the
    /// write grant the next reception is written into. The radio is set up
    /// to turn around to the transmitter after a reception, so that an
    /// acknowledgement can follow immediately.
    pub fn start_receiving<D: RadioDevice>(
        &mut self,
        device: &mut D,
        rx_buf: PayloadW,
        enabled_pipes: u8,
    )
        requires
            old(self).wf(),
            rx_buf.wf(),
        ensures
            final(self).wf(),
            *final(self) == (EsbRadio { rx_grant: Some(rx_buf), ..*old(self) }),
            final(device).short_txen(),
            final(device).short_rxen() == old(device).short_rxen(),
            final(device).irq_disabled(),
            !final(device).disabled_event(),
            final(device).rx_addresses() == enabled_pipes,
            final(device).tx_address() == old(device).tx_address(),
            final(device).tx_loaded() == old(device).tx_loaded(),
            rx_unchanged(*old(device), *final(device)),
    {
        // Turn around to TX after receiving a packet, it might need an
        // acknowledgement.
        device.set_short_disabled_txen(true);
        device.enable_interrupt_disabled(false);
        device.set_rx_addresses(enabled_pipes);
        device.clear_disabled_event();
        device.start_rx();
        self.rx_grant = Some(rx_buf);
    }

    /// Checks a received packet and prepares the acknowledgement.
    ///
    /// A reception with a failed CRC restarts the receiver and leaves
    /// everything else untouched. Otherwise the packet counts as repeated
    /// when its pipe, CRC and packet id all match the last packet committed
    /// on that pipe; a repeated packet is not committed again, but a
    /// requested acknowledgement is still sent, re-using the previous
    /// acknowledgement payload when its pipe still matches. A fresh packet
    /// updates the duplicate detection state and is stamped and committed to
    /// the incoming queue; a requested acknowledgement is loaded from the
    /// outgoing queue, or falls back to an empty acknowledgement when no
    /// payload is waiting.
    pub fn check_packet<D: RadioDevice>(
        &mut self,
        device: &mut D,
        outgoing: &mut FramedQueue,
        incoming: &mut FramedQueue,
    ) -> (r: Result<RxPayloadState, Error>)
        requires
            old(self).wf(),
            old(outgoing).wf(),
            old(incoming).wf(),
            out_frames_wf(old(outgoing)@),
            old(self).rx_grant is Some,
            old(incoming).write_in_progress(),
            old(incoming).reserved() == old(self).rx_grant->Some_0@.len(),
            old(self).rx_grant->Some_0@.len() == HEADER_SIZE + old(device).max_payload(),
            old(self).tx_grant is Some ==> old(outgoing)@.len() > 0 && old(outgoing)@[0] == old(
                self,
            ).tx_grant->Some_0@,
        ensures
            final(self).wf(),
            final(outgoing).wf(),
            final(incoming).wf(),
            out_frames_wf(final(outgoing)@),
            final(outgoing).write_in_progress() == old(outgoing).write_in_progress(),
            final(outgoing).reserved() == old(outgoing).reserved(),
            final(outgoing).spec_capacity() == old(outgoing).spec_capacity(),
            final(incoming).spec_capacity() == old(incoming).spec_capacity(),
            rx_unchanged(*old(device), *final(device)),
            ({
                let crcok = old(device).crc_ok();
                let pipe = old(device).rx_pipe();
                let crc = old(device).rx_crc();
                let rec = old(device).received();
                let pid = rec[1] >> 1;
                let ack = (rec[1] & 1) == 1;
                let repeated = is_repeated(old(self).last_crc@, old(self).last_pid@, pipe, crc, pid);
                &&& r == Ok::<RxPayloadState, Error>(
                    if !crcok {
                        RxPayloadState::BadCRC
                    } else if repeated && ack {
                        RxPayloadState::RepeatedAck
                    } else if repeated {
                        RxPayloadState::RepeatedNoAck
                    } else if ack {
                        RxPayloadState::Ack
                    } else {
                        RxPayloadState::NoAck
                    },
                )
                &&& !crcok ==> {
                    &&& *final(self) == *old(self)
                    &&& final(outgoing)@ == old(outgoing)@
                    &&& *final(incoming) == *old(incoming)
                    &&& final(device).short_txen()
                    &&& !final(device).short_rxen()
                    &&& final(device).irq_disabled()
                    &&& final(device).tx_loaded() == old(device).tx_loaded()
                    &&& final(device).tx_address() == old(device).tx_address()
                }
                &&& crcok ==> {
                    &&& rec.len() >= 2
                    &&& rec.len() == 2 + rec[0]
                    &&& final(self).last_crc@ == if repeated {
                        old(self).last_crc@
                    } else {
                        old(self).last_crc@.update(pipe as int, crc)
                    }
                    &&& final(self).last_pid@ == if repeated {
                        old(self).last_pid@
                    } else {
                        old(self).last_pid@.update(pipe as int, pid)
                    }
                    &&& final(self).cached_pipe == if repeated {
                        old(self).cached_pipe
                    } else {
                        pipe
                    }
                    &&& if repeated {
                        &&& *final(incoming) == *old(incoming)
                        &&& final(self).rx_grant == old(self).rx_grant
                    } else {
                        &&& final(incoming)@ == old(incoming)@.push(
                            seq![old(device).rssi_sample(), pipe] + rec,
                        )
                        &&& !final(incoming).write_in_progress()
                        &&& final(self).rx_grant is None
                    }
                    &&& ack ==> {
                        &&& final(device).tx_address() == pipe
                        &&& !final(device).short_txen()
                        &&& final(device).short_rxen()
                        &&& final(device).irq_disabled() == old(device).irq_disabled()
                        &&& if repeated {
                            &&& final(outgoing)@ == old(outgoing)@
                            &&& final(self).tx_grant == old(self).tx_grant
                            &&& final(device).tx_loaded() == if pipe == old(self).cached_pipe
                                && old(self).tx_grant is Some {
                                old(self).tx_grant->Some_0@.skip(2)
                            } else {
                                seq![0u8, 0u8]
                            }
                        } else {
                            let after = if old(self).tx_grant is Some {
                                old(outgoing)@.drop_first()
                            } else {
                                old(outgoing)@
                            };
                            &&& final(outgoing)@ == after
                            &&& if after.len() > 0 {
                                &&& final(self).tx_grant is Some
                                &&& final(self).tx_grant->Some_0@ == after[0]
                                &&& final(device).tx_loaded() == after[0].skip(2)
                            } else {
                                &&& final(self).tx_grant is None
                                &&& final(device).tx_loaded() == seq![0u8, 0u8]
                            }
                        }
                    }
                    &&& !ack ==> {
                        &&& final(self).tx_grant is None
                        &&& final(outgoing)@ == old(outgoing)@
                        &&& final(device).tx_loaded() == old(device).tx_loaded()
                        &&& !final(device).short_txen()
                        &&& !final(device).short_rxen()
                        &&& !final(device).irq_disabled()
                    }
                }
            }),
    {
        if !device.read_crc_ok() {
            // Bad CRC: disable the radio, then restart the receiver; the
            // retained receive grant is reused.
            device.set_short_disabled_rxen(false);
            device.set_short_disabled_txen(false);
            device.disable_interrupt_disabled();
            device.disable_and_wait();
            device.set_short_disabled_txen(true);
            device.enable_interrupt_disabled(false);
            device.start_rx();
            return Ok(RxPayloadState::BadCRC);
        }
        let pipe = device.read_rx_pipe();
        let crc = device.read_rx_crc();
        let received = device.read_received();
        let pid = received[1] >> 1;
        let ack = received[1] & 1 == 1;
        let repeated = self.last_crc[pipe as usize] == crc && self.last_pid[pipe as usize] == pid;

        if ack {
            // The radio is already turning around to TX; select the
            // acknowledgement payload before the ramp-up completes.
            device.set_tx_address(pipe);
            if repeated {
                let mut loaded = false;
                if pipe == self.cached_pipe {
                    match &self.tx_grant {
                        Some(grant) => {
                            // The peer missed our acknowledgement: send the
                            // very same bytes again.
                            device.load_transmit(grant.dma_slice());
                            loaded = true;
                        },
                        None => (),
                    }
                }
                if !loaded {
                    let fallback = vec![0u8, 0u8];
                    device.load_transmit(fallback.as_slice());
                }
            } else {
                // Our last acknowledgement payload was received: release it
                // and ask for a new one, falling back to an empty
                // acknowledgement when the queue is empty.
                let tx = self.tx_grant.take();
                match tx {
                    Some(grant) => grant.release(outgoing),
                    None => (),
                }
                match outgoing.read_next() {
                    Some(frame) => {
                        let payload = PayloadR::new(frame);
                        device.load_transmit(payload.dma_slice());
                        self.tx_grant = Some(payload);
                    },
                    None => {
                        let fallback = vec![0u8, 0u8];
                        device.load_transmit(fallback.as_slice());
                    },
                }
            }
            // The disabled-to-txen short-cut was already taken; turn around
            // back to RX after the acknowledgement goes out.
            device.set_short_disabled_txen(false);
            device.set_short_disabled_rxen(true);
        } else {
            // No acknowledgement requested: stop the radio before the
            // turnaround transmission would begin.
            device.set_short_disabled_rxen(false);
            device.set_short_disabled_txen(false);
            device.disable_interrupt_disabled();
            device.disable_and_wait();
            self.tx_grant = None;
        }

        if repeated {
            if ack {
                return Ok(RxPayloadState::RepeatedAck);
            } else {
                return Ok(RxPayloadState::RepeatedNoAck);
            }
        }
        self.last_crc[pipe as usize] = crc;
        self.last_pid[pipe as usize] = pid;
        self.cached_pipe = pipe;

        let rx = self.rx_grant.take();
        let mut grant = match rx {
            Some(grant) => grant,
            None => { return Err(Error::InternalError) },
        };
        grant.fill_dma_part(&received);
        let rssi = device.read_rssi();
        grant.set_rssi(rssi);
        grant.set_pipe(pipe);
        proof {
            assert(grant@[2] == received@[0]);
            assert(grant@.take(HEADER_SIZE + grant@[2]) =~= seq![rssi, pipe] + received@);
        }
        grant.commit_all(incoming);
        if ack {
            Ok(RxPayloadState::Ack)
        } else {
            Ok(RxPayloadState::NoAck)
        }
    }

    /// Must be called after the acknowledgement transmission completes.
    /// `rx_buf` carries the write grant for the next reception, or `None`
    /// when the previous reception was repeated and the current grant is
    /// kept. The acknowledgement payload is intentionally not released: a
    /// retransmission may still need it.
    pub fn complete_rx_ack<D: RadioDevice>(
        &mut self,
        device: &mut D,
        rx_buf: Option<PayloadW>,
    ) -> (r: Result<(), Error>)
        requires
            old(self).wf(),
            rx_buf is Some ==> rx_buf->Some_0.wf(),
            rx_buf is None ==> old(self).rx_grant is Some,
        ensures
            final(self).wf(),
            r == Ok::<(), Error>(()),
            *final(self) == (EsbRadio {
                rx_grant: if rx_buf is Some {
                    rx_buf
                } else {
                    old(self).rx_grant
                },
                ..*old(self)
            }),
            !final(device).short_rxen(),
            final(device).short_txen(),
            final(device).disabled_event() == old(device).disabled_event(),
            final(device).irq_disabled() == old(device).irq_disabled(),
            final(device).tx_address() == old(device).tx_address(),
            final(device).rx_addresses() == old(device).rx_addresses(),
            final(device).tx_loaded() == old(device).tx_loaded(),
            rx_unchanged(*old(device), *final(device)),
    {
        match rx_buf {
            Some(grant) => {
                self.rx_grant = Some(grant);
            },
            None => {
                if self.rx_grant.is_none() {
                    return Err(Error::InternalError);
                }
            },
        }
        // The disabled-to-rxen short-cut was already taken; turn around to
        // TX after the next reception.
        device.set_short_disabled_rxen(false);
        device.set_short_disabled_txen(true);
        Ok(())
    }

    /// Must be called after a reception that requested no acknowledgement:
    /// restarts the receiver. `rx_buf` carries the write grant for the next
    /// reception, or `None` when the reception was repeated and the current
    /// grant is kept.
    pub fn complete_rx_no_ack<D: RadioDevice>(&mut self, device: &mut D, rx_buf: Option<PayloadW>)
        requires
            old(self).wf(),
            rx_buf is Some ==> rx_buf->Some_0.wf(),
        ensures
            final(self).wf(),
            *final(self) == (EsbRadio {
                rx_grant: if rx_buf is Some {
                    rx_buf
                } else {
                    old(self).rx_grant
                },
                ..*old(self)
            }),
            final(device).short_txen(),
            final(device).irq_disabled(),
            final(device).short_rxen() == old(device).short_rxen(),
            final(device).disabled_event() == old(device).disabled_event(),
            final(device).tx_address() == old(device).tx_address(),
            final(device).rx_addresses() == old(device).rx_addresses(),
            final(device).tx_loaded() == old(device).tx_loaded(),
            rx_unchanged(*old(device), *final(device)),
    {
        match rx_buf {
            Some(grant) => {
                self.rx_grant = Some(grant);
            },
            None => (),
        }
        device.set_short_disabled_txen(true);
        device.enable_interrupt_disabled(false);
        device.start_rx();
    }
}

} // verus!
