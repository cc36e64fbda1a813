//! A driver core for Nordic's Enhanced ShockBurst (ESB) wireless protocol.
//!
//! ESB is a half-duplex, pipe-addressed 2.4 GHz packet protocol with dynamic
//! payloads up to 252 bytes, selective acknowledgement and automatic
//! retransmission. Two roles exist: the Primary Transmitter (PTX) starts every
//! transaction, the Primary Receiver (PRX) listens and answers with
//! acknowledgements that may carry a payload.
//!
//! The crate verifies the protocol core: the in-queue packet framing, the
//! framed single-producer/single-consumer queues that carry packets between
//! the application and the radio interrupt, and the interrupt-driven protocol
//! state machine with its duplicate suppression and retransmission rules.
//! The radio and timer peripherals themselves are reached through the
//! abstract interfaces in [`peripherals`]; a register-level adapter for real
//! silicon belongs outside the verified core.

use vstd::prelude::*;

pub mod app;
pub mod buffer;
pub mod irq;
pub mod payload;
pub mod peripherals;
pub mod queue;
pub mod sim;

pub use crate::app::Addresses;
pub use crate::app::EsbApp;
pub use crate::buffer::EsbBuffer;
pub use crate::irq::EsbIrq;
pub use crate::irq::IrqTimer;
pub use crate::payload::EsbHeader;
pub use crate::payload::EsbHeaderBuilder;

verus! {

pub const RX_WAIT_FOR_ACK_TIMEOUT_US_2MBPS: u16 = 120;

pub const RETRANSMIT_DELAY_US_OFFSET: u16 = 62;

pub const RETRANSMIT_DELAY: u16 = 500;

pub const MAXIMUM_TRANSMIT_ATTEMPTS: u8 = 3;

pub const ENABLED_PIPES: u8 = 0xFF;

/// Hardware delay, in microseconds, between the radio enable task and actual
/// radio activity.
pub const RAMP_UP_TIME: u16 = 140;

/// Crate-wide error type.
#[derive(Debug, Clone, Copy, PartialEq, Eq, Structural)]
pub enum Error {
    /// Unable to add an item to the incoming queue, the queue is full. After
    /// issuing this error the driver returns to its idle state.
    IncomingQueueFull,
    /// Unable to add an item to the outgoing queue, the queue is full.
    OutgoingQueueFull,
    /// A grant is already in progress on this queue.
    GrantInProgress,
    /// Unable to pop an item from the queue, the queue is empty.
    QueueEmpty,
    /// The buffer has already been split into its handles.
    AlreadySplit,
    /// Values out of range.
    InvalidParameters,
    /// The requested packet was larger than the configured maximum payload.
    MaximumPacketExceeded,
    /// Internal error; a caller cannot cause this, please report it as a bug.
    InternalError,
    /// The driver reached the maximum number of attempts to send a packet
    /// that requested an acknowledgement; the packet is dropped and the
    /// driver proceeds with the next one.
    MaximumAttempts,
}

/// Transmission power selection.
#[derive(Debug, Clone, Copy, PartialEq, Eq, Structural)]
pub enum TxPower {
    Neg40Dbm,
    Neg20Dbm,
    Neg16Dbm,
    Neg12Dbm,
    Neg8Dbm,
    Neg4Dbm,
    ZeroDbm,
    Pos2Dbm,
    Pos3Dbm,
    Pos4Dbm,
    Pos8Dbm,
}

impl Default for TxPower {
    fn default() -> (r: Self)
        ensures
            r == TxPower::ZeroDbm,
    {
        TxPower::ZeroDbm
    }
}

/// Protocol configuration.
///
/// A configuration obtained from [`ConfigBuilder::check`] always satisfies
/// [`Config::valid`]; the driver entry points expect a valid configuration.
#[derive(Debug, Clone, Copy)]
pub struct Config {
    /// Number of microseconds to wait for an acknowledgement before timing
    /// out.
    pub wait_for_ack_timeout: u16,
    /// Delay, in microseconds, between retransmissions when the radio does
    /// not receive an acknowledgement.
    pub retransmit_delay: u16,
    /// Maximum number of transmit attempts when an acknowledgement is not
    /// received.
    pub maximum_transmit_attempts: u8,
    /// Bit mask of the pipes that the radio listens on while receiving; the
    /// least significant bit is pipe zero.
    pub enabled_pipes: u8,
    /// Transmission power.
    pub tx_power: TxPower,
    /// Maximum payload size, in bytes, that the driver sends or receives.
    pub maximum_payload_size: u8,
}

impl Config {
    /// The ranges that [`ConfigBuilder::check`] enforces: the ack timeout is
    /// at least 44 us and leaves room for the ramp-up time, the retransmit
    /// delay exceeds both the ack timeout plus its fixed offset and the
    /// ramp-up time, and the payload limit fits the protocol maximum.
    pub open spec fn valid(&self) -> bool {
        &&& self.wait_for_ack_timeout >= 44
        &&& self.wait_for_ack_timeout + RAMP_UP_TIME <= u16::MAX
        &&& self.retransmit_delay > self.wait_for_ack_timeout + RETRANSMIT_DELAY_US_OFFSET
        &&& self.retransmit_delay > RAMP_UP_TIME
        &&& self.maximum_payload_size <= 252
    }
}

impl Default for Config {
    fn default() -> (r: Self)
        ensures
            r.wait_for_ack_timeout == RX_WAIT_FOR_ACK_TIMEOUT_US_2MBPS,
            r.retransmit_delay == RETRANSMIT_DELAY,
            r.maximum_transmit_attempts == MAXIMUM_TRANSMIT_ATTEMPTS,
            r.enabled_pipes == ENABLED_PIPES,
            r.tx_power == TxPower::ZeroDbm,
            r.maximum_payload_size == 252,
            r.valid(),
    {
        Config {
            wait_for_ack_timeout: RX_WAIT_FOR_ACK_TIMEOUT_US_2MBPS,
            retransmit_delay: RETRANSMIT_DELAY,
            maximum_transmit_attempts: MAXIMUM_TRANSMIT_ATTEMPTS,
            enabled_pipes: ENABLED_PIPES,
            tx_power: TxPower::ZeroDbm,
            maximum_payload_size: 252,
        }
    }
}

/// A builder for a [`Config`] structure.
///
/// The builder is converted into a [`Config`] by calling the
/// [`check`](ConfigBuilder::check) method.
pub struct ConfigBuilder(pub Config);

impl Default for ConfigBuilder {
    fn default() -> (r: Self)
        ensures
            r.0.wait_for_ack_timeout == RX_WAIT_FOR_ACK_TIMEOUT_US_2MBPS,
            r.0.retransmit_delay == RETRANSMIT_DELAY,
            r.0.maximum_transmit_attempts == MAXIMUM_TRANSMIT_ATTEMPTS,
            r.0.enabled_pipes == ENABLED_PIPES,
            r.0.tx_power == TxPower::ZeroDbm,
            r.0.maximum_payload_size == 252,
    {
        ConfigBuilder(Config::default())
    }
}

impl ConfigBuilder {
    /// Sets the number of microseconds to wait for an acknowledgement before
    /// timing out.
    pub fn wait_for_ack_timeout(self, micros: u16) -> (r: Self)
        ensures
            r.0 == (Config { wait_for_ack_timeout: micros, ..self.0 }),
    {
        let mut config = self.0;
        config.wait_for_ack_timeout = micros;
        ConfigBuilder(config)
    }

    /// Sets the retransmit delay; it must exceed the `wait_for_ack_timeout`
    /// field plus 62 and also exceed the ramp-up time.
    pub fn retransmit_delay(self, micros: u16) -> (r: Self)
        ensures
            r.0 == (Config { retransmit_delay: micros, ..self.0 }),
    {
        let mut config = self.0;
        config.retransmit_delay = micros;
        ConfigBuilder(config)
    }

    /// Sets the maximum number of transmit attempts.
    pub fn maximum_transmit_attempts(self, n: u8) -> (r: Self)
        ensures
            r.0 == (Config { maximum_transmit_attempts: n, ..self.0 }),
    {
        let mut config = self.0;
        config.maximum_transmit_attempts = n;
        ConfigBuilder(config)
    }

    /// Sets the pipes enabled for receiving.
    pub fn enabled_pipes(self, enabled_pipes: u8) -> (r: Self)
        ensures
            r.0 == (Config { enabled_pipes: enabled_pipes, ..self.0 }),
    {
        let mut config = self.0;
        config.enabled_pipes = enabled_pipes;
        ConfigBuilder(config)
    }

    /// Sets the transmission power.
    pub fn tx_power(self, tx_power: TxPower) -> (r: Self)
        ensures
            r.0 == (Config { tx_power: tx_power, ..self.0 }),
    {
        let mut config = self.0;
        config.tx_power = tx_power;
        ConfigBuilder(config)
    }

    /// Sets the maximum payload size.
    pub fn max_payload_size(self, payload_size: u8) -> (r: Self)
        ensures
            r.0 == (Config { maximum_payload_size: payload_size, ..self.0 }),
    {
        let mut config = self.0;
        config.maximum_payload_size = payload_size;
        ConfigBuilder(config)
    }

    /// Validates the builder and returns the configuration.
    ///
    /// Out-of-range values are rejected with [`Error::InvalidParameters`]:
    /// an ack timeout under 44 us or so large that adding the ramp-up time
    /// would not fit in a microsecond counter word, a retransmit delay that
    /// does not exceed both the ack timeout plus its fixed offset and the
    /// ramp-up time, or a payload limit over 252 bytes.
    pub fn check(self) -> (r: Result<Config, Error>)
        ensures
            r is Ok <==> self.0.valid(),
            r is Ok ==> r->Ok_0 == self.0,
            r is Err ==> r->Err_0 == Error::InvalidParameters,
    {
        let bad_ack_timeout = self.0.wait_for_ack_timeout < 44
            || self.0.wait_for_ack_timeout > u16::MAX - RAMP_UP_TIME;
        let bad_retransmit_delay = (self.0.retransmit_delay as u32)
            <= (self.0.wait_for_ack_timeout as u32) + (RETRANSMIT_DELAY_US_OFFSET as u32)
            || self.0.retransmit_delay <= RAMP_UP_TIME;
        let bad_size = self.0.maximum_payload_size > 252;

        if bad_ack_timeout || bad_retransmit_delay || bad_size {
            Err(Error::InvalidParameters)
        } else {
            Ok(self.0)
        }
    }
}

} // verus!
