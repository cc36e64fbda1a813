//! The interrupt-side protocol state machine.
//!
//! [`EsbIrq`] is driven from the radio interrupt: it consumes packets from
//! the application, hands them to the radio, checks acknowledgements and
//! schedules retransmissions in the PTX role, and receives packets, commits
//! them and answers with acknowledgements in the PRX role. [`IrqTimer`] is
//! the handle for the timer interrupt, which only signals the radio
//! interrupt through the shared timer flag.
//!
//! Each entry point borrows the shared [`EsbBuffer`] and the radio device
//! for the duration of its critical section. The contracts state the
//! transition relation exactly: which state is entered, which frames move
//! between the queues and the radio, and which error is reported, as a
//! function of the observed events and the device state.

use vstd::prelude::*;

use crate::app::Addresses;
use crate::buffer::EsbBuffer;
use crate::payload::PayloadR;
use crate::payload::PayloadW;
use crate::payload::HEADER_SIZE;
use crate::peripherals::in_frames_wf;
use crate::peripherals::is_repeated;
use crate::peripherals::out_frames_wf;
use crate::peripherals::rx_unchanged;
use crate::peripherals::EsbRadio;
use crate::peripherals::EsbTimer;
use crate::peripherals::RadioDevice;
use crate::peripherals::RxPayloadState;
use crate::queue::frame_bytes;
use crate::Config;
use crate::Error;
use crate::RAMP_UP_TIME;

use core::marker::PhantomData;

verus! {

/// Type to represent the driver in the disabled mode.
pub struct Disabled;

/// The current state of the driver in the PTX role.
#[derive(Debug, Clone, Copy, PartialEq, Eq, Structural)]
pub enum StatePTX {
    /// The radio is idle in PTX mode.
    IdleTx,
    /// Transmitting a packet that requests an acknowledgement.
    TransmitterTx,
    /// Transmitting a packet that requests no acknowledgement.
    TransmitterTxNoAck,
    /// Waiting for an acknowledgement.
    TransmitterWaitAck,
    /// Waiting for the retransmit timeout.
    TransmitterWaitRetransmit,
}

/// The current state of the driver in the PRX role.
#[derive(Debug, Clone, Copy, PartialEq, Eq, Structural)]
pub enum StatePRX {
    /// The radio is idle in PRX mode.
    IdleRx,
    /// Listening for packets.
    Receiver,
    /// Transmitting an acknowledgement.
    TransmittingAck,
    /// Transmitting an acknowledgement for a repeated packet.
    TransmittingRepeatedAck,
}

/// The handle for the timer interrupt.
pub struct IrqTimer<T: EsbTimer> {
    /// The timer peripheral type this handle serves.
    pub _timer: PhantomData<T>,
}

impl<T: EsbTimer> IrqTimer<T> {
    /// Must be called inside the timer interrupt handler.
    ///
    /// Acknowledges whichever compare events fired, raises the shared timer
    /// flag and pends the radio interrupt, where all state transitions
    /// happen.
    pub fn timer_interrupt(&mut self, buffer: &mut EsbBuffer)
        ensures
            *final(self) == *old(self),
            *final(buffer) == (EsbBuffer {
                timer_flag: true,
                radio_pending: true,
                ..*old(buffer)
            }),
    {
        let retransmit_event = T::is_retransmit_pending();
        let ack_timeout_event = T::is_ack_pending();
        if retransmit_event {
            T::clear_interrupt_retransmit();
        }
        // Retransmit might have fired just after ack: check and clear the
        // ack event too, so no stale event survives.
        if ack_timeout_event {
            T::clear_interrupt_ack();
        }
        buffer.timer_flag = true;
        buffer.radio_pending = true;
    }
}

/// The events a radio interrupt invocation observes: the radio's `disabled`
/// event and the shared timer flag.
struct Events {
    disabled: bool,
    timer: bool,
}

/// This is the primary radio-interrupt-side interface.
///
/// It is intended to be used inside the radio interrupt handler, and moves
/// packets between the shared [`EsbBuffer`] and the radio. The `STATE`
/// parameter is the role of the driver: [`Disabled`], [`StatePTX`] or
/// [`StatePRX`]; illegal entry points for a role do not exist on that type.
pub struct EsbIrq<T, STATE>
where
    T: EsbTimer,
{
    /// Peripheral timer, used for the acknowledgement and retransmit
    /// timeouts.
    pub timer: T,
    /// The radio wrapper holding the in-flight grants and the duplicate
    /// suppression state.
    pub radio: EsbRadio,
    /// Current state of the radio interrupt task.
    pub state: STATE,
    /// The assigned addresses of the radio and its pipes.
    pub addresses: Addresses,
    /// The number of attempts used for the current packet.
    pub attempts: u8,
    /// Protocol configuration.
    pub config: Config,
}

/// The attempt counter after a failed wait for an acknowledgement: used up
/// attempts mean the packet is given up and the counter resets, otherwise
/// one more attempt is recorded.
pub open spec fn failed_wait_attempts(attempts: u8, max: u8) -> u8 {
    if attempts + 1 >= max {
        0
    } else {
        (attempts + 1) as u8
    }
}

/// Whether a failed wait for an acknowledgement exhausts the configured
/// attempts and reports [`Error::MaximumAttempts`].
pub open spec fn failed_wait_reports(attempts: u8, max: u8) -> bool {
    attempts + 1 >= max
}

/// At-most-N retransmissions: starting from a reset counter, each failed
/// wait for an acknowledgement records one more attempt without a report
/// until, on the `max`-th consecutive failure, the driver reports
/// [`Error::MaximumAttempts`] exactly once and the counter is reset. The
/// counter never exceeds the configured maximum.
pub proof fn lemma_at_most_n_retransmits(max: u8, k: nat)
    requires
        1 <= k < max,
    ensures
        consecutive_failed_waits(k, max) == k,
        !failed_wait_reports(consecutive_failed_waits((k - 1) as nat, max), max),
        failed_wait_reports(consecutive_failed_waits((max - 1) as nat, max), max),
        consecutive_failed_waits(max as nat, max) == 0,
        consecutive_failed_waits(k, max) <= max,
{
    lemma_consecutive_failed_waits_value(k, max);
    lemma_consecutive_failed_waits_value((k - 1) as nat, max);
    lemma_consecutive_failed_waits_value((max - 1) as nat, max);
    lemma_consecutive_failed_waits_value(max as nat, max);
}

/// The attempt counter after `k` consecutive failed waits, starting from a
/// reset counter.
pub open spec fn consecutive_failed_waits(k: nat, max: u8) -> u8
    decreases k,
{
    if k == 0 {
        0
    } else {
        failed_wait_attempts(consecutive_failed_waits((k - 1) as nat, max), max)
    }
}

proof fn lemma_consecutive_failed_waits_value(k: nat, max: u8)
    requires
        k < max || k == max,
    ensures
        consecutive_failed_waits(k, max) == if k == max {
            0
        } else {
            k
        },
    decreases k,
{
    if k > 0 {
        lemma_consecutive_failed_waits_value((k - 1) as nat, max);
    }
}

/// No grant leak: whenever the PTX driver is idle, the radio retains no
/// grants and the incoming queue has no outstanding write reservation. In
/// particular this holds after an end-to-end transmission success drained
/// the queue, and after the radio was stopped.
pub proof fn lemma_idle_ptx_holds_no_grants<T: EsbTimer, D: RadioDevice>(
    irq: EsbIrq<T, StatePTX>,
    buffer: EsbBuffer,
    device: D,
)
    requires
        irq.inv(buffer, device),
        irq.state == StatePTX::IdleTx,
    ensures
        irq.radio.tx_grant is None,
        irq.radio.rx_grant is None,
        !buffer.radio_to_app.write_in_progress(),
{
}

/// The state entered by dequeuing the next packet: transmitting with or
/// without acknowledgement when a packet waits at the front of the outgoing
/// queue, idle otherwise.
pub open spec fn send_state(out: Seq<Seq<u8>>) -> StatePTX {
    if out.len() == 0 {
        StatePTX::IdleTx
    } else if (out[0][3] & 1) == 1 {
        StatePTX::TransmitterTx
    } else {
        StatePTX::TransmitterTxNoAck
    }
}

/// What dequeuing the next packet does to the radio: the front frame, if
/// any, is retained and handed to the device for transmission; with an
/// empty queue the interrupt is masked and no grant is retained.
pub open spec fn send_post<D: RadioDevice>(
    out: Seq<Seq<u8>>,
    radio_post: EsbRadio,
    dev_post: D,
    state_post: StatePTX,
) -> bool {
    &&& state_post == send_state(out)
    &&& radio_post.rx_grant is None
    &&& if out.len() > 0 {
        &&& radio_post.tx_grant is Some
        &&& radio_post.tx_grant->Some_0@ == out[0]
        &&& dev_post.tx_loaded() == out[0].skip(2)
        &&& dev_post.irq_disabled()
    } else {
        &&& radio_post.tx_grant is None
        &&& !dev_post.irq_disabled()
    }
}

impl<T, STATE> EsbIrq<T, STATE> where T: EsbTimer {
    /// The machine-independent part of the driver invariant: the queues are
    /// well formed, the configuration was validated, the device was
    /// configured for the same maximum payload, every outgoing frame was
    /// committed through a checked grant, the incoming write grant lives in
    /// the radio wrapper exactly while the queue has one outstanding, and a
    /// retained outgoing frame is the front of the outgoing queue.
    pub open spec fn base_inv<D: RadioDevice>(&self, buffer: EsbBuffer, device: D) -> bool {
        &&& self.radio.wf()
        &&& buffer.wf()
        &&& self.config.valid()
        &&& device.max_payload() == self.config.maximum_payload_size
        &&& out_frames_wf(buffer.app_to_radio@)
        &&& in_frames_wf(buffer.radio_to_app@)
        &&& (self.radio.rx_grant is Some <==> buffer.radio_to_app.write_in_progress())
        &&& (self.radio.rx_grant is Some ==> buffer.radio_to_app.reserved()
            == self.radio.rx_grant->Some_0@.len())
        &&& (self.radio.rx_grant is Some ==> self.radio.rx_grant->Some_0@.len() == HEADER_SIZE
            + self.config.maximum_payload_size)
        &&& (self.radio.tx_grant is Some ==> buffer.app_to_radio@.len() > 0
            && buffer.app_to_radio@[0] == self.radio.tx_grant->Some_0@)
    }

    /// Reads and clears the two event sources and un-pends the radio
    /// interrupt line.
    fn check_and_clear_flags<D: RadioDevice>(
        &mut self,
        buffer: &mut EsbBuffer,
        device: &mut D,
    ) -> (r: Events)
        ensures
            *final(self) == *old(self),
            r.disabled == old(device).disabled_event(),
            r.timer == old(buffer).timer_flag,
            *final(buffer) == (EsbBuffer {
                timer_flag: false,
                radio_pending: false,
                ..*old(buffer)
            }),
            !final(device).disabled_event(),
            final(device).irq_disabled() == old(device).irq_disabled(),
            final(device).short_rxen() == old(device).short_rxen(),
            final(device).short_txen() == old(device).short_txen(),
            final(device).tx_address() == old(device).tx_address(),
            final(device).rx_addresses() == old(device).rx_addresses(),
            final(device).tx_loaded() == old(device).tx_loaded(),
            rx_unchanged(*old(device), *final(device)),
    {
        let disabled = device.check_disabled_event();
        let timer = buffer.timer_flag;
        if disabled {
            device.clear_disabled_event();
        }
        if timer {
            buffer.timer_flag = false;
        }
        buffer.radio_pending = false;
        Events { disabled, timer }
    }

    /// Puts the driver in the disabled state: stops the radio, drops both
    /// retained grants, acknowledges the timer interrupts and clears the
    /// pending flags.
    pub fn into_disabled<D: RadioDevice>(
        self,
        buffer: &mut EsbBuffer,
        device: &mut D,
    ) -> (r: EsbIrq<T, Disabled>)
        requires
            self.radio.wf(),
            old(buffer).wf(),
            self.radio.rx_grant is Some <==> old(buffer).radio_to_app.write_in_progress(),
        ensures
            r.radio.wf(),
            r.radio.tx_grant is None,
            r.radio.rx_grant is None,
            r.radio.last_crc == self.radio.last_crc,
            r.radio.last_pid == self.radio.last_pid,
            r.radio.cached_pipe == self.radio.cached_pipe,
            r.attempts == 0,
            r.config == self.config,
            r.addresses == self.addresses,
            final(buffer).wf(),
            final(buffer).app_to_radio == old(buffer).app_to_radio,
            final(buffer).radio_to_app@ == old(buffer).radio_to_app@,
            !final(buffer).radio_to_app.write_in_progress(),
            !final(buffer).timer_flag,
            !final(buffer).radio_pending,
            final(buffer).split == old(buffer).split,
            !final(device).disabled_event(),
            !final(device).irq_disabled(),
            !final(device).short_rxen(),
            !final(device).short_txen(),
            rx_unchanged(*old(device), *final(device)),
    {
        let mut this = self;
        // Put the radio in a known state.
        this.radio.stop(device, &mut buffer.radio_to_app);
        T::clear_interrupt_retransmit();
        T::clear_interrupt_ack();
        buffer.timer_flag = false;
        buffer.radio_pending = false;

        EsbIrq {
            timer: this.timer,
            radio: this.radio,
            state: Disabled,
            addresses: this.addresses,
            attempts: 0,
            config: this.config,
        }
    }
}

impl<T> EsbIrq<T, Disabled> where T: EsbTimer {
    /// Releases the timer peripheral back to the caller, dissolving the
    /// driver.
    ///
    /// Only a quiescent driver may be dissolved: the driver must already be
    /// disabled, and the release is refused — handing the driver back
    /// unchanged — while either queue still holds frames or an outstanding
    /// reservation.
    pub fn release_timer(self, buffer: &EsbBuffer) -> (r: Result<T, EsbIrq<T, Disabled>>)
        ensures
            r is Ok <==> {
                &&& buffer.app_to_radio@.len() == 0
                &&& !buffer.app_to_radio.write_in_progress()
                &&& buffer.radio_to_app@.len() == 0
                &&& !buffer.radio_to_app.write_in_progress()
            },
            r is Ok ==> r->Ok_0 == self.timer,
            r is Err ==> r->Err_0 == self,
    {
        let quiescent = buffer.app_to_radio.frames.len() == 0 && !buffer.app_to_radio.write_open
            && buffer.radio_to_app.frames.len() == 0 && !buffer.radio_to_app.write_open;
        if quiescent {
            Ok(self.timer)
        } else {
            Err(self)
        }
    }

    /// Puts the driver in the PTX mode, idle.
    pub fn into_ptx(self) -> (r: EsbIrq<T, StatePTX>)
        ensures
            r.timer == self.timer,
            r.radio == self.radio,
            r.state == StatePTX::IdleTx,
            r.addresses == self.addresses,
            r.attempts == 0,
            r.config == self.config,
    {
        EsbIrq {
            timer: self.timer,
            radio: self.radio,
            state: StatePTX::IdleTx,
            addresses: self.addresses,
            attempts: 0,
            config: self.config,
        }
    }

    /// Puts the driver in the PRX mode, idle; receiving starts upon
    /// [`EsbIrq::start_receiving`].
    pub fn into_prx(self) -> (r: EsbIrq<T, StatePRX>)
        ensures
            r.timer == self.timer,
            r.radio == self.radio,
            r.state == StatePRX::IdleRx,
            r.addresses == self.addresses,
            r.attempts == 0,
            r.config == self.config,
    {
        EsbIrq {
            timer: self.timer,
            radio: self.radio,
            state: StatePRX::IdleRx,
            addresses: self.addresses,
            attempts: 0,
            config: self.config,
        }
    }
}

impl<T> EsbIrq<T, StatePTX> where T: EsbTimer {
    /// The PTX driver invariant: on top of the base invariant, the retained
    /// grants follow the state, and the attempt counter stays within the
    /// configured maximum.
    pub open spec fn inv<D: RadioDevice>(&self, buffer: EsbBuffer, device: D) -> bool {
        &&& self.base_inv(buffer, device)
        &&& match self.state {
            StatePTX::IdleTx => self.radio.tx_grant is None && self.radio.rx_grant is None,
            StatePTX::TransmitterTx => self.radio.tx_grant is Some && self.radio.rx_grant
                is None,
            StatePTX::TransmitterTxNoAck => self.radio.tx_grant is Some && self.radio.rx_grant
                is None,
            StatePTX::TransmitterWaitAck => self.radio.tx_grant is Some && self.radio.rx_grant
                is Some,
            StatePTX::TransmitterWaitRetransmit => self.radio.tx_grant is None
                && self.radio.rx_grant is None,
        }
        &&& self.attempts <= self.config.maximum_transmit_attempts
    }

    /// Must be called inside the radio interrupt handler.
    ///
    /// Returns the state after the dispatch, or the error encountered:
    /// [`Error::IncomingQueueFull`] when no room was left for an expected
    /// acknowledgement, and [`Error::MaximumAttempts`] when the configured
    /// number of transmit attempts was used up, in which case the packet
    /// was dropped and the driver moved on to the next one.
    #[verifier::rlimit(100)]
    pub fn radio_interrupt<D: RadioDevice>(
        &mut self,
        buffer: &mut EsbBuffer,
        device: &mut D,
    ) -> (r: Result<StatePTX, Error>)
        requires
            old(self).inv(*old(buffer), *old(device)),
        ensures
            final(self).inv(*final(buffer), *final(device)),
            final(self).config == old(self).config,
            final(self).addresses == old(self).addresses,
            final(self).radio.last_crc == old(self).radio.last_crc,
            final(self).radio.last_pid == old(self).radio.last_pid,
            final(self).radio.cached_pipe == old(self).radio.cached_pipe,
            !final(buffer).timer_flag,
            !final(buffer).radio_pending,
            final(buffer).split == old(buffer).split,
            final(buffer).app_to_radio.spec_capacity() == old(buffer).app_to_radio.spec_capacity(),
            final(buffer).radio_to_app.spec_capacity() == old(buffer).radio_to_app.spec_capacity(),
            final(buffer).app_to_radio.write_in_progress() == old(
                buffer,
            ).app_to_radio.write_in_progress(),
            rx_unchanged(*old(device), *final(device)),
            ({
                let disabled = old(device).disabled_event();
                let timer = old(buffer).timer_flag;
                let user = !disabled && !timer;
                let st = old(self).state;
                let out0 = old(buffer).app_to_radio@;
                let inc0 = old(buffer).radio_to_app@;
                let max = old(self).config.maximum_payload_size;
                &&& (user && st != StatePTX::IdleTx ==> {
                    &&& r == Ok::<StatePTX, Error>(st)
                    &&& *final(self) == *old(self)
                    &&& final(buffer).app_to_radio@ == out0
                    &&& final(buffer).radio_to_app@ == inc0
                })
                &&& (st == StatePTX::IdleTx ==> {
                    &&& final(buffer).app_to_radio@ == out0
                    &&& final(buffer).radio_to_app@ == inc0
                    &&& final(self).attempts == old(self).attempts
                    &&& if user {
                        &&& send_post(out0, final(self).radio, *final(device), final(self).state)
                        &&& r == Ok::<StatePTX, Error>(send_state(out0))
                    } else {
                        // An out-of-sequence event in the idle state is
                        // ignored.
                        &&& *final(self) == *old(self)
                        &&& r == Ok::<StatePTX, Error>(StatePTX::IdleTx)
                    }
                })
                &&& (st == StatePTX::TransmitterTxNoAck && !user ==> {
                    let out1 = out0.drop_first();
                    &&& final(buffer).app_to_radio@ == out1
                    &&& final(buffer).radio_to_app@ == inc0
                    &&& final(self).attempts == old(self).attempts
                    &&& send_post(out1, final(self).radio, *final(device), final(self).state)
                    &&& r == Ok::<StatePTX, Error>(send_state(out1))
                })
                &&& (st == StatePTX::TransmitterTx && !user ==> {
                    let fits = frame_bytes(inc0) + HEADER_SIZE + max <= old(
                        buffer,
                    ).radio_to_app.spec_capacity();
                    &&& final(buffer).app_to_radio@ == out0
                    &&& final(buffer).radio_to_app@ == inc0
                    &&& final(self).attempts == old(self).attempts
                    &&& if fits {
                        &&& final(self).state == StatePTX::TransmitterWaitAck
                        &&& final(self).radio.tx_grant == old(self).radio.tx_grant
                        &&& final(self).radio.rx_grant is Some
                        &&& r == Ok::<StatePTX, Error>(StatePTX::TransmitterWaitAck)
                    } else {
                        &&& final(self).state == StatePTX::IdleTx
                        &&& final(self).radio.tx_grant is None
                        &&& final(self).radio.rx_grant is None
                        &&& r == Err::<StatePTX, Error>(Error::IncomingQueueFull)
                    }
                })
                &&& (st == StatePTX::TransmitterWaitAck && !user ==> {
                    let ack_ok = disabled && old(device).crc_ok();
                    let give_up = failed_wait_reports(
                        old(self).attempts,
                        old(self).config.maximum_transmit_attempts,
                    );
                    &&& (ack_ok ==> {
                        let out1 = out0.drop_first();
                        &&& final(buffer).app_to_radio@ == out1
                        &&& final(buffer).radio_to_app@ == inc0.push(
                            seq![old(device).rssi_sample(), out0[0][1]] + old(device).received(),
                        )
                        &&& final(self).attempts == 0
                        &&& send_post(out1, final(self).radio, *final(device), final(self).state)
                        &&& r == Ok::<StatePTX, Error>(send_state(out1))
                    })
                    &&& (!ack_ok && !give_up ==> {
                        &&& final(buffer).app_to_radio@ == out0
                        &&& final(buffer).radio_to_app@ == inc0
                        &&& final(self).attempts == failed_wait_attempts(
                            old(self).attempts,
                            old(self).config.maximum_transmit_attempts,
                        )
                        &&& final(self).state == StatePTX::TransmitterWaitRetransmit
                        &&& final(self).radio.tx_grant is None
                        &&& final(self).radio.rx_grant is None
                        &&& r == Ok::<StatePTX, Error>(StatePTX::TransmitterWaitRetransmit)
                    })
                    &&& (!ack_ok && give_up ==> {
                        let out1 = out0.drop_first();
                        &&& final(buffer).app_to_radio@ == out1
                        &&& final(buffer).radio_to_app@ == inc0
                        &&& final(self).attempts == 0
                        &&& send_post(out1, final(self).radio, *final(device), final(self).state)
                        &&& r == Err::<StatePTX, Error>(Error::MaximumAttempts)
                    })
                })
                &&& (st == StatePTX::TransmitterWaitRetransmit && !user ==> {
                    &&& final(buffer).app_to_radio@ == out0
                    &&& final(buffer).radio_to_app@ == inc0
                    &&& final(self).attempts == old(self).attempts
                    &&& send_post(out0, final(self).radio, *final(device), final(self).state)
                    &&& r == Ok::<StatePTX, Error>(send_state(out0))
                })
            }),
    {
        let events = self.check_and_clear_flags(buffer, device);
        let user_event = !events.disabled && !events.timer;

        // Only the driver's own events reach a busy state machine; an
        // interrupt pended by the user while busy is ignored.
        if user_event && !matches!(self.state, StatePTX::IdleTx) {
            return Ok(self.state);
        }

        match self.state {
            StatePTX::IdleTx => {
                // An interrupt here means that the user pushed a packet
                // into the queue; a stray hardware event is ignored.
                if user_event {
                    self.send_packet(buffer, device);
                }
            },
            StatePTX::TransmitterTxNoAck => {
                // The transmission ended.
                self.radio.finish_tx_no_ack(device, &mut buffer.app_to_radio);
                self.send_packet(buffer, device);
            },
            StatePTX::TransmitterTx => {
                let size = self.config.maximum_payload_size as usize + HEADER_SIZE;
                match buffer.radio_to_app.grant_write(size) {
                    Ok(grant) => {
                        let packet = PayloadW::new_from_radio(grant);
                        self.radio.prepare_for_ack(device, packet);
                        self.state = StatePTX::TransmitterWaitAck;
                    },
                    Err(_) => {
                        self.radio.stop(device, &mut buffer.radio_to_app);
                        self.state = StatePTX::IdleTx;
                        return Err(Error::IncomingQueueFull);
                    },
                }
                // The radio is disabled before a retransmission, so the
                // retransmit delay must absorb the TX ramp-up, and the
                // acknowledgement window the RX ramp-up.
                self.timer.set_interrupt_retransmit(self.config.retransmit_delay - RAMP_UP_TIME);
                self.timer.set_interrupt_ack(self.config.wait_for_ack_timeout + RAMP_UP_TIME);
            },
            StatePTX::TransmitterWaitAck => {
                let mut ack_success = false;
                if events.disabled {
                    // The radio heard something back: check it.
                    T::clear_interrupt_ack();
                    match self.radio.check_ack(
                        device,
                        &mut buffer.app_to_radio,
                        &mut buffer.radio_to_app,
                    ) {
                        Ok(true) => {
                            // Acknowledged: the retransmit timer is also
                            // reset and stopped here.
                            T::clear_interrupt_retransmit();
                            self.attempts = 0;
                            self.send_packet(buffer, device);
                            ack_success = true;
                        },
                        Ok(false) => (),
                        Err(e) => {
                            return Err(e);
                        },
                    }
                }
                if !ack_success {
                    // CRC mismatch or acknowledgement timeout: retransmit,
                    // unless the attempts are used up.
                    self.radio.stop(device, &mut buffer.radio_to_app);
                    if self.attempts >= self.config.maximum_transmit_attempts
                        || self.attempts == self.config.maximum_transmit_attempts - 1 {
                        T::clear_interrupt_retransmit();
                        // The grants were dropped by the stop above;
                        // release the packet for good and try the next one.
                        match buffer.app_to_radio.read_next() {
                            Some(frame) => {
                                PayloadR::new(frame).release(&mut buffer.app_to_radio);
                            },
                            None => (),
                        }
                        self.attempts = 0;
                        self.send_packet(buffer, device);
                        return Err(Error::MaximumAttempts);
                    } else {
                        self.attempts = self.attempts + 1;
                        self.state = StatePTX::TransmitterWaitRetransmit;
                    }
                }
            },
            StatePTX::TransmitterWaitRetransmit => {
                // The timer interrupt has cleared and stopped the timer by
                // now.
                self.send_packet(buffer, device);
            },
        }
        Ok(self.state)
    }

    /// Dequeues the next packet and starts transmitting it, or goes idle
    /// when the outgoing queue is empty.
    fn send_packet<D: RadioDevice>(&mut self, buffer: &mut EsbBuffer, device: &mut D)
        requires
            old(self).base_inv(*old(buffer), *old(device)),
            old(self).radio.tx_grant is None,
            old(self).radio.rx_grant is None,
        ensures
            final(self).base_inv(*final(buffer), *final(device)),
            *final(buffer) == *old(buffer),
            final(self).attempts == old(self).attempts,
            final(self).config == old(self).config,
            final(self).addresses == old(self).addresses,
            final(self).radio.last_crc == old(self).radio.last_crc,
            final(self).radio.last_pid == old(self).radio.last_pid,
            final(self).radio.cached_pipe == old(self).radio.cached_pipe,
            send_post(
                old(buffer).app_to_radio@,
                final(self).radio,
                *final(device),
                final(self).state,
            ),
            rx_unchanged(*old(device), *final(device)),
    {
        match buffer.app_to_radio.read_next() {
            Some(frame) => {
                let payload = PayloadR::new(frame);
                let ack = !payload.no_ack();
                self.radio.transmit(device, payload, ack);
                if ack {
                    self.state = StatePTX::TransmitterTx;
                } else {
                    self.state = StatePTX::TransmitterTxNoAck;
                }
            },
            None => {
                device.disable_interrupt_disabled();
                self.state = StatePTX::IdleTx;
            },
        }
    }
}

impl<T> EsbIrq<T, StatePRX> where T: EsbTimer {
    /// The PRX driver invariant: on top of the base invariant, the receive
    /// grant follows the state. While an acknowledgement for a fresh packet
    /// is in the air the just-committed grant is gone and the next one is
    /// obtained when the acknowledgement completes; a repeated packet keeps
    /// the current grant.
    pub open spec fn inv<D: RadioDevice>(&self, buffer: EsbBuffer, device: D) -> bool {
        &&& self.base_inv(buffer, device)
        &&& match self.state {
            StatePRX::IdleRx => self.radio.rx_grant is None && self.radio.tx_grant is None,
            StatePRX::Receiver => self.radio.rx_grant is Some,
            StatePRX::TransmittingAck => self.radio.rx_grant is None,
            StatePRX::TransmittingRepeatedAck => self.radio.rx_grant is Some,
        }
    }

    /// Grants a full-size write frame from the incoming queue. When the
    /// queue has no room, the radio is stopped, the driver goes idle and
    /// [`Error::IncomingQueueFull`] is reported.
    fn prepare_receiver<D: RadioDevice>(
        &mut self,
        buffer: &mut EsbBuffer,
        device: &mut D,
    ) -> (r: Result<PayloadW, Error>)
        requires
            old(self).base_inv(*old(buffer), *old(device)),
            old(self).radio.rx_grant is None,
        ensures
            final(self).config == old(self).config,
            final(self).addresses == old(self).addresses,
            final(self).attempts == old(self).attempts,
            final(self).radio.last_crc == old(self).radio.last_crc,
            final(self).radio.last_pid == old(self).radio.last_pid,
            final(self).radio.cached_pipe == old(self).radio.cached_pipe,
            final(buffer).wf(),
            final(buffer).app_to_radio == old(buffer).app_to_radio,
            final(buffer).radio_to_app@ == old(buffer).radio_to_app@,
            final(buffer).radio_to_app.spec_capacity() == old(buffer).radio_to_app.spec_capacity(),
            final(buffer).timer_flag == old(buffer).timer_flag,
            final(buffer).radio_pending == old(buffer).radio_pending,
            final(buffer).split == old(buffer).split,
            rx_unchanged(*old(device), *final(device)),
            ({
                let fits = frame_bytes(old(buffer).radio_to_app@) + HEADER_SIZE + old(
                    self,
                ).config.maximum_payload_size <= old(buffer).radio_to_app.spec_capacity();
                &&& fits ==> {
                    &&& r is Ok
                    &&& r->Ok_0.wf()
                    &&& r->Ok_0@.len() == HEADER_SIZE + old(self).config.maximum_payload_size
                    &&& final(buffer).radio_to_app.write_in_progress()
                    &&& final(buffer).radio_to_app.reserved() == HEADER_SIZE + old(
                        self,
                    ).config.maximum_payload_size
                    &&& *final(self) == *old(self)
                    &&& *final(device) == *old(device)
                }
                &&& !fits ==> {
                    &&& r == Err::<PayloadW, Error>(Error::IncomingQueueFull)
                    &&& final(self).state == StatePRX::IdleRx
                    &&& final(self).radio.tx_grant is None
                    &&& final(self).radio.rx_grant is None
                    &&& !final(buffer).radio_to_app.write_in_progress()
                    &&& !final(device).short_rxen()
                    &&& !final(device).short_txen()
                    &&& !final(device).irq_disabled()
                    &&& final(device).tx_loaded() == old(device).tx_loaded()
                }
            }),
    {
        let size = self.config.maximum_payload_size as usize + HEADER_SIZE;
        match buffer.radio_to_app.grant_write(size) {
            Ok(grant) => Ok(PayloadW::new_from_radio(grant)),
            Err(_) => {
                self.radio.stop(device, &mut buffer.radio_to_app);
                self.state = StatePRX::IdleRx;
                Err(Error::IncomingQueueFull)
            },
        }
    }

    /// Puts the driver in the receiving state. Outside the idle state this
    /// does nothing.
    pub fn start_receiving<D: RadioDevice>(
        &mut self,
        buffer: &mut EsbBuffer,
        device: &mut D,
    ) -> (r: Result<(), Error>)
        requires
            old(self).inv(*old(buffer), *old(device)),
        ensures
            final(self).inv(*final(buffer), *final(device)),
            final(self).config == old(self).config,
            final(self).addresses == old(self).addresses,
            final(self).attempts == old(self).attempts,
            final(buffer).app_to_radio == old(buffer).app_to_radio,
            final(buffer).radio_to_app@ == old(buffer).radio_to_app@,
            final(buffer).radio_to_app.spec_capacity() == old(buffer).radio_to_app.spec_capacity(),
            final(buffer).timer_flag == old(buffer).timer_flag,
            final(buffer).radio_pending == old(buffer).radio_pending,
            final(buffer).split == old(buffer).split,
            rx_unchanged(*old(device), *final(device)),
            old(self).state != StatePRX::IdleRx ==> *final(self) == *old(self) && r == Ok::<
                (),
                Error,
            >(()) && *final(buffer) == *old(buffer),
            old(self).state == StatePRX::IdleRx ==> ({
                let fits = frame_bytes(old(buffer).radio_to_app@) + HEADER_SIZE + old(
                    self,
                ).config.maximum_payload_size <= old(buffer).radio_to_app.spec_capacity();
                &&& fits ==> {
                    &&& r == Ok::<(), Error>(())
                    &&& final(self).state == StatePRX::Receiver
                    &&& final(self).radio.rx_grant is Some
                    &&& final(self).radio.tx_grant is None
                    &&& final(device).short_txen()
                    &&& final(device).irq_disabled()
                    &&& final(device).rx_addresses() == old(self).config.enabled_pipes
                    &&& final(device).tx_loaded() == old(device).tx_loaded()
                }
                &&& !fits ==> {
                    &&& r == Err::<(), Error>(Error::IncomingQueueFull)
                    &&& final(self).state == StatePRX::IdleRx
                    &&& final(self).radio.tx_grant is None
                    &&& final(self).radio.rx_grant is None
                }
            }),
    {
        if matches!(self.state, StatePRX::IdleRx) {
            match self.prepare_receiver(buffer, device) {
                Ok(grant) => {
                    self.radio.start_receiving(device, grant, self.config.enabled_pipes);
                    self.state = StatePRX::Receiver;
                },
                Err(e) => {
                    return Err(e);
                },
            }
        }
        Ok(())
    }

    /// Stops receiving: puts the radio in a known state, acknowledges the
    /// timer interrupts, clears the pending flags and goes idle.
    pub fn stop_receiving<D: RadioDevice>(&mut self, buffer: &mut EsbBuffer, device: &mut D)
        requires
            old(self).inv(*old(buffer), *old(device)),
        ensures
            final(self).inv(*final(buffer), *final(device)),
            final(self).state == StatePRX::IdleRx,
            final(self).radio.tx_grant is None,
            final(self).radio.rx_grant is None,
            final(self).config == old(self).config,
            final(self).addresses == old(self).addresses,
            final(self).attempts == old(self).attempts,
            final(buffer).app_to_radio == old(buffer).app_to_radio,
            final(buffer).radio_to_app@ == old(buffer).radio_to_app@,
            !final(buffer).radio_to_app.write_in_progress(),
            !final(buffer).timer_flag,
            !final(buffer).radio_pending,
            final(buffer).split == old(buffer).split,
            !final(device).short_rxen(),
            !final(device).short_txen(),
            !final(device).irq_disabled(),
            !final(device).disabled_event(),
            rx_unchanged(*old(device), *final(device)),
    {
        // Put the radio in a known state.
        self.radio.stop(device, &mut buffer.radio_to_app);
        T::clear_interrupt_retransmit();
        T::clear_interrupt_ack();
        buffer.timer_flag = false;
        buffer.radio_pending = false;
        self.state = StatePRX::IdleRx;
    }

    /// Must be called inside the radio interrupt handler.
    ///
    /// Returns the state after the dispatch, or
    /// [`Error::IncomingQueueFull`] when the incoming queue had no room for
    /// the next reception, in which case the driver went idle.
    #[verifier::rlimit(100)]
    pub fn radio_interrupt<D: RadioDevice>(
        &mut self,
        buffer: &mut EsbBuffer,
        device: &mut D,
    ) -> (r: Result<StatePRX, Error>)
        requires
            old(self).inv(*old(buffer), *old(device)),
        ensures
            final(self).inv(*final(buffer), *final(device)),
            final(self).config == old(self).config,
            final(self).addresses == old(self).addresses,
            final(self).attempts == old(self).attempts,
            !final(buffer).timer_flag,
            !final(buffer).radio_pending,
            final(buffer).split == old(buffer).split,
            final(buffer).app_to_radio.spec_capacity() == old(buffer).app_to_radio.spec_capacity(),
            final(buffer).radio_to_app.spec_capacity() == old(buffer).radio_to_app.spec_capacity(),
            final(buffer).app_to_radio.write_in_progress() == old(
                buffer,
            ).app_to_radio.write_in_progress(),
            rx_unchanged(*old(device), *final(device)),
            ({
                let disabled = old(device).disabled_event();
                let timer = old(buffer).timer_flag;
                let user = !disabled && !timer;
                let st = old(self).state;
                let out0 = old(buffer).app_to_radio@;
                let inc0 = old(buffer).radio_to_app@;
                let max = old(self).config.maximum_payload_size;
                let cap = old(buffer).radio_to_app.spec_capacity();
                let crcok = old(device).crc_ok();
                let pipe = old(device).rx_pipe();
                let crc = old(device).rx_crc();
                let rec = old(device).received();
                let pid = rec[1] >> 1;
                let ack = (rec[1] & 1) == 1;
                let repeated = is_repeated(
                    old(self).radio.last_crc@,
                    old(self).radio.last_pid@,
                    pipe,
                    crc,
                    pid,
                );
                let frame = seq![old(device).rssi_sample(), pipe] + rec;
                let inc1 = inc0.push(frame);
                &&& (user && st != StatePRX::IdleRx ==> {
                    &&& r == Ok::<StatePRX, Error>(st)
                    &&& *final(self) == *old(self)
                    &&& final(buffer).app_to_radio@ == out0
                    &&& final(buffer).radio_to_app@ == inc0
                })
                &&& (st == StatePRX::Receiver && !user ==> {
                    &&& (!crcok ==> {
                        &&& r == Ok::<StatePRX, Error>(StatePRX::Receiver)
                        &&& *final(self) == *old(self)
                        &&& final(buffer).app_to_radio@ == out0
                        &&& final(buffer).radio_to_app@ == inc0
                    })
                    &&& (crcok && !repeated ==> {
                        &&& final(self).radio.last_crc@ == old(self).radio.last_crc@.update(
                            pipe as int,
                            crc,
                        )
                        &&& final(self).radio.last_pid@ == old(self).radio.last_pid@.update(
                            pipe as int,
                            pid,
                        )
                        &&& final(self).radio.cached_pipe == pipe
                        &&& final(buffer).radio_to_app@ == inc1
                    })
                    &&& (crcok && repeated ==> {
                        &&& final(self).radio.last_crc@ == old(self).radio.last_crc@
                        &&& final(self).radio.last_pid@ == old(self).radio.last_pid@
                        &&& final(self).radio.cached_pipe == old(self).radio.cached_pipe
                        &&& final(buffer).radio_to_app@ == inc0
                    })
                    &&& (crcok && !repeated && !ack ==> {
                        let fits = frame_bytes(inc1) + HEADER_SIZE + max <= cap;
                        &&& final(buffer).app_to_radio@ == out0
                        &&& final(self).radio.tx_grant is None
                        &&& if fits {
                            &&& r == Ok::<StatePRX, Error>(StatePRX::Receiver)
                            &&& final(self).state == StatePRX::Receiver
                            &&& final(self).radio.rx_grant is Some
                        } else {
                            &&& r == Err::<StatePRX, Error>(Error::IncomingQueueFull)
                            &&& final(self).state == StatePRX::IdleRx
                            &&& final(self).radio.rx_grant is None
                        }
                    })
                    &&& (crcok && !repeated && ack ==> {
                        let out1 = if old(self).radio.tx_grant is Some {
                            out0.drop_first()
                        } else {
                            out0
                        };
                        &&& r == Ok::<StatePRX, Error>(StatePRX::TransmittingAck)
                        &&& final(self).state == StatePRX::TransmittingAck
                        &&& final(self).radio.rx_grant is None
                        &&& final(buffer).app_to_radio@ == out1
                        &&& final(device).tx_address() == pipe
                        &&& if out1.len() > 0 {
                            &&& final(self).radio.tx_grant is Some
                            &&& final(self).radio.tx_grant->Some_0@ == out1[0]
                            &&& final(device).tx_loaded() == out1[0].skip(2)
                        } else {
                            &&& final(self).radio.tx_grant is None
                            &&& final(device).tx_loaded() == seq![0u8, 0u8]
                        }
                    })
                    &&& (crcok && repeated && !ack ==> {
                        &&& r == Ok::<StatePRX, Error>(StatePRX::Receiver)
                        &&& final(self).state == StatePRX::Receiver
                        &&& final(self).radio.rx_grant == old(self).radio.rx_grant
                        &&& final(self).radio.tx_grant is None
                        &&& final(buffer).app_to_radio@ == out0
                        &&& final(device).tx_loaded() == old(device).tx_loaded()
                    })
                    &&& (crcok && repeated && ack ==> {
                        &&& r == Ok::<StatePRX, Error>(StatePRX::TransmittingRepeatedAck)
                        &&& final(self).state == StatePRX::TransmittingRepeatedAck
                        &&& final(self).radio.rx_grant == old(self).radio.rx_grant
                        &&& final(self).radio.tx_grant == old(self).radio.tx_grant
                        &&& final(buffer).app_to_radio@ == out0
                        &&& final(device).tx_address() == pipe
                        &&& final(device).tx_loaded() == if pipe == old(self).radio.cached_pipe
                            && old(self).radio.tx_grant is Some {
                            old(self).radio.tx_grant->Some_0@.skip(2)
                        } else {
                            seq![0u8, 0u8]
                        }
                    })
                })
                &&& (st == StatePRX::TransmittingAck && !user ==> {
                    let fits = frame_bytes(inc0) + HEADER_SIZE + max <= cap;
                    &&& final(buffer).app_to_radio@ == out0
                    &&& final(buffer).radio_to_app@ == inc0
                    &&& if fits {
                        &&& r == Ok::<StatePRX, Error>(StatePRX::Receiver)
                        &&& final(self).state == StatePRX::Receiver
                        &&& final(self).radio.rx_grant is Some
                        &&& final(self).radio.tx_grant == old(self).radio.tx_grant
                        &&& !final(device).short_rxen()
                        &&& final(device).short_txen()
                    } else {
                        &&& r == Err::<StatePRX, Error>(Error::IncomingQueueFull)
                        &&& final(self).state == StatePRX::IdleRx
                        &&& final(self).radio.rx_grant is None
                        &&& final(self).radio.tx_grant is None
                    }
                })
                &&& (st == StatePRX::TransmittingRepeatedAck && !user ==> {
                    &&& r == Ok::<StatePRX, Error>(StatePRX::Receiver)
                    &&& final(self).state == StatePRX::Receiver
                    &&& final(self).radio.rx_grant == old(self).radio.rx_grant
                    &&& final(self).radio.tx_grant == old(self).radio.tx_grant
                    &&& final(buffer).app_to_radio@ == out0
                    &&& final(buffer).radio_to_app@ == inc0
                    &&& !final(device).short_rxen()
                    &&& final(device).short_txen()
                })
                &&& (st == StatePRX::IdleRx ==> {
                    let fits = frame_bytes(inc0) + HEADER_SIZE + max <= cap;
                    &&& final(buffer).app_to_radio@ == out0
                    &&& final(buffer).radio_to_app@ == inc0
                    &&& if fits {
                        &&& r == Ok::<StatePRX, Error>(StatePRX::Receiver)
                        &&& final(self).state == StatePRX::Receiver
                    } else {
                        &&& r == Err::<StatePRX, Error>(Error::IncomingQueueFull)
                        &&& final(self).state == StatePRX::IdleRx
                    }
                })
            }),
    {
        let events = self.check_and_clear_flags(buffer, device);
        let user_event = !events.disabled && !events.timer;

        // Only the driver's own events reach a busy state machine; an
        // interrupt pended by the user while busy is ignored.
        if user_event && !matches!(self.state, StatePRX::IdleRx) {
            return Ok(self.state);
        }

        match self.state {
            StatePRX::Receiver => {
                // A reception completed: classify it.
                match self.radio.check_packet(
                    device,
                    &mut buffer.app_to_radio,
                    &mut buffer.radio_to_app,
                ) {
                    Ok(RxPayloadState::BadCRC) => {
                        // The radio already restarted listening.
                    },
                    Ok(RxPayloadState::NoAck) => {
                        match self.prepare_receiver(buffer, device) {
                            Ok(grant) => {
                                // This goes back to RX.
                                self.radio.complete_rx_no_ack(device, Some(grant));
                            },
                            Err(e) => {
                                return Err(e);
                            },
                        }
                    },
                    Ok(RxPayloadState::RepeatedNoAck) => {
                        // This goes back to RX, reusing the current grant.
                        self.radio.complete_rx_no_ack(device, None);
                    },
                    Ok(RxPayloadState::Ack) => {
                        self.state = StatePRX::TransmittingAck;
                    },
                    Ok(RxPayloadState::RepeatedAck) => {
                        self.state = StatePRX::TransmittingRepeatedAck;
                    },
                    Err(e) => {
                        return Err(e);
                    },
                }
            },
            StatePRX::TransmittingAck => {
                // The acknowledgement went out: get ready for the next
                // packet.
                match self.prepare_receiver(buffer, device) {
                    Ok(grant) => {
                        match self.radio.complete_rx_ack(device, Some(grant)) {
                            Ok(()) => {
                                self.state = StatePRX::Receiver;
                            },
                            Err(e) => {
                                return Err(e);
                            },
                        }
                    },
                    Err(e) => {
                        return Err(e);
                    },
                }
            },
            StatePRX::TransmittingRepeatedAck => {
                match self.radio.complete_rx_ack(device, None) {
                    Ok(()) => {
                        self.state = StatePRX::Receiver;
                    },
                    Err(e) => {
                        return Err(e);
                    },
                }
            },
            StatePRX::IdleRx => {
                match self.start_receiving(buffer, device) {
                    Ok(()) => (),
                    Err(e) => {
                        return Err(e);
                    },
                }
            },
        }
        Ok(self.state)
    }
}

} // verus!
