//! A reference model of the radio peripheral contract.
//!
//! [`SimRadio`] implements [`RadioDevice`] over plain state: the driver's
//! operations set its control fields, and the environment side of the
//! contract — packets arriving over the air, events latching — is played by
//! whoever owns the device, for instance a test harness. The model also
//! counts the enable tasks and the frames loaded for transmission, so a
//! harness can observe what the driver asked the radio to do.

use vstd::prelude::*;

use crate::peripherals::RadioDevice;
use crate::peripherals::RadioSettings;

verus! {

/// A radio device held in plain state.
pub struct SimRadio {
    /// The configured maximum payload length.
    pub max_payload_len: u8,
    /// The `disabled` event latch.
    pub disabled_flag: bool,
    /// Whether the interrupt on the `disabled` event is enabled.
    pub irq_disabled_flag: bool,
    /// Whether the interrupt on the `ready` event is enabled.
    pub irq_ready_flag: bool,
    /// The disabled-to-rxen short-cut.
    pub short_rxen_flag: bool,
    /// The disabled-to-txen short-cut.
    pub short_txen_flag: bool,
    /// The pipe the next transmission is addressed to.
    pub tx_address_reg: u8,
    /// The bit mask of pipes listened on.
    pub rx_addresses_reg: u8,
    /// The frame most recently loaded for transmission.
    pub tx_loaded_buf: Vec<u8>,
    /// CRC status of the last reception.
    pub crc_ok_flag: bool,
    /// The pipe whose address matched on the last reception.
    pub rx_pipe_reg: u8,
    /// The CRC of the last received packet.
    pub rx_crc_reg: u16,
    /// The signal strength sample of the last reception.
    pub rssi_reg: u8,
    /// The bytes the last reception produced.
    pub received_buf: Vec<u8>,
    /// The settings last programmed, kept for inspection.
    pub configured: Option<RadioSettings>,
    /// How many times the transmitter enable task was triggered.
    pub tx_starts: usize,
    /// How many times the receiver enable task was triggered.
    pub rx_starts: usize,
    /// How many frames were loaded for transmission.
    pub loads: usize,
}

impl SimRadio {
    /// Whether the stored reception bytes are a well-formed frame for the
    /// configured maximum payload.
    pub open spec fn received_ok(&self) -> bool {
        &&& self.received_buf@.len() >= 2
        &&& self.received_buf@.len() == 2 + self.received_buf@[0]
        &&& self.received_buf@[0] <= self.max_payload_len
    }

    /// Creates a powered-down device: no events, no short-cuts, masked
    /// interrupts, empty buffers.
    pub fn new() -> (r: Self)
        ensures
            !r.disabled_event(),
            !r.irq_disabled(),
            !r.short_rxen(),
            !r.short_txen(),
            r.max_payload() == 0,
            r.tx_loaded() =~= Seq::<u8>::empty(),
            r.tx_starts == 0,
            r.rx_starts == 0,
            r.loads == 0,
    {
        SimRadio {
            max_payload_len: 0,
            disabled_flag: false,
            irq_disabled_flag: false,
            irq_ready_flag: false,
            short_rxen_flag: false,
            short_txen_flag: false,
            tx_address_reg: 0,
            rx_addresses_reg: 0,
            tx_loaded_buf: Vec::new(),
            crc_ok_flag: false,
            rx_pipe_reg: 0,
            rx_crc_reg: 0,
            rssi_reg: 0,
            received_buf: Vec::new(),
            configured: None,
            tx_starts: 0,
            rx_starts: 0,
            loads: 0,
        }
    }

    /// Plays a reception: the packet's bytes land in the receive buffer,
    /// the match, CRC and signal strength registers latch, and the
    /// `disabled` event fires as it does at the end of a reception.
    ///
    /// `dma` is what the air delivered, starting at the length byte: the
    /// length, the pid_no_ack byte and exactly `length` payload bytes, no
    /// longer than the configured maximum payload.
    pub fn deliver(&mut self, pipe: u8, crc: u16, rssi: u8, crc_ok: bool, dma: Vec<u8>)
        requires
            pipe <= 7,
            dma@.len() >= 2,
            dma@.len() == 2 + dma@[0],
            dma@[0] <= old(self).max_payload(),
        ensures
            final(self).received() == dma@,
            final(self).rx_pipe() == pipe,
            final(self).rx_crc() == crc,
            final(self).rssi_sample() == rssi,
            final(self).crc_ok() == crc_ok,
            final(self).disabled_event(),
            final(self).max_payload() == old(self).max_payload(),
            final(self).irq_disabled() == old(self).irq_disabled(),
            final(self).short_rxen() == old(self).short_rxen(),
            final(self).short_txen() == old(self).short_txen(),
            final(self).tx_address() == old(self).tx_address(),
            final(self).rx_addresses() == old(self).rx_addresses(),
            final(self).tx_loaded() == old(self).tx_loaded(),
    {
        self.rx_pipe_reg = pipe;
        self.rx_crc_reg = crc;
        self.rssi_reg = rssi;
        self.crc_ok_flag = crc_ok;
        self.received_buf = dma;
        self.disabled_flag = true;
        proof {
            assert((pipe & 7) == pipe) by (bit_vector)
                requires
                    pipe <= 7,
            ;
        }
    }

    /// Latches the `disabled` event, as the hardware does when a
    /// transmission or a disable request completes.
    pub fn fire_disabled(&mut self)
        ensures
            *final(self) == (SimRadio { disabled_flag: true, ..*old(self) }),
    {
        self.disabled_flag = true;
    }
}

impl RadioDevice for SimRadio {
    open spec fn disabled_event(&self) -> bool {
        self.disabled_flag
    }

    open spec fn irq_disabled(&self) -> bool {
        self.irq_disabled_flag
    }

    open spec fn short_rxen(&self) -> bool {
        self.short_rxen_flag
    }

    open spec fn short_txen(&self) -> bool {
        self.short_txen_flag
    }

    open spec fn tx_address(&self) -> u8 {
        self.tx_address_reg
    }

    open spec fn rx_addresses(&self) -> u8 {
        self.rx_addresses_reg
    }

    open spec fn tx_loaded(&self) -> Seq<u8> {
        self.tx_loaded_buf@
    }

    open spec fn crc_ok(&self) -> bool {
        self.crc_ok_flag
    }

    open spec fn rx_pipe(&self) -> u8 {
        self.rx_pipe_reg & 7
    }

    open spec fn rx_crc(&self) -> u16 {
        self.rx_crc_reg
    }

    open spec fn rssi_sample(&self) -> u8 {
        self.rssi_reg
    }

    open spec fn received(&self) -> Seq<u8> {
        if self.received_ok() {
            self.received_buf@
        } else {
            seq![0u8, 0u8]
        }
    }

    open spec fn max_payload(&self) -> u8 {
        self.max_payload_len
    }

    fn configure(&mut self, settings: &RadioSettings) {
        self.max_payload_len = settings.max_payload;
        self.short_rxen_flag = false;
        self.short_txen_flag = false;
        self.irq_disabled_flag = false;
        self.disabled_flag = false;
        self.configured = Some(*settings);
    }

    fn check_disabled_event(&self) -> (r: bool) {
        self.disabled_flag
    }

    fn clear_disabled_event(&mut self) {
        self.disabled_flag = false;
    }

    fn enable_interrupt_disabled(&mut self, ready: bool) {
        self.irq_disabled_flag = true;
        if ready {
            self.irq_ready_flag = true;
        }
    }

    fn disable_interrupt_disabled(&mut self) {
        self.irq_disabled_flag = false;
    }

    fn set_short_disabled_rxen(&mut self, enabled: bool) {
        self.short_rxen_flag = enabled;
    }

    fn set_short_disabled_txen(&mut self, enabled: bool) {
        self.short_txen_flag = enabled;
    }

    fn set_tx_address(&mut self, pipe: u8) {
        self.tx_address_reg = pipe;
    }

    fn set_rx_addresses(&mut self, mask: u8) {
        self.rx_addresses_reg = mask;
    }

    fn load_transmit(&mut self, frame: &[u8]) {
        let mut copied: Vec<u8> = Vec::new();
        let mut i: usize = 0;
        while i < frame.len()
            invariant
                i <= frame@.len(),
                copied@ =~= frame@.take(i as int),
            decreases frame@.len() - i,
        {
            copied.push(frame[i]);
            i = i + 1;
        }
        proof {
            assert(frame@.take(frame@.len() as int) =~= frame@);
        }
        self.tx_loaded_buf = copied;
        if self.loads < usize::MAX {
            self.loads = self.loads + 1;
        }
    }

    fn start_tx(&mut self) {
        if self.tx_starts < usize::MAX {
            self.tx_starts = self.tx_starts + 1;
        }
    }

    fn start_rx(&mut self) {
        if self.rx_starts < usize::MAX {
            self.rx_starts = self.rx_starts + 1;
        }
    }

    fn disable_and_wait(&mut self) {
        self.disabled_flag = false;
    }

    fn read_crc_ok(&self) -> (r: bool) {
        self.crc_ok_flag
    }

    fn read_rx_pipe(&self) -> (r: u8) {
        let r = self.rx_pipe_reg & 7;
        proof {
            let reg = self.rx_pipe_reg;
            assert((reg & 7) <= 7) by (bit_vector);
        }
        r
    }

    fn read_rx_crc(&self) -> (r: u16) {
        self.rx_crc_reg
    }

    fn read_rssi(&self) -> (r: u8) {
        self.rssi_reg
    }

    fn read_received(&self) -> (r: Vec<u8>) {
        let ok = self.received_buf.len() >= 2 && self.received_buf.len() == 2
            + self.received_buf[0] as usize && self.received_buf[0] <= self.max_payload_len;
        if ok {
            self.received_buf.clone()
        } else {
            vec![0u8, 0u8]
        }
    }
}

} // verus!
