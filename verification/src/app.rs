//! The application-side interface and the radio addresses.

use vstd::prelude::*;

use crate::buffer::EsbBuffer;
use crate::payload::EsbHeader;
use crate::payload::PayloadR;
use crate::payload::PayloadW;
use crate::payload::HEADER_SIZE;
use crate::queue::GrantError;
use crate::Error;

verus! {

/// This is the primary application-side interface.
///
/// It is intended to be used outside of the radio interrupt, and allows for
/// sending or receiving packets through the shared [`EsbBuffer`].
pub struct EsbApp {
    /// The configured maximum payload size in bytes.
    pub maximum_payload: u8,
}

impl EsbApp {
    pub open spec fn wf(&self) -> bool {
        self.maximum_payload <= 252
    }

    /// Obtains a grant for an outgoing packet to be sent over the radio.
    ///
    /// On success the returned [`PayloadW`] holds the serialized header
    /// followed by `header.length` writable payload bytes. A header longer
    /// than the configured maximum is rejected with
    /// [`Error::MaximumPacketExceeded`]; a queue without room for the packet
    /// yields [`Error::OutgoingQueueFull`]; an earlier grant that was neither
    /// committed nor abandoned yields [`Error::GrantInProgress`].
    pub fn grant_packet(&mut self, buffer: &mut EsbBuffer, header: EsbHeader) -> (r: Result<
        PayloadW,
        Error,
    >)
        requires
            old(buffer).wf(),
            self.wf(),
            header.wf(),
        ensures
            final(buffer).wf(),
            *final(self) == *old(self),
            final(buffer).app_to_radio@ == old(buffer).app_to_radio@,
            final(buffer).radio_to_app == old(buffer).radio_to_app,
            final(buffer).timer_flag == old(buffer).timer_flag,
            final(buffer).radio_pending == old(buffer).radio_pending,
            final(buffer).split == old(buffer).split,
            final(buffer).app_to_radio.spec_capacity() == old(buffer).app_to_radio.spec_capacity(),
            r is Ok <==> {
                &&& header.length <= old(self).maximum_payload
                &&& !old(buffer).app_to_radio.write_in_progress()
                &&& crate::queue::frame_bytes(old(buffer).app_to_radio@) + HEADER_SIZE
                    + header.length <= old(buffer).app_to_radio.spec_capacity()
            },
            r is Ok ==> {
                &&& r->Ok_0@ == header.spec_to_bytes() + Seq::new(header.length as nat, |i: int| 0u8)
                &&& r->Ok_0.wf()
                &&& final(buffer).app_to_radio.write_in_progress()
                &&& final(buffer).app_to_radio.reserved() == HEADER_SIZE + header.length
            },
            r is Err ==> *final(buffer) == *old(buffer),
            header.length > old(self).maximum_payload <==> r == Err::<PayloadW, Error>(
                Error::MaximumPacketExceeded,
            ),
            header.length <= old(self).maximum_payload && old(
                buffer,
            ).app_to_radio.write_in_progress() <==> r == Err::<PayloadW, Error>(
                Error::GrantInProgress,
            ),
            header.length <= old(self).maximum_payload && !old(
                buffer,
            ).app_to_radio.write_in_progress() && crate::queue::frame_bytes(
                old(buffer).app_to_radio@,
            ) + HEADER_SIZE + header.length > old(buffer).app_to_radio.spec_capacity() <==> r
                == Err::<PayloadW, Error>(Error::OutgoingQueueFull),
    {
        if header.length > self.maximum_payload {
            return Err(Error::MaximumPacketExceeded);
        }
        let size = header.payload_len() + HEADER_SIZE;
        match buffer.app_to_radio.grant_write(size) {
            Ok(grant) => {
                proof {
                    assert(grant@.skip(HEADER_SIZE as int) =~= Seq::new(
                        header.length as nat,
                        |i: int| 0u8,
                    ));
                }
                Ok(PayloadW::new_from_app(grant, header))
            },
            Err(GrantError::InProgress) => Err(Error::GrantInProgress),
            Err(GrantError::InsufficientSize) => Err(Error::OutgoingQueueFull),
        }
    }

    /// Asks the radio interrupt to start sending the queued packets.
    ///
    /// The radio sends until the queue is drained; this method must be
    /// called again if the queue was completely drained before new packets
    /// were committed.
    pub fn start_tx(&mut self, buffer: &mut EsbBuffer)
        ensures
            *final(self) == *old(self),
            *final(buffer) == (EsbBuffer { radio_pending: true, ..*old(buffer) }),
    {
        buffer.radio_pending = true;
    }

    /// Whether a received packet is ready to be read: `true` exactly when
    /// [`read_packet`](Self::read_packet) would return a packet.
    pub fn msg_ready(&self, buffer: &EsbBuffer) -> (r: bool)
        ensures
            r <==> buffer.radio_to_app@.len() > 0,
    {
        match buffer.radio_to_app.read_next() {
            Some(_) => true,
            None => false,
        }
    }

    /// Attempts to read a packet that has been received over the radio.
    ///
    /// Reading does not free the queue space: the packet stays available
    /// until the returned grant is released.
    pub fn read_packet(&mut self, buffer: &mut EsbBuffer) -> (r: Option<PayloadR>)
        ensures
            *final(self) == *old(self),
            *final(buffer) == *old(buffer),
            r is Some <==> old(buffer).radio_to_app@.len() > 0,
            r is Some ==> r->Some_0@ == old(buffer).radio_to_app@[0],
            r is Some && crate::peripherals::in_frames_wf(old(buffer).radio_to_app@)
                ==> r->Some_0.wf(),
    {
        match buffer.radio_to_app.read_next() {
            Some(frame) => Some(PayloadR::new(frame)),
            None => None,
        }
    }

    /// The maximum payload size, in bytes, that the driver was configured to
    /// use.
    pub fn maximum_payload_size(&self) -> (r: usize)
        ensures
            r == self.maximum_payload as usize,
    {
        self.maximum_payload as usize
    }
}

/// Addresses used for communication.
///
/// ESB uses up to eight pipes to address communication; each pipe has a
/// unique address composed of a base address and a prefix. Pipe 0 has its
/// own base and prefix, while the other pipes share a base address but have
/// different prefixes.
#[derive(Debug, Clone, Copy)]
pub struct Addresses {
    /// Base address for pipe 0.
    pub base0: [u8; 4],
    /// Base address for pipes 1-7.
    pub base1: [u8; 4],
    /// Prefixes for pipes 0-3, in order.
    pub prefixes0: [u8; 4],
    /// Prefixes for pipes 4-7, in order.
    pub prefixes1: [u8; 4],
    /// Channel to be used by the radio hardware; must be between 0 and 100.
    pub rf_channel: u8,
}

impl Addresses {
    pub open spec fn wf(&self) -> bool {
        self.rf_channel <= 100
    }

    /// Creates a new instance of `Addresses`.
    ///
    /// A channel over 100 is rejected with [`Error::InvalidParameters`].
    pub fn new(
        base0: [u8; 4],
        base1: [u8; 4],
        prefixes0: [u8; 4],
        prefixes1: [u8; 4],
        rf_channel: u8,
    ) -> (r: Result<Self, Error>)
        ensures
            r is Ok <==> rf_channel <= 100,
            r is Ok ==> r->Ok_0 == (Addresses { base0, base1, prefixes0, prefixes1, rf_channel }),
            r is Err ==> r->Err_0 == Error::InvalidParameters,
    {
        if rf_channel > 100 {
            return Err(Error::InvalidParameters);
        }
        Ok(Self { base0, base1, prefixes0, prefixes1, rf_channel })
    }
}

impl Default for Addresses {
    fn default() -> (r: Self)
        ensures
            r == (Addresses {
                base0: [0xE7u8, 0xE7, 0xE7, 0xE7],
                base1: [0xC2u8, 0xC2, 0xC2, 0xC2],
                prefixes0: [0xE7u8, 0xC2, 0xC3, 0xC4],
                prefixes1: [0xC5u8, 0xC6, 0xC7, 0xC8],
                rf_channel: 2u8,
            }),
            r.wf(),
    {
        Self {
            base0: [0xE7, 0xE7, 0xE7, 0xE7],
            base1: [0xC2, 0xC2, 0xC2, 0xC2],
            prefixes0: [0xE7, 0xC2, 0xC3, 0xC4],
            prefixes1: [0xC5, 0xC6, 0xC7, 0xC8],
            rf_channel: 2,
        }
    }
}

} // verus!
