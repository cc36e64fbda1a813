//! In-queue packet framing.
//!
//! A queued packet is laid out as a four-byte header followed by the payload:
//!
//! | software use                   | DMA part                                          |
//! | rssi - 1 byte | pipe - 1 byte  | length - 1 byte | pid_no_ack - 1 byte | payload   |
//!
//! The two DMA bytes and the payload are what the radio hardware consumes,
//! so the byte order of the header is significant. [`PayloadW`] and
//! [`PayloadR`] are the typed write and read handles over one framed packet.

use vstd::prelude::*;

use crate::queue::FramedQueue;
use crate::Error;

verus! {

/// Number of header bytes in front of the payload of every queued packet.
pub const HEADER_SIZE: usize = 4;

/// The non-payload portion of an ESB packet.
///
/// A header built through [`EsbHeaderBuilder`] or [`EsbHeader::new`] always
/// satisfies [`EsbHeader::wf`].
#[derive(Debug, Clone, Copy, PartialEq, Eq, Structural)]
pub struct EsbHeader {
    /// Received signal strength indication, filled by the driver on receive.
    pub rssi: u8,
    /// The pipe of the packet, in `0..=7`.
    pub pipe: u8,
    /// The payload length in bytes, in `0..=252`.
    pub length: u8,
    /// The 2-bit packet id in bits 2..1 and the acknowledgement bit in bit 0;
    /// a cleared bit 0 means that no acknowledgement is requested.
    pub pid_no_ack: u8,
}

/// The packed representation of an [`EsbHeader`].
pub struct HeaderBytes(pub [u8; 4]);

impl EsbHeader {
    /// The field ranges that [`EsbHeaderBuilder::check`] enforces.
    pub open spec fn wf(self) -> bool {
        &&& self.length <= 252
        &&& self.pipe <= 7
        &&& self.pid_no_ack <= 7
    }

    /// The packed byte layout: rssi, pipe, then the two DMA bytes
    /// length and pid_no_ack.
    pub open spec fn spec_to_bytes(self) -> Seq<u8> {
        seq![self.rssi, self.pipe, self.length, self.pid_no_ack]
    }

    /// The header encoded in four packed bytes.
    pub open spec fn spec_from_bytes(s: Seq<u8>) -> EsbHeader
        recommends
            s.len() == 4,
    {
        EsbHeader { rssi: s[0], pipe: s[1], length: s[2], pid_no_ack: s[3] }
    }

    /// Creates a new packet header using a builder pattern.
    pub fn build() -> (r: EsbHeaderBuilder)
        ensures
            r.0 == (EsbHeader { rssi: 0, pipe: 0, length: 0, pid_no_ack: 0 }),
    {
        EsbHeaderBuilder::default()
    }

    /// Creates a new packet header.
    ///
    /// Valid values: `max_payload_length` between 0 and 252, `pid` between 0
    /// and 3, `pipe` between 0 and 7, each inclusive. Out-of-range values are
    /// rejected with [`Error::InvalidParameters`].
    pub fn new(max_payload_length: u8, pid: u8, pipe: u8, no_ack: bool) -> (r: Result<
        Self,
        Error,
    >)
        ensures
            ({
                let built = EsbHeader {
                    rssi: 0,
                    pipe: pipe,
                    length: max_payload_length,
                    pid_no_ack: (pid << 1) | (if no_ack { 0u8 } else { 1u8 }),
                };
                &&& r is Ok <==> built.wf()
                &&& r is Ok ==> r->Ok_0 == built
                &&& r is Err ==> r->Err_0 == Error::InvalidParameters
            }),
            max_payload_length <= 252 && pid <= 3 && pipe <= 7 ==> r is Ok,
    {
        proof {
            assert(pid <= 3 ==> ((pid << 1) | 0u8) <= 7 && ((pid << 1) | 1u8) <= 7)
                by (bit_vector);
            // The shifted id has a cleared low bit, so masking it off changes
            // nothing and an or with zero is the value itself.
            assert(((pid << 1) & 0xFEu8) == ((pid << 1) | 0u8) && ((pid << 1) | 0u8) == (pid << 1))
                by (bit_vector);
            assert((((pid << 1) | 1u8) & 1u8) == 1u8 && (((pid << 1) | 1u8) | 1u8) == ((pid << 1)
                | 1u8)) by (bit_vector);
            assert(((0u8 & 1u8) | (pid << 1)) == (pid << 1)) by (bit_vector);
        }
        EsbHeaderBuilder::default().max_payload(max_payload_length).pid(pid).pipe(pipe).no_ack(
            no_ack,
        ).check()
    }

    /// Converts into the packed representation used for data queuing.
    pub fn into_bytes(self) -> (r: HeaderBytes)
        ensures
            r.0@ == self.spec_to_bytes(),
    {
        let bytes: [u8; 4] = [self.rssi, self.pipe, self.length, self.pid_no_ack];
        proof {
            assert(bytes@ =~= self.spec_to_bytes());
        }
        HeaderBytes(bytes)
    }

    /// Converts from the packed representation.
    pub fn from_bytes(bytes: HeaderBytes) -> (r: Self)
        ensures
            r == EsbHeader::spec_from_bytes(bytes.0@),
    {
        Self { rssi: bytes.0[0], pipe: bytes.0[1], length: bytes.0[2], pid_no_ack: bytes.0[3] }
    }

    /// Accessor for the packet id of the packet.
    pub fn pid(self) -> (r: u8)
        ensures
            r == self.pid_no_ack >> 1,
    {
        self.pid_no_ack >> 1
    }

    /// Accessor for the no-ack field of the packet.
    pub fn no_ack(self) -> (r: bool)
        ensures
            r == ((self.pid_no_ack & 1) != 1),
    {
        self.pid_no_ack & 1 != 1
    }

    /// Accessor for the length, in bytes, of the payload.
    pub fn payload_len(self) -> (r: usize)
        ensures
            r == self.length as usize,
    {
        self.length as usize
    }

    /// Accessor for the rssi of the payload.
    pub fn rssi(self) -> (r: u8)
        ensures
            r == self.rssi,
    {
        self.rssi
    }

    /// Byte index of the rssi field.
    pub fn rssi_idx() -> (r: usize)
        ensures
            r == 0,
    {
        0
    }

    /// Byte index of the pipe field.
    pub fn pipe_idx() -> (r: usize)
        ensures
            r == 1,
    {
        1
    }

    /// Byte index of the payload length field; consumed by the radio, so it
    /// must stay at this offset.
    pub fn length_idx() -> (r: usize)
        ensures
            r == 2,
    {
        2
    }

    /// Byte index of the pid_no_ack field; consumed by the radio, so it must
    /// stay at this offset.
    pub fn pid_no_ack_idx() -> (r: usize)
        ensures
            r == 3,
    {
        3
    }

    /// Size of the packed header in bytes.
    pub fn header_size() -> (r: usize)
        ensures
            r == HEADER_SIZE,
    {
        HEADER_SIZE
    }

    /// Offset of the first byte that the radio consumes.
    pub fn dma_payload_offset() -> (r: usize)
        ensures
            r == 2,
    {
        2
    }
}

/// The packed header encoding loses nothing: a header survives the trip into
/// its four bytes and back, and four bytes survive the trip into a header and
/// back.
pub proof fn lemma_header_round_trip(h: EsbHeader, s: Seq<u8>)
    requires
        s.len() == 4,
    ensures
        EsbHeader::spec_from_bytes(h.spec_to_bytes()) == h,
        EsbHeader::spec_from_bytes(s).spec_to_bytes() =~= s,
{
}

/// A builder for an [`EsbHeader`] structure.
///
/// The builder is converted into an [`EsbHeader`] by calling the
/// [`check`](EsbHeaderBuilder::check) method.
#[derive(Debug, Clone, PartialEq, Eq, Structural)]
pub struct EsbHeaderBuilder(pub EsbHeader);

impl Default for EsbHeaderBuilder {
    fn default() -> (r: Self)
        ensures
            r.0 == (EsbHeader { rssi: 0, pipe: 0, length: 0, pid_no_ack: 0 }),
    {
        EsbHeaderBuilder(EsbHeader { rssi: 0, pid_no_ack: 0, length: 0, pipe: 0 })
    }
}

impl EsbHeaderBuilder {
    /// Sets the pipe. Must be in the range 0..=7.
    pub fn pipe(self, pipe: u8) -> (r: Self)
        ensures
            r.0 == (EsbHeader { pipe: pipe, ..self.0 }),
    {
        let mut header = self.0;
        header.pipe = pipe;
        EsbHeaderBuilder(header)
    }

    /// Sets the maximum payload length. Must be in the range 0..=252.
    pub fn max_payload(self, max_payload: u8) -> (r: Self)
        ensures
            r.0 == (EsbHeader { length: max_payload, ..self.0 }),
    {
        let mut header = self.0;
        header.length = max_payload;
        EsbHeaderBuilder(header)
    }

    /// Enables or disables the acknowledgement request. The bit is
    /// active-low in the over-the-air encoding: a set bit requests an
    /// acknowledgement.
    pub fn no_ack(self, no_ack: bool) -> (r: Self)
        ensures
            r.0 == (EsbHeader {
                pid_no_ack: if no_ack {
                    self.0.pid_no_ack & 0xFE
                } else {
                    self.0.pid_no_ack | 1
                },
                ..self.0
            }),
    {
        let mut header = self.0;
        if no_ack {
            header.pid_no_ack = header.pid_no_ack & 0b1111_1110;
        } else {
            header.pid_no_ack = header.pid_no_ack | 0b0000_0001;
        }
        EsbHeaderBuilder(header)
    }

    /// Sets the packet id. Must be in the range 0..=3.
    pub fn pid(self, pid: u8) -> (r: Self)
        ensures
            r.0 == (EsbHeader {
                pid_no_ack: (self.0.pid_no_ack & 1) | (pid << 1),
                ..self.0
            }),
    {
        let mut header = self.0;
        header.pid_no_ack = (header.pid_no_ack & 0b0000_0001) | (pid << 1);
        EsbHeaderBuilder(header)
    }

    /// Finalizes the header.
    ///
    /// Returns [`Error::InvalidParameters`] if the set parameters are out of
    /// range: a length over 252, a pipe over 7, or a packet id over 3.
    pub fn check(self) -> (r: Result<EsbHeader, Error>)
        ensures
            r is Ok <==> self.0.wf(),
            r is Ok ==> r->Ok_0 == self.0,
            r is Err ==> r->Err_0 == Error::InvalidParameters,
    {
        let bad_length = self.0.length > 252;
        let bad_pipe = self.0.pipe > 7;
        // The packet id is stored shifted left by one, so a stored value over
        // 0b111 means the id exceeded 3.
        let bad_pid = self.0.pid_no_ack > 0b0000_0111;

        if bad_length || bad_pid || bad_pipe {
            return Err(Error::InvalidParameters);
        }
        Ok(self.0)
    }
}

/// A handle over a readable framed packet.
///
/// It exposes the bytes of a packet that was either committed by the
/// application and is being consumed by the radio, or committed by the radio
/// and is being consumed by the application. The underlying frame stays at
/// the front of its queue until [`release`](PayloadR::release) is called.
pub struct PayloadR {
    /// The frame bytes: the four header bytes followed by the payload.
    pub data: Vec<u8>,
}

impl View for PayloadR {
    type V = Seq<u8>;

    open spec fn view(&self) -> Seq<u8> {
        self.data@
    }
}

impl PayloadR {
    /// Frames committed through [`PayloadW`] carry a correct length byte.
    pub open spec fn wf(&self) -> bool {
        &&& self@.len() >= HEADER_SIZE
        &&& self@.len() == HEADER_SIZE + self@[2]
    }

    /// The header encoded in the first four bytes.
    pub open spec fn spec_header(&self) -> EsbHeader {
        EsbHeader::spec_from_bytes(self@.subrange(0, 4))
    }

    /// Wraps a frame read from a framed queue.
    pub(crate) fn new(data: Vec<u8>) -> (r: Self)
        ensures
            r@ == data@,
    {
        PayloadR { data }
    }

    /// A copy of the header encoded in the current grant.
    pub fn get_header(&self) -> (r: EsbHeader)
        requires
            self@.len() >= HEADER_SIZE,
        ensures
            r == self.spec_header(),
    {
        let bytes: [u8; 4] = [self.data[0], self.data[1], self.data[2], self.data[3]];
        proof {
            assert(bytes@ =~= self@.subrange(0, 4));
        }
        EsbHeader::from_bytes(HeaderBytes(bytes))
    }

    /// The part of the frame that the radio consumes: the length and
    /// pid_no_ack bytes followed by the payload.
    pub fn dma_slice(&self) -> (r: &[u8])
        requires
            self@.len() >= 2,
        ensures
            r@ == self@.skip(2),
    {
        vstd::slice::slice_subrange(self.data.as_slice(), 2, self.data.len())
    }

    /// An accessor for the pipe of the current grant.
    pub fn pipe(&self) -> (r: u8)
        requires
            self@.len() >= HEADER_SIZE,
        ensures
            r == self@[1],
    {
        self.data[1]
    }

    /// An accessor for the packet id of the current grant.
    pub fn pid(&self) -> (r: u8)
        requires
            self@.len() >= HEADER_SIZE,
        ensures
            r == self@[3] >> 1,
    {
        self.data[3] >> 1
    }

    /// An accessor for the no-ack field of the current grant.
    pub fn no_ack(&self) -> (r: bool)
        requires
            self@.len() >= HEADER_SIZE,
        ensures
            r == ((self@[3] & 1) != 1),
    {
        self.data[3] & 1 != 1
    }

    /// An accessor for the payload size of the current grant.
    pub fn payload_len(&self) -> (r: usize)
        requires
            self@.len() >= HEADER_SIZE,
        ensures
            r == self@[2] as usize,
    {
        self.data[2] as usize
    }

    /// Read-only access to the payload of the grant.
    pub fn payload(&self) -> (r: &[u8])
        requires
            self@.len() >= HEADER_SIZE,
        ensures
            r@ == self@.skip(HEADER_SIZE as int),
    {
        vstd::slice::slice_subrange(self.data.as_slice(), HEADER_SIZE, self.data.len())
    }

    /// Marks the packet as read and releases its space in the queue it was
    /// read from. Without this call the next read returns the same packet.
    pub fn release(self, queue: &mut FramedQueue)
        requires
            old(queue).wf(),
            old(queue)@.len() > 0,
            old(queue)@[0] == self@,
        ensures
            final(queue).wf(),
            final(queue)@ == old(queue)@.drop_first(),
            final(queue).write_in_progress() == old(queue).write_in_progress(),
            final(queue).reserved() == old(queue).reserved(),
            final(queue).spec_capacity() == old(queue).spec_capacity(),
    {
        queue.release()
    }
}

/// A handle over a writable framed packet under an outstanding write grant.
///
/// The packet is not visible to the consumer side until it is committed;
/// abandoning the handle instead frees the reservation and yields no frame.
pub struct PayloadW {
    /// The frame bytes being composed: four header bytes then the payload.
    pub data: Vec<u8>,
}

impl View for PayloadW {
    type V = Seq<u8>;

    open spec fn view(&self) -> Seq<u8> {
        self.data@
    }
}

impl PayloadW {
    /// A write grant covers at least the header and at most a full-size
    /// packet, and its length byte never exceeds the payload room.
    pub open spec fn wf(&self) -> bool {
        &&& HEADER_SIZE <= self@.len() <= HEADER_SIZE + 252
        &&& self@[2] + HEADER_SIZE <= self@.len()
    }

    /// Obtains a writable grant from the application side, with the header
    /// already serialized in front.
    pub(crate) fn new_from_app(grant: Vec<u8>, header: EsbHeader) -> (r: Self)
        requires
            HEADER_SIZE <= grant@.len() <= HEADER_SIZE + 252,
            header.length + HEADER_SIZE <= grant@.len(),
        ensures
            r@ == header.spec_to_bytes() + grant@.skip(HEADER_SIZE as int),
            r.wf(),
    {
        let ghost orig = grant@;
        let mut data = grant;
        data[0] = header.rssi;
        data[1] = header.pipe;
        data[2] = header.length;
        data[3] = header.pid_no_ack;
        proof {
            assert(data@ =~= header.spec_to_bytes() + orig.skip(HEADER_SIZE as int));
        }
        PayloadW { data }
    }

    /// Obtains a writable grant from the radio side; the header is filled in
    /// by the radio upon reception.
    pub(crate) fn new_from_radio(grant: Vec<u8>) -> (r: Self)
        requires
            HEADER_SIZE <= grant@.len() <= HEADER_SIZE + 252,
            grant@[2] + HEADER_SIZE <= grant@.len(),
        ensures
            r@ == grant@,
            r.wf(),
    {
        PayloadW { data: grant }
    }

    /// Updates the header contained within this grant.
    ///
    /// The length of the packet cannot grow past the capacity of the grant:
    /// a larger `length` field is truncated to the grant capacity minus the
    /// header size.
    pub fn update_header(&mut self, header: EsbHeader)
        requires
            old(self).wf(),
        ensures
            final(self).wf(),
            ({
                let truncated = if header.length + HEADER_SIZE <= old(self)@.len() {
                    header.length
                } else {
                    (old(self)@.len() - HEADER_SIZE) as u8
                };
                final(self)@ == (EsbHeader { length: truncated, ..header }).spec_to_bytes() + old(
                    self,
                )@.skip(HEADER_SIZE as int)
            }),
    {
        let payload_max = self.data.len() - HEADER_SIZE;
        let length = if (header.length as usize) <= payload_max {
            header.length
        } else {
            payload_max as u8
        };
        self.data[0] = header.rssi;
        self.data[1] = header.pipe;
        self.data[2] = length;
        self.data[3] = header.pid_no_ack;
        proof {
            let truncated = if header.length + HEADER_SIZE <= old(self)@.len() {
                header.length
            } else {
                (old(self)@.len() - HEADER_SIZE) as u8
            };
            assert(self@ =~= (EsbHeader { length: truncated, ..header }).spec_to_bytes() + old(
                self,
            )@.skip(HEADER_SIZE as int));
        }
    }

    /// Overwrites the part of the frame that the radio produces on
    /// reception: the length and pid_no_ack bytes and the payload.
    pub(crate) fn fill_dma_part(&mut self, bytes: &Vec<u8>)
        requires
            old(self).wf(),
            bytes@.len() >= 2,
            bytes@.len() == bytes@[0] + 2,
            2 + bytes@.len() <= old(self)@.len(),
        ensures
            final(self).wf(),
            final(self)@ == old(self)@.take(2) + bytes@ + old(self)@.skip((2 + bytes@.len()) as int),
            final(self)@.len() == old(self)@.len(),
    {
        let mut i: usize = 0;
        while i < bytes.len()
            invariant
                old(self).wf(),
                bytes@.len() >= 2,
                2 + bytes@.len() <= old(self)@.len(),
                i <= bytes@.len(),
                self@.len() == old(self)@.len(),
                self@ =~= old(self)@.take(2) + bytes@.take(i as int) + old(self)@.skip(2 + i),
            decreases bytes@.len() - i,
        {
            self.data[2 + i] = bytes[i];
            proof {
                assert(self@ =~= old(self)@.take(2) + bytes@.take(i + 1) + old(self)@.skip(
                    2 + i + 1,
                ));
            }
            i = i + 1;
        }
        proof {
            assert(bytes@.take(bytes@.len() as int) =~= bytes@);
            assert(self@ =~= old(self)@.take(2) + bytes@ + old(self)@.skip((2 + bytes@.len()) as int));
        }
    }

    /// Updates the pipe field. The pipe must be between 0 and 7, inclusive.
    pub(crate) fn set_pipe(&mut self, pipe: u8)
        requires
            old(self).wf(),
        ensures
            final(self).wf(),
            final(self)@ == old(self)@.update(1, pipe),
    {
        self.data[1] = pipe;
    }

    /// Updates the rssi field.
    pub(crate) fn set_rssi(&mut self, rssi: u8)
        requires
            old(self).wf(),
        ensures
            final(self).wf(),
            final(self)@ == old(self)@.update(0, rssi),
    {
        self.data[0] = rssi;
    }

    /// An accessor for the pipe of the current grant.
    pub fn pipe(&self) -> (r: u8)
        requires
            self@.len() >= HEADER_SIZE,
        ensures
            r == self@[1],
    {
        self.data[1]
    }

    /// An accessor for the packet id of the current grant.
    pub fn pid(&self) -> (r: u8)
        requires
            self@.len() >= HEADER_SIZE,
        ensures
            r == self@[3] >> 1,
    {
        self.data[3] >> 1
    }

    /// An accessor for the no-ack field of the current grant.
    pub fn no_ack(&self) -> (r: bool)
        requires
            self@.len() >= HEADER_SIZE,
        ensures
            r == ((self@[3] & 1) != 1),
    {
        self.data[3] & 1 != 1
    }

    /// An accessor for the maximum payload size of the current grant.
    pub fn payload_len(&self) -> (r: usize)
        requires
            self@.len() >= HEADER_SIZE,
        ensures
            r == self@[2] as usize,
    {
        self.data[2] as usize
    }

    /// Writes `src` at the start of the payload region.
    pub fn copy_from_slice(&mut self, src: &[u8])
        requires
            old(self).wf(),
            HEADER_SIZE + src@.len() <= old(self)@.len(),
        ensures
            final(self).wf(),
            final(self)@ == old(self)@.take(HEADER_SIZE as int) + src@ + old(self)@.skip(
                (HEADER_SIZE + src@.len()) as int,
            ),
            final(self)@.len() == old(self)@.len(),
    {
        let mut i: usize = 0;
        while i < src.len()
            invariant
                old(self).wf(),
                HEADER_SIZE + src@.len() <= old(self)@.len(),
                i <= src@.len(),
                self@.len() == old(self)@.len(),
                self@ =~= old(self)@.take(HEADER_SIZE as int) + src@.take(i as int) + old(
                    self,
                )@.skip(HEADER_SIZE + i),
            decreases src@.len() - i,
        {
            let b = src[i];
            self.data[HEADER_SIZE + i] = b;
            proof {
                assert(self@ =~= old(self)@.take(HEADER_SIZE as int) + src@.take(i + 1) + old(
                    self,
                )@.skip(HEADER_SIZE + i + 1));
            }
            i = i + 1;
        }
        proof {
            assert(src@.take(src@.len() as int) =~= src@);
            assert(self@ =~= old(self)@.take(HEADER_SIZE as int) + src@ + old(self)@.skip(
                (HEADER_SIZE + src@.len()) as int,
            ));
        }
    }

    /// Commits the granted packet, including the first `used` bytes of the
    /// payload. If `used` exceeds the length of the grant, the packet is
    /// truncated. The committed frame consists of the header and exactly
    /// `min(used, length)` payload bytes.
    pub fn commit(self, used: usize, queue: &mut FramedQueue)
        requires
            old(queue).wf(),
            old(queue).write_in_progress(),
            self.wf(),
            self@.len() <= old(queue).reserved(),
        ensures
            final(queue).wf(),
            !final(queue).write_in_progress(),
            final(queue).spec_capacity() == old(queue).spec_capacity(),
            ({
                let committed = if used < self@[2] {
                    used as int
                } else {
                    self@[2] as int
                };
                &&& final(queue)@ == old(queue)@.push(
                    self@.update(2, committed as u8).take(HEADER_SIZE + committed),
                )
                &&& final(queue)@.last().len() == HEADER_SIZE + committed
            }),
    {
        let payload_len = if used < self.data[2] as usize {
            used
        } else {
            self.data[2] as usize
        };
        let mut data = self.data;
        data[2] = payload_len as u8;
        data.truncate(HEADER_SIZE + payload_len);
        proof {
            let committed = if used < self@[2] {
                used as int
            } else {
                self@[2] as int
            };
            assert(data@ =~= self@.update(2, committed as u8).take(HEADER_SIZE + committed));
        }
        queue.commit(data);
    }

    /// Commits the entire granted packet: the header and exactly `length`
    /// payload bytes.
    pub fn commit_all(self, queue: &mut FramedQueue)
        requires
            old(queue).wf(),
            old(queue).write_in_progress(),
            self.wf(),
            self@.len() <= old(queue).reserved(),
        ensures
            final(queue).wf(),
            !final(queue).write_in_progress(),
            final(queue).spec_capacity() == old(queue).spec_capacity(),
            final(queue)@ == old(queue)@.push(self@.take(HEADER_SIZE + self@[2])),
            final(queue)@.last().len() == HEADER_SIZE + self@[2],
            final(queue)@.last() == self@.take(HEADER_SIZE + self@[2]),
    {
        let payload_len = self.data[2] as usize;
        let mut data = self.data;
        data.truncate(HEADER_SIZE + payload_len);
        proof {
            assert(data@ =~= self@.take(HEADER_SIZE + self@[2]));
        }
        queue.commit(data);
    }

    /// Abandons the grant: the reservation is freed and no frame becomes
    /// visible to the consumer side.
    pub fn abandon(self, queue: &mut FramedQueue)
        requires
            old(queue).wf(),
            old(queue).write_in_progress(),
        ensures
            final(queue).wf(),
            final(queue)@ == old(queue)@,
            !final(queue).write_in_progress(),
            final(queue).spec_capacity() == old(queue).spec_capacity(),
    {
        queue.abandon_write()
    }
}

} // verus!
