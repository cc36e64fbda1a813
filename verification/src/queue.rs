//! A framed packet queue.
//!
//! Packets travel between the application side and the radio interrupt in
//! framed queues: each committed frame is one packet, read back in first-in
//! first-out order. A queue accounts its contents in bytes against a fixed
//! capacity, and admits at most one outstanding write grant at a time.
//!
//! A write grant reserves space: committing hands the finished frame over,
//! abandoning the grant frees the reservation and yields no frame. Reading
//! does not consume a frame; the same frame stays at the front until it is
//! explicitly released.

use vstd::prelude::*;

verus! {

/// The reasons a write grant can be refused.
#[derive(Debug, Clone, Copy, PartialEq, Eq, Structural)]
pub enum GrantError {
    /// Another write grant is outstanding on this queue.
    InProgress,
    /// The queue does not have room for the requested reservation.
    InsufficientSize,
}

/// A first-in first-out queue of byte frames with byte-level capacity
/// accounting and single-write-grant discipline.
pub struct FramedQueue {
    /// The committed frames, front first.
    pub frames: Vec<Vec<u8>>,
    /// Capacity in bytes; committed frames plus an outstanding reservation
    /// never exceed it.
    pub capacity: usize,
    /// Bytes of the committed frames plus the outstanding reservation.
    pub used: usize,
    /// Whether a write grant is outstanding.
    pub write_open: bool,
    /// Size in bytes of the outstanding write reservation.
    pub write_reserved: usize,
}

/// Total length in bytes of a sequence of frames.
pub open spec fn frame_bytes(s: Seq<Seq<u8>>) -> int
    decreases s.len(),
{
    if s.len() == 0 {
        0
    } else {
        s[0].len() + frame_bytes(s.drop_first())
    }
}

pub proof fn lemma_frame_bytes_nonneg(s: Seq<Seq<u8>>)
    ensures
        frame_bytes(s) >= 0,
    decreases s.len(),
{
    if s.len() > 0 {
        lemma_frame_bytes_nonneg(s.drop_first());
    }
}

pub proof fn lemma_frame_bytes_push(s: Seq<Seq<u8>>, f: Seq<u8>)
    ensures
        frame_bytes(s.push(f)) == frame_bytes(s) + f.len(),
    decreases s.len(),
{
    if s.len() == 0 {
        assert(s.push(f)[0] == f);
        assert(s.push(f).drop_first() =~= Seq::<Seq<u8>>::empty());
        assert(frame_bytes(s.push(f)) == f.len() + frame_bytes(Seq::<Seq<u8>>::empty()));
    } else {
        assert(s.push(f)[0] == s[0]);
        assert(s.push(f).drop_first() =~= s.drop_first().push(f));
        lemma_frame_bytes_push(s.drop_first(), f);
        assert(frame_bytes(s.push(f)) == s[0].len() + frame_bytes(s.drop_first().push(f)));
    }
}

impl View for FramedQueue {
    type V = Seq<Seq<u8>>;

    /// A queue is modelled by the sequence of its committed frames, front
    /// first.
    open spec fn view(&self) -> Seq<Seq<u8>> {
        self.frames@.map_values(|f: Vec<u8>| f@)
    }
}

impl FramedQueue {
    /// The byte accounting matches the committed frames and the outstanding
    /// reservation, and stays within the capacity.
    pub open spec fn wf(&self) -> bool {
        &&& self.used == frame_bytes(self@) + (if self.write_open {
            self.write_reserved as int
        } else {
            0
        })
        &&& self.used <= self.capacity
    }

    /// Whether a write grant is outstanding.
    pub open spec fn write_in_progress(&self) -> bool {
        self.write_open
    }

    /// The size of the outstanding write reservation.
    pub open spec fn reserved(&self) -> int {
        self.write_reserved as int
    }

    /// The queue capacity in bytes.
    pub open spec fn spec_capacity(&self) -> int {
        self.capacity as int
    }

    /// Creates an empty queue with the given byte capacity.
    pub fn new(capacity: usize) -> (r: Self)
        ensures
            r@ =~= Seq::<Seq<u8>>::empty(),
            !r.write_in_progress(),
            r.spec_capacity() == capacity,
            r.wf(),
    {
        FramedQueue {
            frames: Vec::new(),
            capacity,
            used: 0,
            write_open: false,
            write_reserved: 0,
        }
    }

    /// Requests a write grant of `size` bytes, handing back a zeroed frame
    /// buffer of that size on success.
    ///
    /// The request is refused with [`GrantError::InProgress`] while another
    /// write grant is outstanding, and with [`GrantError::InsufficientSize`]
    /// when the reservation would not fit the remaining capacity.
    pub fn grant_write(&mut self, size: usize) -> (r: Result<Vec<u8>, GrantError>)
        requires
            old(self).wf(),
        ensures
            final(self).wf(),
            final(self)@ == old(self)@,
            final(self).spec_capacity() == old(self).spec_capacity(),
            old(self).write_in_progress() ==> r == Err::<Vec<u8>, GrantError>(
                GrantError::InProgress,
            ) && *final(self) == *old(self),
            !old(self).write_in_progress() && frame_bytes(old(self)@) + size > old(
                self,
            ).spec_capacity() ==> r == Err::<Vec<u8>, GrantError>(GrantError::InsufficientSize)
                && *final(self) == *old(self),
            !old(self).write_in_progress() && frame_bytes(old(self)@) + size <= old(
                self,
            ).spec_capacity() ==> {
                &&& r is Ok
                &&& r->Ok_0@ == Seq::new(size as nat, |i: int| 0u8)
                &&& final(self).write_in_progress()
                &&& final(self).reserved() == size
            },
            r is Ok <==> !old(self).write_in_progress() && frame_bytes(old(self)@) + size <= old(
                self,
            ).spec_capacity(),
    {
        if self.write_open {
            return Err(GrantError::InProgress);
        }
        if size > self.capacity - self.used {
            return Err(GrantError::InsufficientSize);
        }
        self.used = self.used + size;
        self.write_open = true;
        self.write_reserved = size;
        let buffer = vec![0u8; size];
        proof {
            assert(buffer@ =~= Seq::new(size as nat, |i: int| 0u8));
        }
        Ok(buffer)
    }

    /// Commits a finished frame under the outstanding write grant; the frame
    /// must not exceed the reservation. The frame is appended at the back of
    /// the queue and the grant is closed.
    pub fn commit(&mut self, frame: Vec<u8>)
        requires
            old(self).wf(),
            old(self).write_in_progress(),
            frame@.len() <= old(self).reserved(),
        ensures
            final(self).wf(),
            final(self)@ == old(self)@.push(frame@),
            !final(self).write_in_progress(),
            final(self).spec_capacity() == old(self).spec_capacity(),
    {
        proof {
            lemma_frame_bytes_nonneg(self@);
            lemma_frame_bytes_push(self@, frame@);
        }
        self.used = self.used - (self.write_reserved - frame.len());
        self.write_open = false;
        self.write_reserved = 0;
        let ghost committed = frame@;
        self.frames.push(frame);
        proof {
            assert(self@ =~= old(self)@.push(committed));
        }
    }

    /// Abandons the outstanding write grant, freeing its reservation; no
    /// frame is produced.
    pub fn abandon_write(&mut self)
        requires
            old(self).wf(),
            old(self).write_in_progress(),
        ensures
            final(self).wf(),
            final(self)@ == old(self)@,
            !final(self).write_in_progress(),
            final(self).spec_capacity() == old(self).spec_capacity(),
    {
        proof {
            lemma_frame_bytes_nonneg(self@);
        }
        self.used = self.used - self.write_reserved;
        self.write_open = false;
        self.write_reserved = 0;
    }

    /// Reads the frame at the front of the queue, if any, without consuming
    /// it: the same frame stays available until [`release`](Self::release).
    pub fn read_next(&self) -> (r: Option<Vec<u8>>)
        ensures
            r is Some <==> self@.len() > 0,
            r is Some ==> r->Some_0@ == self@[0],
    {
        if self.frames.len() == 0 {
            None
        } else {
            let frame: &Vec<u8> = &self.frames[0];
            Some(frame.clone())
        }
    }

    /// Releases the frame at the front of the queue, freeing its space.
    pub fn release(&mut self)
        requires
            old(self).wf(),
            old(self)@.len() > 0,
        ensures
            final(self).wf(),
            final(self)@ == old(self)@.drop_first(),
            final(self).write_in_progress() == old(self).write_in_progress(),
            final(self).reserved() == old(self).reserved(),
            final(self).spec_capacity() == old(self).spec_capacity(),
    {
        proof {
            lemma_frame_bytes_nonneg(self@.drop_first());
        }
        let front = self.frames.remove(0);
        self.used = self.used - front.len();
        proof {
            assert(self@ =~= old(self)@.drop_first());
        }
    }
}

} // verus!
