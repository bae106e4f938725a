use vstd::prelude::*;

verus! {

/// Upper bound on a frame payload length: 16 MiB. A frame whose length field
/// exceeds this bound is fatal to the connection.
pub const MAX_FRAME_LEN: u32 = 16777216;

/// The length field of a frame: the first four bytes, big endian.
pub open spec fn spec_frame_len(b: Seq<u8>) -> int
    recommends
        b.len() >= 4,
{
    b[0] * 0x1000000 + b[1] * 0x10000 + b[2] * 0x100 + b[3]
}

/// The whole frames contained in a byte stream, in order: each frame is a
/// four-byte big-endian length followed by that many payload bytes.
pub open spec fn spec_frames(b: Seq<u8>) -> Seq<Seq<u8>>
    decreases b.len(),
{
    if b.len() < 4 {
        Seq::empty()
    } else {
        let l = spec_frame_len(b);
        if b.len() < 4 + l {
            Seq::empty()
        } else {
            seq![b.subrange(4, 4 + l)] + spec_frames(b.subrange(4 + l, b.len() as int))
        }
    }
}

/// The trailing bytes of a stream that do not form a whole frame yet.
pub open spec fn spec_rest(b: Seq<u8>) -> Seq<u8>
    decreases b.len(),
{
    if b.len() < 4 {
        b
    } else {
        let l = spec_frame_len(b);
        if b.len() < 4 + l {
            b
        } else {
            spec_rest(b.subrange(4 + l, b.len() as int))
        }
    }
}

/// Appending bytes to a stream leaves the frames already present untouched and
/// parses the new bytes together with the old incomplete tail. This is the
/// reason a frame split across arbitrary read boundaries is reassembled
/// correctly: only the concatenation of everything received matters.
pub proof fn lemma_frames_extend(b: Seq<u8>, c: Seq<u8>)
    ensures
        spec_frames(b + c) =~~= spec_frames(b) + spec_frames(spec_rest(b) + c),
        spec_rest(b + c) =~= spec_rest(spec_rest(b) + c),
    decreases b.len(),
{
    if b.len() < 4 {
        assert(spec_rest(b) + c =~= b + c);
        assert(spec_frames(b) + spec_frames(spec_rest(b) + c) =~~= spec_frames(spec_rest(b) + c));
    } else {
        let l = spec_frame_len(b);
        assert(spec_frame_len(b + c) == l) by {
            assert((b + c)[0] == b[0]);
            assert((b + c)[1] == b[1]);
            assert((b + c)[2] == b[2]);
            assert((b + c)[3] == b[3]);
        }
        if b.len() < 4 + l {
            assert(spec_rest(b) == b);
            assert(spec_rest(b) + c =~= b + c);
            assert(spec_frames(b) + spec_frames(spec_rest(b) + c) =~~= spec_frames(b + c));
        } else {
            let tail = b.subrange(4 + l, b.len() as int);
            assert((b + c).len() >= 4 + l);
            assert((b + c).subrange(4 + l, (b + c).len() as int) =~= tail + c);
            assert((b + c).subrange(4, 4 + l) =~= b.subrange(4, 4 + l));
            lemma_frames_extend(tail, c);
            assert(spec_rest(tail) == spec_rest(b));
            assert(spec_frames(b + c) =~~= seq![b.subrange(4, 4 + l)] + spec_frames(tail + c));
            assert(spec_frames(b) + spec_frames(spec_rest(b) + c) =~~= seq![b.subrange(4, 4 + l)]
                + (spec_frames(tail) + spec_frames(spec_rest(tail) + c)));
        }
    }
}

/// A frame whose length field is zero carries the empty payload: it is a
/// legal frame and is handed on to parsing like any other.
pub proof fn lemma_zero_length_frame(b: Seq<u8>)
    requires
        b.len() >= 4,
        spec_frame_len(b) == 0,
    ensures
        spec_frames(b).len() >= 1,
        spec_frames(b)[0] =~= Seq::<u8>::empty(),
{
}

/// Outcome of one attempt to take a frame out of the accumulator.
pub enum FrameStep {
    /// Fewer bytes are buffered than the next frame needs.
    Incomplete,
    /// One whole payload, removed from the buffer.
    Ready(Vec<u8>),
    /// The length field exceeds `MAX_FRAME_LEN`; fatal to the connection.
    TooLarge,
}

/// Re-entrant accumulator for length-prefixed frames. Bytes are fed in
/// arbitrary chunks; whole payloads come out, in stream order.
pub struct FrameAccumulator {
    buf: Vec<u8>,
    history: Ghost<Seq<u8>>,
    delivered: Ghost<Seq<Seq<u8>>>,
}

impl FrameAccumulator {
    /// Every byte ever fed to this accumulator, in order.
    pub closed spec fn history(self) -> Seq<u8> {
        self.history@
    }

    /// Every payload handed out so far, in order.
    pub closed spec fn delivered(self) -> Seq<Seq<u8>> {
        self.delivered@
    }

    /// Bytes received and not yet consumed by a delivered frame.
    pub closed spec fn pending(self) -> Seq<u8> {
        self.buf@
    }

    /// The frames handed out followed by the frames still buffered are exactly
    /// the frames of everything received, and the unframed tail is the same.
    pub open spec fn inv(self) -> bool {
        &&& self.delivered() + spec_frames(self.pending()) =~~= spec_frames(self.history())
        &&& spec_rest(self.pending()) =~= spec_rest(self.history())
    }

    pub fn new() -> (r: Self)
        ensures
            r.inv(),
            r.history() =~= Seq::<u8>::empty(),
            r.delivered() =~~= Seq::<Seq<u8>>::empty(),
            r.pending() =~= Seq::<u8>::empty(),
    {
        FrameAccumulator { buf: Vec::new(), history: Ghost(Seq::empty()), delivered: Ghost(
            Seq::empty(),
        ) }
    }

    /// Feed one chunk of received bytes.
    pub fn extend(&mut self, chunk: &[u8])
        requires
            old(self).inv(),
        ensures
            final(self).inv(),
            final(self).history() =~= old(self).history() + chunk@,
            final(self).delivered() == old(self).delivered(),
            final(self).pending() =~= old(self).pending() + chunk@,
    {
        let ghost h = self.history@;
        let ghost b = self.buf@;
        proof {
            lemma_frames_extend(h, chunk@);
            lemma_frames_extend(b, chunk@);
            assert(spec_rest(b) == spec_rest(h));
        }
        self.buf.extend_from_slice(chunk);
        proof {
            self.history@ = h + chunk@;
            assert(self.buf@ =~= b + chunk@);
            assert(self.delivered@ + spec_frames(b + chunk@) =~~= (self.delivered@ + spec_frames(b))
                + spec_frames(spec_rest(b) + chunk@));
            assert(self.delivered@ + spec_frames(b) =~~= spec_frames(h));
            assert(spec_frames(h) + spec_frames(spec_rest(h) + chunk@) =~~= spec_frames(
                h + chunk@,
            ));
        }
    }

    /// Try to take the next whole payload out of the buffer.
    pub fn next_frame(&mut self) -> (r: FrameStep)
        requires
            old(self).inv(),
        ensures
            final(self).inv(),
            final(self).history() == old(self).history(),
            match r {
                FrameStep::Incomplete => {
                    &&& *final(self) == *old(self)
                    &&& (old(self).pending().len() < 4 || (spec_frame_len(old(self).pending())
                        <= MAX_FRAME_LEN && old(self).pending().len() < 4 + spec_frame_len(
                        old(self).pending(),
                    )))
                },
                FrameStep::Ready(f) => {
                    &&& old(self).pending().len() >= 4
                    &&& spec_frame_len(old(self).pending()) <= MAX_FRAME_LEN
                    &&& old(self).pending().len() >= 4 + spec_frame_len(old(self).pending())
                    &&& f@ =~= old(self).pending().subrange(
                        4,
                        4 + spec_frame_len(old(self).pending()),
                    )
                    &&& final(self).pending() =~= old(self).pending().subrange(
                        4 + spec_frame_len(old(self).pending()),
                        old(self).pending().len() as int,
                    )
                    &&& final(self).delivered() =~~= old(self).delivered() + seq![f@]
                },
                FrameStep::TooLarge => {
                    &&& *final(self) == *old(self)
                    &&& old(self).pending().len() >= 4
                    &&& spec_frame_len(old(self).pending()) > MAX_FRAME_LEN
                },
            },
    {
        if self.buf.len() < 4 {
            return FrameStep::Incomplete;
        }
        let b0 = self.buf[0];
        let b1 = self.buf[1];
        let b2 = self.buf[2];
        let b3 = self.buf[3];
        let len: u32 = (b0 as u32) * 0x1000000 + (b1 as u32) * 0x10000 + (b2 as u32) * 0x100 + (
        b3 as u32);
        assert(len == spec_frame_len(self.buf@));
        if len > MAX_FRAME_LEN {
            return FrameStep::TooLarge;
        }
        let need: usize = (len as usize) + 4;
        if self.buf.len() < need {
            return FrameStep::Incomplete;
        }
        let ghost old_buf = self.buf@;
        let mut head = self.buf.split_off(need);
        core::mem::swap(&mut self.buf, &mut head);
        // head now holds the first `need` bytes; buf holds the remainder.
        let payload = head.split_off(4);
        assert(payload@ =~= old_buf.subrange(4, 4 + spec_frame_len(old_buf)));
        assert(self.buf@ =~= old_buf.subrange(4 + spec_frame_len(old_buf), old_buf.len() as int));
        proof {
            self.delivered@ = self.delivered@ + seq![payload@];
            assert(spec_frames(old_buf) =~~= seq![payload@] + spec_frames(self.buf@));
            assert(spec_rest(old_buf) =~= spec_rest(self.buf@));
        }
        FrameStep::Ready(payload)
    }

    /// Number of bytes currently buffered.
    pub fn buffered_len(&self) -> (n: usize)
        ensures
            n == self.pending().len(),
    {
        self.buf.len()
    }
}

/// Once everything buffered is too short to hold a frame, the payloads handed
/// out are exactly the frames of the whole received stream, however that
/// stream was cut into chunks.
pub proof fn lemma_fully_drained(acc: FrameAccumulator)
    requires
        acc.inv(),
        spec_frames(acc.pending()).len() == 0,
    ensures
        acc.delivered() =~~= spec_frames(acc.history()),
{
    assert(acc.delivered() + spec_frames(acc.pending()) =~~= acc.delivered());
}

} // verus!
