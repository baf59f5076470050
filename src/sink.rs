//! Response sink: encodes each serialized response into one frame and queues
//! the frames in the order they were sent, for the transport to write out.

use vstd::prelude::*;
use crate::codec::{encode_frame, frame_of};

verus! {

/// The frames that carry `payloads`, one each, in order.
pub open spec fn frames_of(payloads: Seq<Seq<u8>>) -> Seq<Seq<u8>> {
    payloads.map_values(|p: Seq<u8>| frame_of(p))
}

/// The outbound frames of one connection that are not yet written.
#[derive(Debug)]
pub struct Outbox {
    frames: Vec<Vec<u8>>,
}

impl View for Outbox {
    type V = Seq<Seq<u8>>;

    closed spec fn view(&self) -> Seq<Seq<u8>> {
        self.frames@.map_values(|f: Vec<u8>| f@)
    }
}

impl Outbox {
    pub fn new() -> (r: Outbox)
        ensures
            r@ == Seq::<Seq<u8>>::empty(),
    {
        let r = Outbox { frames: Vec::new() };
        assert(r@ =~= Seq::<Seq<u8>>::empty());
        r
    }

    pub fn len(&self) -> (r: usize)
        ensures
            r == self@.len(),
    {
        self.frames.len()
    }

    /// Encodes one response and queues its frame after every frame already queued.
    pub fn send(&mut self, payload: &[u8])
        ensures
            final(self)@ == old(self)@.push(frame_of(payload@)),
    {
        let frame = encode_frame(payload);
        proof {
            let ghost before = self.frames@;
            assert(before.push(frame).map_values(|f: Vec<u8>| f@) =~= before.map_values(
                |f: Vec<u8>| f@,
            ).push(frame@));
        }
        self.frames.push(frame);
    }

    /// Queues the frames of `payloads`, in order, after every frame already queued.
    pub fn send_all(&mut self, payloads: &Vec<Vec<u8>>)
        ensures
            final(self)@ == old(self)@ + frames_of(payloads@.map_values(|p: Vec<u8>| p@)),
    {
        let ghost start = self@;
        let ghost ps = payloads@.map_values(|p: Vec<u8>| p@);
        let mut i: usize = 0;
        while i < payloads.len()
            invariant
                i <= payloads@.len(),
                ps == payloads@.map_values(|p: Vec<u8>| p@),
                self@ == start + frames_of(ps.take(i as int)),
            decreases payloads@.len() - i,
        {
            self.send(payloads[i].as_slice());
            proof {
                assert(ps.take(i as int + 1) =~= ps.take(i as int).push(ps[i as int]));
                assert(frames_of(ps.take(i as int + 1)) =~= frames_of(ps.take(i as int)).push(
                    frame_of(ps[i as int]),
                ));
                assert(start + frames_of(ps.take(i as int + 1)) =~= (start + frames_of(
                    ps.take(i as int),
                )).push(frame_of(ps[i as int])));
            }
            i = i + 1;
        }
        assert(ps.take(i as int) =~= ps);
    }

    /// Hands out every queued frame, oldest first, and leaves the outbox empty.
    pub fn take(&mut self) -> (r: Vec<Vec<u8>>)
        ensures
            r@.map_values(|f: Vec<u8>| f@) == old(self)@,
            final(self)@ == Seq::<Seq<u8>>::empty(),
    {
        let mut r: Vec<Vec<u8>> = Vec::new();
        std::mem::swap(&mut r, &mut self.frames);
        assert(self@ =~= Seq::<Seq<u8>>::empty());
        r
    }
}

/// Responses keep dispatch order: sending the responses of a request A and
/// then those of a request B queues the frames of A, in order, at the
/// positions right after what was queued before, and those of B after them.
pub proof fn lemma_responses_in_dispatch_order(
    start: Seq<Seq<u8>>,
    a: Seq<Seq<u8>>,
    b: Seq<Seq<u8>>,
)
    ensures
        (start + frames_of(a)) + frames_of(b) == start + frames_of(a + b),
        forall|i: int|
            0 <= i < a.len() ==> ((start + frames_of(a)) + frames_of(b))[start.len() + i]
                == frame_of(#[trigger] a[i]),
        forall|j: int|
            0 <= j < b.len() ==> ((start + frames_of(a)) + frames_of(b))[start.len() + a.len()
                + j] == frame_of(#[trigger] b[j]),
{
    assert(frames_of(a + b) =~= frames_of(a) + frames_of(b));
    assert((start + frames_of(a)) + frames_of(b) =~= start + frames_of(a + b));
}

} // verus!
