//! The packet stream: accumulates raw chunks from the capture thread and
//! deframes them into discrete packets, each preceded on the wire by a
//! two-byte big-endian length prefix.

use vstd::prelude::*;
use std::collections::VecDeque;

verus! {

/// The value of a two-byte big-endian length prefix.
pub open spec fn be16(hi: u8, lo: u8) -> int {
    hi as int * 256 + lo as int
}

/// The payload length announced by the prefix at the head of a buffer.
pub open spec fn frame_len(b: Seq<u8>) -> int
    recommends
        b.len() >= 2,
{
    be16(b[0], b[1])
}

/// Whether a buffer holds strictly more than a full frame, the condition
/// for extracting the next packet: a prefix alone, or an exact fit of
/// prefix plus payload, is not enough.
pub open spec fn frame_ready(b: Seq<u8>) -> bool {
    b.len() > 2 && b.len() > 2 + frame_len(b)
}

/// The payload of the frame at the head of a ready buffer.
pub open spec fn extracted_packet(b: Seq<u8>) -> Seq<u8>
    recommends
        frame_ready(b),
{
    b.subrange(2, 2 + frame_len(b))
}

/// What stays buffered after the frame at the head is extracted.
pub open spec fn remaining_after(b: Seq<u8>) -> Seq<u8>
    recommends
        frame_ready(b),
{
    b.subrange(2 + frame_len(b), b.len() as int)
}

/// A payload as it travels on the wire: a two-byte big-endian length
/// prefix followed by the payload bytes.
pub open spec fn frame_bytes(payload: Seq<u8>) -> Seq<u8>
    recommends
        payload.len() < 0x10000,
{
    seq![(payload.len() as int / 256) as u8, (payload.len() as int % 256) as u8] + payload
}

/// A sequence of payloads serialized back-to-back, each with its prefix.
pub open spec fn serialize_frames(packets: Seq<Seq<u8>>) -> Seq<u8>
    decreases packets.len(),
{
    if packets.len() == 0 {
        Seq::empty()
    } else {
        frame_bytes(packets[0]) + serialize_frames(packets.skip(1))
    }
}

/// Every packet extracted from a buffer by repeated head extraction, in
/// order.
pub open spec fn deframe(b: Seq<u8>) -> Seq<Seq<u8>>
    decreases b.len(),
{
    if frame_ready(b) {
        seq![extracted_packet(b)] + deframe(remaining_after(b))
    } else {
        Seq::empty()
    }
}

/// A ready buffer splits into the wire bytes of its head packet followed by
/// the rest.
pub proof fn lemma_frame_decompose(b: Seq<u8>)
    requires
        frame_ready(b),
    ensures
        extracted_packet(b).len() == frame_len(b),
        extracted_packet(b).len() < 0x10000,
        remaining_after(b).len() >= 1,
        b == frame_bytes(extracted_packet(b)) + remaining_after(b),
{
    let p = extracted_packet(b);
    assert(p.len() == frame_len(b));
    assert(frame_len(b) / 256 == b[0] as int);
    assert(frame_len(b) % 256 == b[1] as int);
    assert(b =~= frame_bytes(p) + remaining_after(b));
}

/// The wire bytes of a payload announce exactly that payload's length.
pub proof fn lemma_frame_bytes_len(payload: Seq<u8>)
    requires
        payload.len() < 0x10000,
    ensures
        frame_bytes(payload).len() == 2 + payload.len(),
        frame_len(frame_bytes(payload)) == payload.len(),
{
    let l = payload.len() as int;
    assert(256 * (l / 256) + l % 256 == l);
}

/// A full frame with nothing after it, or any shorter fragment of one —
/// a bare prefix or a prefix with a truncated payload — is never ready:
/// extraction waits for strictly more data.
pub proof fn lemma_partial_frame_not_ready(payload: Seq<u8>, k: int)
    requires
        payload.len() < 0x10000,
        0 <= k <= 2 + payload.len(),
    ensures
        !frame_ready(frame_bytes(payload).take(k)),
        deframe(frame_bytes(payload).take(k)) == Seq::<Seq<u8>>::empty(),
{
    lemma_frame_bytes_len(payload);
    let t = frame_bytes(payload).take(k);
    if t.len() > 2 {
        assert(t[0] == frame_bytes(payload)[0]);
        assert(t[1] == frame_bytes(payload)[1]);
        assert(frame_len(t) == payload.len());
    }
}

/// Deframing is exact: a buffer holding any number of serialized packets,
/// followed by at least one more byte, yields exactly those packets, in
/// order, byte-identical, and then whatever the trailing bytes yield.
pub proof fn lemma_deframe_exact(packets: Seq<Seq<u8>>, tail: Seq<u8>)
    requires
        forall|i: int| 0 <= i < packets.len() ==> #[trigger] packets[i].len() < 0x10000,
        tail.len() >= 1,
    ensures
        deframe(serialize_frames(packets) + tail) == packets + deframe(tail),
    decreases packets.len(),
{
    if packets.len() == 0 {
        assert(serialize_frames(packets) + tail =~= tail);
        assert(packets + deframe(tail) =~= deframe(tail));
    } else {
        let p = packets[0];
        let rest = serialize_frames(packets.skip(1)) + tail;
        let b = serialize_frames(packets) + tail;
        lemma_frame_bytes_len(p);
        assert(b =~= frame_bytes(p) + rest);
        assert(b[0] == frame_bytes(p)[0]);
        assert(b[1] == frame_bytes(p)[1]);
        assert(frame_len(b) == p.len());
        assert(frame_ready(b));
        assert(extracted_packet(b) =~= p);
        assert(remaining_after(b) =~= rest);
        lemma_deframe_exact(packets.skip(1), tail);
        assert(seq![p] + (packets.skip(1) + deframe(tail)) =~= packets + deframe(tail));
    }
}

/// The deframing state of the packet stream: raw chunks received from the
/// capture thread accumulate in a buffer that is deframed from its head.
/// The caller appends each chunk as it arrives on the byte channel and
/// extracts packets as soon as full frames are ready; once the channel
/// closes, the trailing bytes — at most a partial frame — are discarded
/// with the stream.
pub struct CynthionStream {
    buffer: VecDeque<u8>,
}

impl CynthionStream {
    /// The bytes currently buffered, oldest first.
    pub closed spec fn buffered(self) -> Seq<u8> {
        self.buffer@
    }

    /// A stream with nothing buffered yet.
    pub fn new() -> (r: CynthionStream)
        ensures
            r.buffered() == Seq::<u8>::empty(),
    {
        CynthionStream { buffer: VecDeque::new() }
    }

    /// Append a received chunk at the tail of the frame buffer.
    pub fn append_chunk(&mut self, chunk: &Vec<u8>)
        ensures
            final(self).buffered() == old(self).buffered() + chunk@,
    {
        let ghost b0 = self.buffer@;
        let mut i: usize = 0;
        while i < chunk.len()
            invariant
                i <= chunk.len(),
                self.buffer@ == b0 + chunk@.subrange(0, i as int),
            decreases chunk.len() - i,
        {
            proof {
                assert(b0 + chunk@.subrange(0, i as int).push(chunk@[i as int]) =~= b0
                    + chunk@.subrange(0, i as int + 1));
            }
            self.buffer.push_back(chunk[i]);
            i = i + 1;
        }
        proof {
            assert(b0 + chunk@.subrange(0, chunk@.len() as int) =~= b0 + chunk@);
        }
    }

    /// Extract the next packet from the buffer alone: if the buffer holds
    /// strictly more than the two-byte prefix plus the payload it announces,
    /// remove the prefix, then remove and return exactly the payload;
    /// otherwise leave the buffer unchanged.
    pub fn next_buffered_packet(&mut self) -> (r: Option<Vec<u8>>)
        ensures
            match r {
                Some(packet) => {
                    &&& frame_ready(old(self).buffered())
                    &&& packet@ == extracted_packet(old(self).buffered())
                    &&& final(self).buffered() == remaining_after(old(self).buffered())
                },
                None => {
                    &&& !frame_ready(old(self).buffered())
                    &&& final(self).buffered() == old(self).buffered()
                },
            },
    {
        let ghost b0 = self.buffer@;

        // Do we have the length header for the next packet?
        let buffer_len = self.buffer.len();
        if buffer_len <= 2 {
            return None;
        }

        // Do we have all the data for the next packet?
        let hi = self.buffer[0];
        let lo = self.buffer[1];
        let packet_len: usize = (hi as usize) * 256 + (lo as usize);
        if buffer_len <= 2 + packet_len {
            return None;
        }

        // Remove the length header from the buffer.
        self.buffer.pop_front();
        self.buffer.pop_front();
        proof {
            assert(self.buffer@ =~= b0.subrange(2, b0.len() as int));
        }

        // Remove the packet from the buffer and return it.
        let mut packet: Vec<u8> = Vec::new();
        let mut i: usize = 0;
        while i < packet_len
            invariant
                i <= packet_len,
                b0.len() > 2 + packet_len,
                packet_len == frame_len(b0),
                self.buffer@ == b0.subrange(2 + i as int, b0.len() as int),
                packet@ == b0.subrange(2, 2 + i as int),
            decreases packet_len - i,
        {
            let byte = self.buffer.pop_front().unwrap();
            packet.push(byte);
            i = i + 1;
            proof {
                assert(self.buffer@ =~= b0.subrange(2 + i as int, b0.len() as int));
                assert(packet@ =~= b0.subrange(2, 2 + i as int));
            }
        }
        proof {
            assert(packet@ =~= extracted_packet(b0));
            assert(self.buffer@ =~= remaining_after(b0));
        }
        Some(packet)
    }

}

} // verus!
