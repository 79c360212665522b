//! Messages and the control-metadata wire frame.
//!
//! The transport cares about two facts of a message: its sequence id and
//! whether it marks the end of a stream. Everything else rides along as an
//! opaque payload. On the wire the metadata frame is nine bytes — the
//! sequence id in little-endian order, then an end-of-stream flag byte —
//! followed by the payload bytes verbatim.

use crate::frame::VideoFrame;
use vstd::prelude::*;

verus! {

/// What the transport reads of a message: a sequence id and an end-of-stream
/// marker.
#[derive(Clone, Copy, Debug, PartialEq, Eq, Structural)]
pub struct MessageMeta {
    pub seq_id: u64,
    pub is_eos: bool,
}

/// A message as handed to a writer or yielded by a reader: control metadata
/// plus an opaque payload carried verbatim.
#[derive(Clone, Debug)]
pub struct Message {
    pub meta: MessageMeta,
    pub payload: Vec<u8>,
}

impl Message {
    /// A data message with the given sequence id and payload.
    pub fn new(seq_id: u64, payload: Vec<u8>) -> (r: Message)
        ensures
            r.meta.seq_id == seq_id,
            !r.meta.is_eos,
            r.payload@ == payload@,
    {
        Message { meta: MessageMeta { seq_id, is_eos: false }, payload }
    }

    /// An end-of-stream marker. It carries no payload.
    pub fn end_of_stream() -> (r: Message)
        ensures
            r.meta.seq_id == 0,
            r.meta.is_eos,
            r.payload@ == Seq::<u8>::empty(),
    {
        Message { meta: MessageMeta { seq_id: 0, is_eos: true }, payload: Vec::new() }
    }

    /// A data message standing for one video frame. Serialising the frame's
    /// contents is outside this crate's scope, so the payload is empty; the
    /// frame's identity travels in the topic and the sequence id.
    pub fn video_frame(_frame: &VideoFrame) -> (r: Message)
        ensures
            r.meta.seq_id == 0,
            !r.meta.is_eos,
            r.payload@ == Seq::<u8>::empty(),
    {
        Message { meta: MessageMeta { seq_id: 0, is_eos: false }, payload: Vec::new() }
    }

    /// The same message under a different sequence id.
    pub fn with_seq_id(self, seq_id: u64) -> (r: Message)
        ensures
            r.meta.seq_id == seq_id,
            r.meta.is_eos == self.meta.is_eos,
            r.payload@ == self.payload@,
    {
        Message { meta: MessageMeta { seq_id, is_eos: self.meta.is_eos }, payload: self.payload }
    }
}

// ---------------------------------------------------------------------------
// The metadata frame.
// ---------------------------------------------------------------------------
/// The sequence id held in the first eight bytes of `b`, little endian.
pub open spec fn le64_of(b: Seq<u8>) -> u64 {
    (b[0] as u64) | ((b[1] as u64) << 8) | ((b[2] as u64) << 16) | ((b[3] as u64) << 24) | ((
    b[4] as u64) << 32) | ((b[5] as u64) << 40) | ((b[6] as u64) << 48) | ((b[7] as u64) << 56)
}

/// Does `frame` decode as a metadata frame?
pub open spec fn frame_decodes(frame: Seq<u8>) -> bool {
    frame.len() >= 9 && (frame[8] == 0 || frame[8] == 1)
}

/// The end-of-stream flag of a metadata frame.
pub open spec fn frame_is_eos(frame: Seq<u8>) -> bool {
    frame[8] == 1
}

/// The payload bytes of a metadata frame.
pub open spec fn frame_payload(frame: Seq<u8>) -> Seq<u8> {
    frame.skip(9)
}

/// Encode a message into its wire frame.
pub fn encode_message(m: &Message) -> (r: Vec<u8>)
    ensures
        r@.len() == 9 + m.payload@.len(),
        frame_decodes(r@),
        le64_of(r@) == m.meta.seq_id,
        frame_is_eos(r@) == m.meta.is_eos,
        frame_payload(r@) == m.payload@,
{
    let x: u64 = m.meta.seq_id;
    let mut r: Vec<u8> = Vec::new();
    r.push((x & 0xff) as u8);
    r.push(((x >> 8) & 0xff) as u8);
    r.push(((x >> 16) & 0xff) as u8);
    r.push(((x >> 24) & 0xff) as u8);
    r.push(((x >> 32) & 0xff) as u8);
    r.push(((x >> 40) & 0xff) as u8);
    r.push(((x >> 48) & 0xff) as u8);
    r.push(((x >> 56) & 0xff) as u8);
    r.push(if m.meta.is_eos {
        1u8
    } else {
        0u8
    });
    proof {
        assert((((x & 0xff) as u8) as u64) | ((((x >> 8) & 0xff) as u8) as u64) << 8 | ((((x
            >> 16) & 0xff) as u8) as u64) << 16 | ((((x >> 24) & 0xff) as u8) as u64) << 24 | ((((x
            >> 32) & 0xff) as u8) as u64) << 32 | ((((x >> 40) & 0xff) as u8) as u64) << 40 | ((((x
            >> 48) & 0xff) as u8) as u64) << 48 | ((((x >> 56) & 0xff) as u8) as u64) << 56
            == x) by (bit_vector);
    }
    let mut i: usize = 0;
    let n: usize = m.payload.len();
    while i < n
        invariant
            n == m.payload@.len(),
            0 <= i <= n,
            r@.len() == 9 + i,
            le64_of(r@) == m.meta.seq_id,
            frame_decodes(r@),
            frame_is_eos(r@) == m.meta.is_eos,
            forall|j: int| 0 <= j < i ==> r@[9 + j] == m.payload@[j],
        decreases n - i,
    {
        r.push(m.payload[i]);
        i = i + 1;
    }
    proof {
        assert(frame_payload(r@) =~= m.payload@);
    }
    r
}

/// Decode a wire frame back into a message. Succeeds exactly on frames of at
/// least nine bytes whose flag byte is `0` or `1`.
pub fn decode_message(frame: &[u8]) -> (r: Option<Message>)
    ensures
        r is Some <==> frame_decodes(frame@),
        r matches Some(m) ==> {
            &&& m.meta.seq_id == le64_of(frame@)
            &&& m.meta.is_eos == frame_is_eos(frame@)
            &&& m.payload@ == frame_payload(frame@)
        },
{
    if frame.len() < 9 {
        return None;
    }
    let flag: u8 = *vstd::slice::slice_index_get(frame, 8);
    if flag != 0 && flag != 1 {
        return None;
    }
    let b0 = *vstd::slice::slice_index_get(frame, 0);
    let b1 = *vstd::slice::slice_index_get(frame, 1);
    let b2 = *vstd::slice::slice_index_get(frame, 2);
    let b3 = *vstd::slice::slice_index_get(frame, 3);
    let b4 = *vstd::slice::slice_index_get(frame, 4);
    let b5 = *vstd::slice::slice_index_get(frame, 5);
    let b6 = *vstd::slice::slice_index_get(frame, 6);
    let b7 = *vstd::slice::slice_index_get(frame, 7);
    let seq_id: u64 = (b0 as u64) | ((b1 as u64) << 8) | ((b2 as u64) << 16) | ((b3 as u64)
        << 24) | ((b4 as u64) << 32) | ((b5 as u64) << 40) | ((b6 as u64) << 48) | ((b7 as u64)
        << 56);
    let tail = vstd::slice::slice_subrange(frame, 9, frame.len());
    let payload = vstd::slice::slice_to_vec(tail);
    proof {
        assert(payload@ =~= frame_payload(frame@));
    }
    Some(Message { meta: MessageMeta { seq_id, is_eos: flag == 1 }, payload })
}

} // verus!
