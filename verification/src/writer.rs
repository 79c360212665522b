//! The writer state machine: message emission with per-role retry and
//! acknowledgment semantics, and end-of-stream emission.
//!
//! A publisher or dealer send succeeds as soon as the socket accepts the
//! frames; a request send then waits for the two-byte `OK` acknowledgment,
//! retrying the receive up to the configured count. End-of-stream markers
//! await the acknowledgment on every role, so that upstream callers get
//! delivery evidence of stream termination.

use crate::bytes_util::clone_bytes;
use crate::error::TransportError;
use crate::message::{encode_message, frame_decodes, frame_is_eos, frame_payload, le64_of, Message};
use crate::socket::{MockSocketResponder, RecvOutcome, SendOutcome, Socket, SocketProvider};
use crate::uri::{SocketType, WriterSocketType};
use crate::writer_config::WriterConfig;
use vstd::prelude::*;

verus! {

/// What a send came to.
///
/// `Success` reports a send that awaited no acknowledgment; `Ack` a send
/// whose `OK` acknowledgment arrived; `NoAck` a send whose acknowledgment
/// retries were exhausted; `SendFailed` a send whose own retries were
/// exhausted. The retry counters are per call, and `time_spent` is the
/// elapsed wall-clock time in milliseconds.
#[derive(Debug, Clone, Copy, PartialEq, Eq, Structural)]
pub enum WriterResult {
    Success { retries_spent: i32, time_spent: u128 },
    Ack { send_retries_spent: i32, receive_retries_spent: i32, time_spent: u128 },
    NoAck { send_retries_spent: i32, receive_retries_spent: i32, time_spent: u128 },
    SendFailed { retries_spent: i32, time_spent: u128 },
}

#[verifier::external_type_specification]
#[verifier::external_body]
pub struct ExInstant(std::time::Instant);

/// Relies on `std::time::Instant::now` for a reference point; nothing is
/// assumed of the value.
#[verifier::external_body]
fn clock_now() -> std::time::Instant {
    std::time::Instant::now()
}

/// Relies on `std::time::Instant::elapsed`; nothing is assumed of the value.
#[verifier::external_body]
fn clock_elapsed(start: &std::time::Instant) -> core::time::Duration {
    start.elapsed()
}

/// Relies on `core::time::Duration::as_millis`; nothing is assumed of the
/// value.
#[verifier::external_body]
fn duration_millis(d: &core::time::Duration) -> u128 {
    d.as_millis()
}

/// Is this multi-frame reply the two-byte `OK` acknowledgment? The
/// confirmation stands in the last frame, behind whatever routing prefix the
/// socket added.
pub open spec fn is_ack_frames(frames: Seq<Seq<u8>>) -> bool {
    frames.len() > 0 && frames.last() == seq![79u8, 75u8]
}

/// Executable counterpart of [`is_ack_frames`].
pub fn frames_are_ack(frames: &Vec<Vec<u8>>) -> (r: bool)
    ensures
        r == is_ack_frames(frames.deep_view()),
{
    if frames.len() == 0 {
        return false;
    }
    let last = &frames[frames.len() - 1];
    let r = last.len() == 2 && last[0] == 79u8 && last[1] == 75u8;
    proof {
        let fv = frames.deep_view();
        assert(fv.last() == frames@[frames@.len() - 1]@);
        if r {
            assert(fv.last() =~= seq![79u8, 75u8]);
        } else {
            assert(fv.last() != seq![79u8, 75u8]);
        }
    }
    r
}

/// The wire frames for a message: for a dealer with a fixed source, the
/// source identity frame and an empty delimiter; then the topic frame, the
/// metadata frame carrying `seq_id`, `eos` and `payload`, and the extra
/// payload frames verbatim.
pub open spec fn frames_shape_ok(
    fr: Seq<Seq<u8>>,
    topic: Seq<char>,
    seq_id: u64,
    eos: bool,
    payload: Seq<u8>,
    extra: Seq<&[u8]>,
    source: Option<Seq<u8>>,
    dealer: bool,
) -> bool {
    let off: int = if dealer && source is Some {
        2
    } else {
        0
    };
    &&& fr.len() == off + 2 + extra.len()
    &&& (dealer && source is Some ==> fr[0] == source.unwrap() && fr[1] == Seq::<u8>::empty())
    &&& fr[off] == vstd::utf8::encode_utf8(topic)
    &&& frame_decodes(fr[off + 1])
    &&& le64_of(fr[off + 1]) == seq_id
    &&& frame_is_eos(fr[off + 1]) == eos
    &&& frame_payload(fr[off + 1]) == payload
    &&& (forall|i: int| 0 <= i < extra.len() ==> fr[off + 2 + i] == extra[i]@)
}

/// The view of a writer's optional fixed source identity.
pub open spec fn opt_source_view(s: Option<Vec<u8>>) -> Option<Seq<u8>> {
    match s {
        Some(b) => Some(b@),
        None => None,
    }
}

/// Assemble the wire frames for `m` on `topic` with the extra payload
/// `extra`, prefixing the source identity and an empty delimiter when a
/// dealer with a fixed source sends.
pub fn assemble_message_frames(
    topic: &str,
    m: &Message,
    extra: &[&[u8]],
    source: &Option<Vec<u8>>,
    dealer: bool,
) -> (r: Vec<Vec<u8>>)
    ensures
        frames_shape_ok(
            r.deep_view(),
            topic@,
            m.meta.seq_id,
            m.meta.is_eos,
            m.payload@,
            extra@,
            match source {
                Some(s) => Some(s@),
                None => None,
            },
            dealer,
        ),
{
    let mut r: Vec<Vec<u8>> = Vec::new();
    if dealer {
        match source {
            Some(s) => {
                r.push(clone_bytes(s));
                r.push(Vec::new());
            },
            None => {},
        }
    }
    r.push(topic.as_bytes_vec());
    r.push(encode_message(m));
    let ghost base = r.deep_view();
    let ghost off: int = if dealer && source is Some {
        2
    } else {
        0
    };
    proof {
        assert(base.len() == off + 2);
        assert(base[off] == vstd::utf8::encode_utf8(topic@));
        assert(frame_decodes(base[off + 1]));
        if dealer && source is Some {
            assert(base[0] == source.unwrap()@);
            assert(base[1] =~= Seq::<u8>::empty());
        }
    }
    let mut i: usize = 0;
    while i < extra.len()
        invariant
            0 <= i <= extra@.len(),
            r.deep_view().len() == base.len() + i,
            forall|j: int| 0 <= j < base.len() ==> r.deep_view()[j] == base[j],
            forall|j: int| 0 <= j < i ==> r.deep_view()[base.len() + j] == extra@[j]@,
        decreases extra@.len() - i,
    {
        r.push(vstd::slice::slice_to_vec(extra[i]));
        i = i + 1;
    }
    proof {
        let fr = r.deep_view();
        let sv: Option<Seq<u8>> = match source {
            Some(s) => Some(s@),
            None => None,
        };
        assert(off == (if dealer && sv is Some { 2int } else { 0int }));
        assert(fr.len() == off + 2 + extra@.len());
        assert(dealer && sv is Some ==> fr[0] == sv.unwrap() && fr[1] == Seq::<u8>::empty());
        assert(fr[off] == vstd::utf8::encode_utf8(topic@));
        assert(frame_decodes(fr[off + 1]));
        assert(le64_of(fr[off + 1]) == m.meta.seq_id);
        assert(frame_is_eos(fr[off + 1]) == m.meta.is_eos);
        assert(frame_payload(fr[off + 1]) == m.payload@);
        assert(forall|j: int| 0 <= j < extra@.len() ==> fr[off + 2 + j] == extra@[j]@);
    }
    r
}

/// What a send may report, given the writer's role, whether the message was
/// an end-of-stream marker, and the configured retry counts: the counters
/// spent never exceed what was configured, a send that awaits no
/// acknowledgment reports `Success`, and a send that does — a request, or
/// any end-of-stream — reports `Ack` or `NoAck`.
pub open spec fn writer_result_ok(
    wr: WriterResult,
    role: WriterSocketType,
    eos: bool,
    send_retries: i32,
    receive_retries: i32,
) -> bool {
    let awaits = (role is Req) || eos;
    match wr {
        WriterResult::Success { retries_spent, time_spent: _ } => !awaits && 0 <= retries_spent
            <= send_retries,
        WriterResult::Ack { send_retries_spent, receive_retries_spent, time_spent: _ } => awaits
            && 0 <= send_retries_spent <= send_retries && 0 <= receive_retries_spent
            <= receive_retries,
        WriterResult::NoAck { send_retries_spent, receive_retries_spent, time_spent: _ } => awaits
            && 0 <= send_retries_spent <= send_retries && receive_retries_spent
            == receive_retries,
        WriterResult::SendFailed { retries_spent, time_spent: _ } => retries_spent == send_retries,
    }
}

/// A writer: a socket of a writer role plus the send and acknowledgment
/// policy taken from its configuration.
pub struct Writer<C: MockSocketResponder, P: SocketProvider<C>> {
    pub socket: Socket<C>,
    pub socket_type: WriterSocketType,
    pub send_retries: i32,
    pub receive_retries: i32,
    pub source: Option<Vec<u8>>,
    pub provider: core::marker::PhantomData<P>,
}

impl<C: MockSocketResponder, P: SocketProvider<C> + Default> Writer<C, P> {
    /// Create a writer for `config`: obtain a socket of the configured role
    /// from the provider, set its options, and wire it to the endpoint.
    /// Preparing the filesystem for local-IPC endpoints is the caller's
    /// affair, at the process edge.
    pub fn new(config: &WriterConfig) -> (r: Result<Self, TransportError>)
        requires
            config.wf(),
        ensures
            r matches Ok(w) ==> {
                &&& w.socket_type == config.socket_type
                &&& w.send_retries == config.send_retries
                &&& w.receive_retries == config.receive_retries
                &&& w.send_retries >= 0
                &&& w.receive_retries >= 0
                &&& (match (w.source, config.source) {
                    (Some(b), Some(s)) => b@ == vstd::utf8::encode_utf8(s@),
                    (None, None) => true,
                    _ => false,
                })
                &&& w.socket.buffer().len() == 0
                &&& w.socket.sent_history().len() == 0
            },
    {
        let provider = P::default();
        let socket = provider.new_socket(&SocketType::Writer(config.socket_type))?;
        socket.set_sndhwm(config.send_hwm)?;
        socket.set_sndtimeo(config.send_timeout)?;
        socket.set_rcvtimeo(config.receive_timeout)?;
        socket.set_linger(config.linger)?;
        if config.bind {
            socket.bind(config.endpoint.as_str())?;
        } else {
            socket.connect(config.endpoint.as_str())?;
        }
        let source: Option<Vec<u8>> = match &config.source {
            Some(s) => Some(s.as_str().as_bytes_vec()),
            None => None,
        };
        Ok(
            Writer {
                socket,
                socket_type: config.socket_type,
                send_retries: config.send_retries,
                receive_retries: config.receive_retries,
                source,
                provider: core::marker::PhantomData,
            },
        )
    }

    /// Exactly one multipart send went out between `pre` and `post`, and
    /// its frames carry the given metadata per [`frames_shape_ok`].
    pub open spec fn sent_one_message(
        pre: Self,
        post: Self,
        topic: Seq<char>,
        seq_id: u64,
        eos: bool,
        payload: Seq<u8>,
        extra: Seq<&[u8]>,
    ) -> bool {
        exists|fr: Seq<Seq<u8>>|
            #![auto]
            frames_shape_ok(
                fr,
                topic,
                seq_id,
                eos,
                payload,
                extra,
                opt_source_view(pre.source),
                pre.socket_type is Dealer,
            ) && post.socket.sent_history() == pre.socket.sent_history().push(fr)
    }

    /// Send `m` on `topic` with the extra payload frames `extra`.
    ///
    /// The frames are assembled as [`frames_shape_ok`] describes and handed
    /// to the socket, retrying a blocked send up to the configured count. A
    /// request send, and an end-of-stream on any role, then awaits the `OK`
    /// acknowledgment, retrying the receive up to the configured count. The
    /// retry counters in the result never exceed what was configured.
    pub fn send_message(&mut self, topic: &str, m: &Message, extra: &[&[u8]]) -> (r: Result<
        WriterResult,
        TransportError,
    >)
        requires
            old(self).send_retries >= 0,
            old(self).receive_retries >= 0,
        ensures
            r is Ok,
            final(self).socket_type == old(self).socket_type,
            final(self).send_retries == old(self).send_retries,
            final(self).receive_retries == old(self).receive_retries,
            final(self).source == old(self).source,
            r matches Ok(wr) ==> writer_result_ok(
                wr,
                old(self).socket_type,
                m.meta.is_eos,
                old(self).send_retries,
                old(self).receive_retries,
            ),
            r matches Ok(wr) ==> !(wr is SendFailed),
            (!(old(self).socket_type is Req) && !m.meta.is_eos) ==> (r matches Ok(wr)
                && wr matches WriterResult::Success { retries_spent, time_spent: _ }
                && retries_spent == 0),
            ((old(self).socket_type is Req) || m.meta.is_eos) ==> (r matches Ok(wr) && (wr is Ack
                || wr is NoAck)),
            r is Ok ==> Self::sent_one_message(
                *old(self),
                *final(self),
                topic@,
                m.meta.seq_id,
                m.meta.is_eos,
                m.payload@,
                extra@,
            ),
    {
        let ghost pre_self = *self;
        let start = clock_now();
        let dealer = matches!(self.socket_type, WriterSocketType::Dealer);
        let frames = assemble_message_frames(topic, m, extra, &self.source, dealer);
        let sr: i32 = self.send_retries;
        let rr: i32 = self.receive_retries;
        let mut send_retries_spent: i32 = 0;
        loop
            invariant_except_break
                pre_self == *old(self),
                send_retries_spent == 0,
                0 <= send_retries_spent <= sr,
                sr == pre_self.send_retries,
                rr == pre_self.receive_retries,
                self.socket_type == pre_self.socket_type,
                self.send_retries == pre_self.send_retries,
                self.receive_retries == pre_self.receive_retries,
                self.source == pre_self.source,
                self.socket.sent_history() == pre_self.socket.sent_history(),
            ensures
                send_retries_spent == 0,
                self.socket_type == pre_self.socket_type,
                self.send_retries == pre_self.send_retries,
                self.receive_retries == pre_self.receive_retries,
                self.source == pre_self.source,
                self.socket.sent_history() == pre_self.socket.sent_history().push(
                    frames.deep_view(),
                ),
            decreases sr - send_retries_spent,
        {
            match self.socket.send_multipart(&frames) {
                SendOutcome::Sent => {
                    break ;
                },
                SendOutcome::WouldBlock => {
                    if send_retries_spent >= sr {
                        let t = elapsed_ms(&start);
                        return Ok(
                            WriterResult::SendFailed { retries_spent: send_retries_spent, time_spent: t },
                        );
                    }
                    send_retries_spent = send_retries_spent + 1;
                },
            }
        }
        let awaits = matches!(self.socket_type, WriterSocketType::Req) || m.meta.is_eos;
        if !awaits {
            let t = elapsed_ms(&start);
            return Ok(WriterResult::Success { retries_spent: send_retries_spent, time_spent: t });
        }
        let mut receive_retries_spent: i32 = 0;
        loop
            invariant
                pre_self == *old(self),
                send_retries_spent == 0,
                0 <= receive_retries_spent <= rr,
                0 <= send_retries_spent <= sr,
                sr == pre_self.send_retries,
                rr == pre_self.receive_retries,
                pre_self.socket_type is Req || m.meta.is_eos,
                self.socket_type == pre_self.socket_type,
                self.send_retries == pre_self.send_retries,
                self.receive_retries == pre_self.receive_retries,
                self.source == pre_self.source,
                self.socket.sent_history() == pre_self.socket.sent_history().push(
                    frames.deep_view(),
                ),
                frames_shape_ok(
                    frames.deep_view(),
                    topic@,
                    m.meta.seq_id,
                    m.meta.is_eos,
                    m.payload@,
                    extra@,
                    opt_source_view(pre_self.source),
                    pre_self.socket_type is Dealer,
                ),
            decreases rr - receive_retries_spent,
        {
            match self.socket.recv_multipart() {
                RecvOutcome::Frames(f) => {
                    if frames_are_ack(&f) {
                        let t = elapsed_ms(&start);
                        return Ok(
                            WriterResult::Ack {
                                send_retries_spent,
                                receive_retries_spent,
                                time_spent: t,
                            },
                        );
                    }
                },
                RecvOutcome::TimedOut => {},
            }
            if receive_retries_spent >= rr {
                let t = elapsed_ms(&start);
                return Ok(
                    WriterResult::NoAck { send_retries_spent, receive_retries_spent, time_spent: t },
                );
            }
            receive_retries_spent = receive_retries_spent + 1;
        }
    }

    /// Send an end-of-stream marker on `topic`. Whatever the role, the
    /// marker awaits its acknowledgment, so the result is never `Success`:
    /// it reports the acknowledgment, its absence, or a failed send.
    pub fn send_eos(&mut self, topic: &str) -> (r: Result<WriterResult, TransportError>)
        requires
            old(self).send_retries >= 0,
            old(self).receive_retries >= 0,
        ensures
            r is Ok,
            final(self).socket_type == old(self).socket_type,
            final(self).send_retries == old(self).send_retries,
            final(self).receive_retries == old(self).receive_retries,
            final(self).source == old(self).source,
            r matches Ok(wr) ==> writer_result_ok(
                wr,
                old(self).socket_type,
                true,
                old(self).send_retries,
                old(self).receive_retries,
            ),
            r matches Ok(wr) ==> (wr is Ack || wr is NoAck),
            r is Ok ==> Self::sent_one_message(
                *old(self),
                *final(self),
                topic@,
                0,
                true,
                Seq::<u8>::empty(),
                Seq::<&[u8]>::empty(),
            ),
    {
        let m = Message::end_of_stream();
        let extra: &[&[u8]] = &[];
        let r = self.send_message(topic, &m, extra);
        proof {
            assert(extra@ =~= Seq::<&[u8]>::empty());
            assert(m.payload@ =~= Seq::<u8>::empty());
        }
        r
    }
}

/// Milliseconds elapsed since `start`, by the trusted clock.
fn elapsed_ms(start: &std::time::Instant) -> u128 {
    let d = clock_elapsed(start);
    duration_millis(&d)
}

} // verus!
