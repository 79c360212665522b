//! The reader state machine: blocking receive with timeout, multi-frame
//! parsing per role, topic filtering, routing-identity filtering, and
//! acknowledgment of request and router peers.
//!
//! Frame layout on receive: a subscriber or reply socket sees
//! `[topic, metadata, extra...]`; a router socket sees a routing-identity
//! frame first, optionally followed by an empty delimiter, which is consumed
//! silently when present.

use crate::bytes_util::clone_bytes;
use crate::error::TransportError;
use crate::message::{frame_decodes, frame_is_eos, frame_payload, le64_of, Message};
use crate::reader_config::ReaderConfig;
use crate::routing::RoutingIdFilter;
use crate::socket::{MockSocketResponder, RecvOutcome, Socket, SocketProvider};
use crate::topic::TopicPrefixSpec;
use crate::uri::{ReaderSocketType, SocketType};
use vstd::prelude::*;

verus! {

/// What one receive came to.
///
/// `Message` and `EndOfStream` carry accepted traffic; the other variants
/// report why a frame was dropped, or that none arrived, so callers can loop
/// without unwinding.
#[derive(Debug)]
pub enum ReaderResult {
    Message { message: Message, topic: Vec<u8>, routing_id: Option<Vec<u8>>, data: Vec<Vec<u8>> },
    EndOfStream { topic: Vec<u8>, routing_id: Option<Vec<u8>> },
    Timeout,
    PrefixMismatch { topic: Vec<u8> },
    RoutingIdMismatch { topic: Vec<u8>, routing_id: Vec<u8> },
    TooShort { frame_count: usize },
}

/// Where the topic frame stands: behind the routing identity and the
/// optional empty delimiter for a router, first for every other role.
pub open spec fn topic_index(role: ReaderSocketType, frames: Seq<Seq<u8>>) -> int {
    if role is Router {
        if frames.len() >= 2 && frames[1].len() == 0 {
            2
        } else {
            1
        }
    } else {
        0
    }
}

/// The routing identity carried by the frames: the first frame for a router,
/// absent for every other role.
pub open spec fn frames_routing_id(role: ReaderSocketType, frames: Seq<Seq<u8>>) -> Option<
    Seq<u8>,
> {
    if role is Router {
        Some(frames[0])
    } else {
        None
    }
}

/// The view of an optional owned routing identity.
pub open spec fn opt_bytes_view(v: Option<Vec<u8>>) -> Option<Seq<u8>> {
    match v {
        Some(b) => Some(b@),
        None => None,
    }
}

/// The two filters did not move.
pub open spec fn filter_unchanged(pre: RoutingIdFilter, post: RoutingIdFilter) -> bool {
    post.current() == pre.current() && post.expired() == pre.expired()
}

/// The two-byte `OK` confirmation, as a frame.
pub open spec fn ok_frame_seq() -> Seq<u8> {
    seq![79u8, 75u8]
}

/// The acknowledgment owed for an outcome: on accepted traffic a reply
/// socket answers `[OK]` and a router socket answers `[routing-id, OK]`,
/// addressed by the routing identity the frames carried; no other outcome
/// owes one.
pub open spec fn ack_frames_ok(
    role: ReaderSocketType,
    frames: Seq<Seq<u8>>,
    rr: ReaderResult,
    ack: Option<Vec<Vec<u8>>>,
) -> bool {
    if (rr is Message || rr is EndOfStream) && role is Rep {
        ack matches Some(a) && a.deep_view() == seq![ok_frame_seq()]
    } else if (rr is Message || rr is EndOfStream) && role is Router {
        ack matches Some(a) && a.deep_view() == seq![frames[0], ok_frame_seq()]
    } else {
        ack is None
    }
}

/// What `receive` yields and how the routing filter moves, given the role,
/// the topic prefix spec, and the frames the socket delivered.
///
/// No frames reads as a timeout. Too few frames for the role, or an
/// undecodable metadata frame, surface as `TooShort`. A topic the prefix
/// spec refuses surfaces as `PrefixMismatch` without consulting the routing
/// filter. Otherwise the routing filter decides and moves: denial surfaces
/// as `RoutingIdMismatch`; acceptance yields `EndOfStream` or `Message`
/// according to the metadata's end-of-stream flag, with the sequence id,
/// payload and extra frames handed over exactly.
pub open spec fn reader_outcome(
    role: ReaderSocketType,
    prefix: TopicPrefixSpec,
    pre_filter: RoutingIdFilter,
    post_filter: RoutingIdFilter,
    frames: Seq<Seq<u8>>,
    rr: ReaderResult,
) -> bool {
    let ti = topic_index(role, frames);
    let rid = frames_routing_id(role, frames);
    if frames.len() == 0 {
        rr is Timeout && filter_unchanged(pre_filter, post_filter)
    } else if frames.len() < ti + 2 {
        &&& rr matches ReaderResult::TooShort { frame_count } && frame_count == frames.len()
        &&& filter_unchanged(pre_filter, post_filter)
    } else {
        let topic = frames[ti];
        let mf = frames[ti + 1];
        if !frame_decodes(mf) {
            &&& rr matches ReaderResult::TooShort { frame_count } && frame_count == frames.len()
            &&& filter_unchanged(pre_filter, post_filter)
        } else if !prefix.admits(topic) {
            &&& rr matches ReaderResult::PrefixMismatch { topic: t2 } && t2@ == topic
            &&& filter_unchanged(pre_filter, post_filter)
        } else {
            &&& pre_filter.allow_transition(post_filter, topic, rid)
            &&& (if !pre_filter.allow_decision(topic, rid) {
                &&& rid matches Some(ridv)
                &&& (rr matches ReaderResult::RoutingIdMismatch { topic: t2, routing_id: r2 }
                    && t2@ == topic && r2@ == ridv)
            } else if frame_is_eos(mf) {
                rr matches ReaderResult::EndOfStream { topic: t2, routing_id: r2 } && t2@ == topic
                    && opt_bytes_view(r2) == rid
            } else {
                rr matches ReaderResult::Message { message, topic: t2, routing_id: r2, data } && t2@
                    == topic && opt_bytes_view(r2) == rid && message.meta.seq_id == le64_of(mf)
                    && message.meta.is_eos == frame_is_eos(mf) && message.payload@
                    == frame_payload(mf) && data.deep_view() == frames.skip(ti + 2)
            })
        }
    }
}

/// A reader: a socket of a reader role, the topic prefix spec it filters by,
/// and its routing-identity filter.
pub struct Reader<C: MockSocketResponder, P: SocketProvider<C>> {
    pub socket: Socket<C>,
    pub socket_type: ReaderSocketType,
    pub topic_prefix_spec: TopicPrefixSpec,
    pub routing_id_filter: RoutingIdFilter,
    pub provider: core::marker::PhantomData<P>,
}

impl<C: MockSocketResponder, P: SocketProvider<C> + Default> Reader<C, P> {
    /// The reader's invariant: its routing filter is well formed.
    pub open spec fn wf(self) -> bool {
        self.routing_id_filter.wf()
    }

    /// Create a reader for `config`: obtain a socket of the configured role
    /// from the provider, set its options, subscribe a subscriber to the
    /// configured prefix, and wire the socket to the endpoint. Preparing the
    /// filesystem for local-IPC endpoints is the caller's affair, at the
    /// process edge.
    pub fn new(config: &ReaderConfig) -> (r: Result<Self, TransportError>)
        requires
            config.wf(),
        ensures
            r matches Ok(rd) ==> {
                &&& rd.wf()
                &&& rd.socket_type == config.socket_type
                &&& (forall|t: Seq<u8>|
                    rd.topic_prefix_spec.admits(t) == config.topic_prefix_spec.admits(t))
                &&& rd.routing_id_filter.current() == crate::routing::no_current_entries()
                &&& rd.routing_id_filter.expired() == Seq::<(Seq<u8>, Seq<u8>)>::empty()
                &&& rd.routing_id_filter.cap() == config.routing_ids_cache_size
                &&& rd.socket.buffer().len() == 0
                &&& rd.socket.sent_history().len() == 0
            },
    {
        let provider = P::default();
        let socket = provider.new_socket(&SocketType::Reader(config.socket_type))?;
        socket.set_rcvhwm(config.receive_hwm)?;
        socket.set_rcvtimeo(config.receive_timeout)?;
        socket.set_linger(config.linger)?;
        if matches!(config.socket_type, ReaderSocketType::Sub) {
            let prefix = config.topic_prefix_spec.get();
            socket.set_subscribe(prefix.as_str().as_bytes())?;
        }
        if config.bind {
            socket.bind(config.endpoint.as_str())?;
        } else {
            socket.connect(config.endpoint.as_str())?;
        }
        let routing_id_filter = RoutingIdFilter::new(config.routing_ids_cache_size)?;
        Ok(
            Reader {
                socket,
                socket_type: config.socket_type,
                topic_prefix_spec: config.topic_prefix_spec.duplicate(),
                routing_id_filter,
                provider: core::marker::PhantomData,
            },
        )
    }

    /// On accepted traffic the acknowledgment owed for the reader's role
    /// went out on the socket, and nothing else did; on every other outcome
    /// the socket saw no send.
    pub open spec fn acks_recorded(pre: Self, post: Self, rr: ReaderResult) -> bool {
        if (rr is Message || rr is EndOfStream) && pre.socket_type is Rep {
            post.socket.sent_history() == pre.socket.sent_history().push(seq![ok_frame_seq()])
        } else if (rr is Message || rr is EndOfStream) && pre.socket_type is Router {
            post.socket.sent_history() == pre.socket.sent_history().push(
                seq![pre.socket.buffer()[0], ok_frame_seq()],
            )
        } else {
            post.socket.sent_history() == pre.socket.sent_history()
        }
    }

    /// Receive one message: drain the socket, classify the frames with
    /// [`process_frames`], and send the acknowledgment it says is owed —
    /// the two-byte `OK`, addressed back to the routing identity on a
    /// router socket. An acknowledgment send is not allowed to fail the
    /// receive: the caller is still handed the accepted result.
    pub fn receive(&mut self) -> (r: Result<ReaderResult, TransportError>)
        requires
            old(self).wf(),
        ensures
            r is Ok,
            final(self).wf(),
            final(self).socket_type == old(self).socket_type,
            final(self).topic_prefix_spec == old(self).topic_prefix_spec,
            final(self).routing_id_filter.cap() == old(self).routing_id_filter.cap(),
            r matches Ok(rr) ==> reader_outcome(
                old(self).socket_type,
                old(self).topic_prefix_spec,
                old(self).routing_id_filter,
                final(self).routing_id_filter,
                old(self).socket.buffer(),
                rr,
            ),
            r matches Ok(rr) ==> Self::acks_recorded(*old(self), *final(self), rr),
    {
        let ghost pre_self = *self;
        let frames: Vec<Vec<u8>> = match self.socket.recv_multipart() {
            RecvOutcome::TimedOut => {
                return Ok(ReaderResult::Timeout);
            },
            RecvOutcome::Frames(f) => f,
        };
        proof {
            assert(frames.deep_view() == pre_self.socket.buffer());
        }
        let (rr, ack) = process_frames(
            self.socket_type,
            &self.topic_prefix_spec,
            &mut self.routing_id_filter,
            &frames,
        );
        match &ack {
            Some(reply) => {
                let _ = self.socket.send_multipart(reply);
            },
            None => {},
        }
        Ok(rr)
    }
}

/// Classify one multipart message and move the routing filter: the verified
/// decision core of a receive, shared with drivers of other socket
/// backends. Returns the outcome for the frames, and the acknowledgment
/// frames owed to the peer, if any.
pub fn process_frames(
    socket_type: ReaderSocketType,
    topic_prefix_spec: &TopicPrefixSpec,
    routing_id_filter: &mut RoutingIdFilter,
    frames: &Vec<Vec<u8>>,
) -> (r: (ReaderResult, Option<Vec<Vec<u8>>>))
    requires
        old(routing_id_filter).wf(),
        frames@.len() > 0,
    ensures
        final(routing_id_filter).wf(),
        final(routing_id_filter).cap() == old(routing_id_filter).cap(),
        reader_outcome(
            socket_type,
            *topic_prefix_spec,
            *old(routing_id_filter),
            *final(routing_id_filter),
            frames.deep_view(),
            r.0,
        ),
        ack_frames_ok(socket_type, frames.deep_view(), r.0, r.1),
{
    let ghost fv = frames.deep_view();
    let is_router = matches!(socket_type, ReaderSocketType::Router);
    let ti: usize = if is_router {
        if frames.len() >= 2 && frames[1].len() == 0 {
            2
        } else {
            1
        }
    } else {
        0
    };
    proof {
        assert(ti == topic_index(socket_type, fv));
    }
    if frames.len() < ti + 2 {
        return (ReaderResult::TooShort { frame_count: frames.len() }, None);
    }
    proof {
        crate::bytes_util::lemma_bytes_deep_view(frames@[ti as int]);
        crate::bytes_util::lemma_bytes_deep_view(frames@[ti as int + 1]);
        if is_router {
            crate::bytes_util::lemma_bytes_deep_view(frames@[0]);
        }
    }
    let routing_id: Option<Vec<u8>> = if is_router {
        Some(clone_bytes(&frames[0]))
    } else {
        None
    };
    proof {
        assert(opt_bytes_view(routing_id) == frames_routing_id(socket_type, fv));
    }
    let topic: Vec<u8> = clone_bytes(&frames[ti]);
    let message: Message = match crate::message::decode_message(frames[ti + 1].as_slice()) {
        None => {
            return (ReaderResult::TooShort { frame_count: frames.len() }, None);
        },
        Some(m) => m,
    };
    if !topic_prefix_spec.matches(topic.as_slice()) {
        return (ReaderResult::PrefixMismatch { topic }, None);
    }
    let allowed = {
        let rid_ref: Option<&Vec<u8>> = match &routing_id {
            Some(v) => Some(v),
            None => None,
        };
        routing_id_filter.allow(topic.as_slice(), &rid_ref)
    };
    if !allowed {
        // A frame is only denied when it carried a routing identity.
        let rid = match routing_id {
            Some(v) => v,
            None => {
                proof {
                    assert(false);
                }
                Vec::new()
            },
        };
        return (ReaderResult::RoutingIdMismatch { topic, routing_id: rid }, None);
    }
    // Accepted: request and router peers are owed the confirmation.
    let ack: Option<Vec<Vec<u8>>> = match socket_type {
        ReaderSocketType::Rep => {
            let mut reply: Vec<Vec<u8>> = Vec::new();
            reply.push(ack_frame());
            proof {
                crate::bytes_util::lemma_bytes_deep_view(reply@[0]);
                assert(reply.deep_view() =~= seq![ok_frame_seq()]);
            }
            Some(reply)
        },
        ReaderSocketType::Router => {
            let mut reply: Vec<Vec<u8>> = Vec::new();
            match &routing_id {
                Some(v) => {
                    reply.push(clone_bytes(v));
                },
                None => {},
            }
            reply.push(ack_frame());
            proof {
                crate::bytes_util::lemma_bytes_deep_view(reply@[0]);
                crate::bytes_util::lemma_bytes_deep_view(reply@[1]);
                assert(reply.deep_view() =~= seq![fv[0], ok_frame_seq()]);
            }
            Some(reply)
        },
        ReaderSocketType::Sub => None,
    };
    if message.meta.is_eos {
        return (ReaderResult::EndOfStream { topic, routing_id }, ack);
    }
    let data: Vec<Vec<u8>> = crate::bytes_util::clone_frames_from(frames, ti + 2);
    (ReaderResult::Message { message, topic, routing_id, data }, ack)
}

// ---------------------------------------------------------------------------
// Laws of the receive path.
// ---------------------------------------------------------------------------
/// The topic prefix spec decides acceptance: on frames that are long
/// enough for the role, whose metadata decodes, and whose routing identity
/// the filter admits, the topic passes the prefix spec exactly when the
/// result is `Message` or `EndOfStream`.
pub proof fn lemma_prefix_decides_acceptance(
    role: ReaderSocketType,
    prefix: TopicPrefixSpec,
    pre_filter: RoutingIdFilter,
    post_filter: RoutingIdFilter,
    frames: Seq<Seq<u8>>,
    rr: ReaderResult,
)
    requires
        reader_outcome(role, prefix, pre_filter, post_filter, frames, rr),
        frames.len() >= topic_index(role, frames) + 2,
        frame_decodes(frames[topic_index(role, frames) + 1]),
        pre_filter.allow_decision(
            frames[topic_index(role, frames)],
            frames_routing_id(role, frames),
        ),
    ensures
        prefix.admits(frames[topic_index(role, frames)]) <==> (rr is Message || rr is EndOfStream),
{
}

/// One published message crosses to a subscriber intact: frames assembled by
/// a writer without a routing prefix, received by a subscriber whose prefix
/// spec admits the topic, yield a `Message` carrying the same sequence id,
/// payload and extra frames, in their order. A subscriber's frames carry no
/// routing identity, so the routing filter admits them unconditionally and
/// does not move.
pub proof fn lemma_pub_sub_roundtrip(
    prefix: TopicPrefixSpec,
    pre_filter: RoutingIdFilter,
    post_filter: RoutingIdFilter,
    topic: Seq<char>,
    m: Message,
    extra: Seq<&[u8]>,
    frames: Seq<Seq<u8>>,
    rr: ReaderResult,
)
    requires
        crate::writer::frames_shape_ok(
            frames,
            topic,
            m.meta.seq_id,
            m.meta.is_eos,
            m.payload@,
            extra,
            None,
            false,
        ),
        !m.meta.is_eos,
        prefix.admits(vstd::utf8::encode_utf8(topic)),
        reader_outcome(ReaderSocketType::Sub, prefix, pre_filter, post_filter, frames, rr),
    ensures
        filter_unchanged(pre_filter, post_filter),
        rr matches ReaderResult::Message { message, topic: t2, routing_id, data } && {
            &&& message.meta.seq_id == m.meta.seq_id
            &&& !message.meta.is_eos
            &&& message.payload@ == m.payload@
            &&& t2@ == vstd::utf8::encode_utf8(topic)
            &&& routing_id is None
            &&& data.deep_view() == frames.skip(2)
        },
{
    assert(topic_index(ReaderSocketType::Sub, frames) == 0);
    assert(frames.len() == 2 + extra.len());
    assert(frames[0] == vstd::utf8::encode_utf8(topic));
    assert(frame_decodes(frames[1]));
    assert(!frame_is_eos(frames[1]));
    assert(pre_filter.allow_decision(frames[0], None));
}

/// The two-byte `OK` confirmation frame.
fn ack_frame() -> (r: Vec<u8>)
    ensures
        r@ == ok_frame_seq(),
{
    let mut r: Vec<u8> = Vec::new();
    r.push(79u8);
    r.push(75u8);
    proof {
        assert(r@ =~= ok_frame_seq());
    }
    r
}

} // verus!
