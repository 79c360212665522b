use savant_core::message::{encode_message, Message};
use savant_core::reader::{process_frames, Reader, ReaderResult};
use savant_core::reader_config::ReaderConfig;
use savant_core::routing::RoutingIdFilter;
use savant_core::socket::{MockSocketProvider, MockSocketResponder, NoopResponder, Socket};
use savant_core::topic::TopicPrefixSpec;
use savant_core::uri::ReaderSocketType;
use savant_core::writer::{assemble_message_frames, Writer, WriterResult};
use savant_core::writer_config::WriterConfig;

/// A responder that answers every send with the `OK` acknowledgment, as a
/// request/reply peer would.
#[derive(Default)]
struct OkResponder;

impl MockSocketResponder for OkResponder {
    fn fix(&mut self, buffer: &mut Vec<Vec<u8>>) {
        buffer.clear();
        buffer.push(b"OK".to_vec());
    }
}

fn sub_reader(
    frames: Vec<Vec<u8>>,
    prefix: TopicPrefixSpec,
) -> Reader<NoopResponder, MockSocketProvider> {
    Reader {
        socket: Socket::mock_with_frames(frames, NoopResponder),
        socket_type: ReaderSocketType::Sub,
        topic_prefix_spec: prefix,
        routing_id_filter: RoutingIdFilter::new(512).unwrap(),
        provider: std::marker::PhantomData,
    }
}

fn reader_of_role(
    frames: Vec<Vec<u8>>,
    role: ReaderSocketType,
) -> Reader<NoopResponder, MockSocketProvider> {
    Reader {
        socket: Socket::mock_with_frames(frames, NoopResponder),
        socket_type: role,
        topic_prefix_spec: TopicPrefixSpec::none(),
        routing_id_filter: RoutingIdFilter::new(512).unwrap(),
        provider: std::marker::PhantomData,
    }
}

fn data_frames(topic: &[u8], m: &Message) -> Vec<Vec<u8>> {
    vec![topic.to_vec(), encode_message(m)]
}

#[test]
fn test_publisher_send_is_fire_and_forget() {
    let mut writer: Writer<NoopResponder, MockSocketProvider> = Writer::new(
        &WriterConfig::new().url("pub+bind:tcp://h").unwrap().build().unwrap(),
    )
    .unwrap();
    let m = Message::new(1, vec![]);
    let res = writer.send_message("test", &m, &[]).unwrap();
    assert!(
        matches!(res, WriterResult::Success { retries_spent, time_spent: _ } if retries_spent == 0)
    );
}

#[test]
fn test_request_send_acknowledged() {
    // A request/reply peer answers `OK`: the writer reports it with no
    // retries spent on either side.
    let mut writer: Writer<OkResponder, MockSocketProvider> = Writer::new(
        &WriterConfig::new().url("req+connect:tcp://h").unwrap().build().unwrap(),
    )
    .unwrap();
    let m = Message::new(1, vec![]);
    let res = writer.send_message("test", &m, &[]).unwrap();
    assert!(matches!(
        res,
        WriterResult::Ack { send_retries_spent, receive_retries_spent, time_spent: _ }
            if send_retries_spent == 0 && receive_retries_spent == 0
    ));
}

#[test]
fn test_request_send_without_peer_exhausts_ack_retries() {
    let mut writer: Writer<NoopResponder, MockSocketProvider> = Writer::new(
        &WriterConfig::new().url("req+connect:tcp://h").unwrap().build().unwrap(),
    )
    .unwrap();
    let m = Message::new(1, vec![]);
    let res = writer.send_message("test", &m, &[]).unwrap();
    assert!(matches!(
        res,
        WriterResult::NoAck { send_retries_spent, receive_retries_spent, time_spent: _ }
            if send_retries_spent == 0 && receive_retries_spent == 3
    ));
}

#[test]
fn test_eos_awaits_ack_on_every_role() {
    // Even a publisher's end-of-stream waits for the acknowledgment.
    for url in ["pub+bind:tcp://h", "dealer+connect:tcp://h", "req+connect:tcp://h"] {
        let mut writer: Writer<OkResponder, MockSocketProvider> =
            Writer::new(&WriterConfig::new().url(url).unwrap().build().unwrap()).unwrap();
        let res = writer.send_eos("test").unwrap();
        assert!(matches!(res, WriterResult::Ack { .. }), "{}", url);

        let mut writer: Writer<NoopResponder, MockSocketProvider> =
            Writer::new(&WriterConfig::new().url(url).unwrap().build().unwrap()).unwrap();
        let res = writer.send_eos("test").unwrap();
        assert!(matches!(res, WriterResult::NoAck { .. }), "{}", url);
    }
}

#[test]
fn test_dealer_frames_carry_source_prefix() {
    let m = Message::new(7, vec![]);
    let frames = assemble_message_frames(
        "cam",
        &m,
        &[b"blob".as_slice()],
        &Some(b"src".to_vec()),
        true,
    );
    assert_eq!(frames.len(), 5);
    assert_eq!(frames[0], b"src".to_vec());
    assert!(frames[1].is_empty());
    assert_eq!(frames[2], b"cam".to_vec());
    assert_eq!(frames[3], encode_message(&m));
    assert_eq!(frames[4], b"blob".to_vec());

    // Without a source, and off the dealer role, no prefix is added.
    let frames = assemble_message_frames("cam", &m, &[], &None, true);
    assert_eq!(frames.len(), 2);
    let frames = assemble_message_frames("cam", &m, &[], &Some(b"src".to_vec()), false);
    assert_eq!(frames.len(), 2);
}

#[test]
fn test_subscriber_receives_message() {
    let m = Message::new(42, vec![9, 9]);
    let mut frames = data_frames(b"test", &m);
    frames.push(b"extra".to_vec());
    let mut reader = sub_reader(frames, TopicPrefixSpec::source_id("test"));
    let res = reader.receive().unwrap();
    assert!(matches!(
        res,
        ReaderResult::Message { message, topic, routing_id, data }
            if message.meta.seq_id == 42 && message.payload == vec![9, 9]
                && topic == b"test" && routing_id.is_none()
                && data == vec![b"extra".to_vec()]
    ));
}

#[test]
fn test_subscriber_empty_socket_reads_as_timeout() {
    let mut reader = sub_reader(vec![], TopicPrefixSpec::none());
    let res = reader.receive().unwrap();
    assert!(matches!(res, ReaderResult::Timeout));
}

#[test]
fn test_subscriber_receives_eos() {
    let mut reader = sub_reader(
        data_frames(b"test", &Message::end_of_stream()),
        TopicPrefixSpec::source_id("test"),
    );
    let res = reader.receive().unwrap();
    assert!(matches!(
        res,
        ReaderResult::EndOfStream { topic, routing_id } if topic == b"test" && routing_id.is_none()
    ));
}

#[test]
fn test_prefix_mismatch_drops_frame() {
    let mut reader = sub_reader(
        data_frames(b"other", &Message::new(1, vec![])),
        TopicPrefixSpec::source_id("test"),
    );
    let res = reader.receive().unwrap();
    assert!(matches!(res, ReaderResult::PrefixMismatch { topic } if topic == b"other"));
}

#[test]
fn test_too_short_frames() {
    let mut reader = sub_reader(vec![b"test".to_vec()], TopicPrefixSpec::none());
    let res = reader.receive().unwrap();
    assert!(matches!(res, ReaderResult::TooShort { frame_count } if frame_count == 1));

    // An undecodable metadata frame surfaces the same way.
    let mut reader = sub_reader(
        vec![b"test".to_vec(), b"bad".to_vec()],
        TopicPrefixSpec::none(),
    );
    let res = reader.receive().unwrap();
    assert!(matches!(res, ReaderResult::TooShort { frame_count } if frame_count == 2));
}

#[test]
fn test_reply_reader_acknowledges() {
    let mut reader = reader_of_role(
        data_frames(b"test", &Message::new(1, vec![])),
        ReaderSocketType::Rep,
    );
    let res = reader.receive().unwrap();
    assert!(matches!(res, ReaderResult::Message { .. }));
    // The acknowledgment went out on the socket.
    let sent = reader.socket.take_buffer();
    assert_eq!(sent, vec![b"OK".to_vec()]);
}

#[test]
fn test_router_reader_parses_routing_prefix() {
    // With the empty delimiter.
    let m = Message::new(3, vec![]);
    let frames = vec![
        b"peer1".to_vec(),
        Vec::new(),
        b"test".to_vec(),
        encode_message(&m),
    ];
    let mut reader = reader_of_role(frames, ReaderSocketType::Router);
    let res = reader.receive().unwrap();
    assert!(matches!(
        res,
        ReaderResult::Message { message, topic, routing_id, data }
            if message.meta.seq_id == 3 && topic == b"test"
                && routing_id == Some(b"peer1".to_vec()) && data.is_empty()
    ));
    // The acknowledgment is addressed back to the peer.
    let sent = reader.socket.take_buffer();
    assert_eq!(sent, vec![b"peer1".to_vec(), b"OK".to_vec()]);

    // Without the delimiter.
    let frames = vec![
        b"peer2".to_vec(),
        b"test".to_vec(),
        encode_message(&Message::new(4, vec![])),
    ];
    let mut reader = reader_of_role(frames, ReaderSocketType::Router);
    let res = reader.receive().unwrap();
    assert!(matches!(
        res,
        ReaderResult::Message { message, routing_id, .. }
            if message.meta.seq_id == 4 && routing_id == Some(b"peer2".to_vec())
    ));
}

#[test]
fn test_router_reader_filters_stale_identity() {
    let m = Message::new(1, vec![]);
    let frames = |peer: &[u8]| {
        vec![peer.to_vec(), Vec::new(), b"test".to_vec(), encode_message(&m)]
    };
    let mut reader = reader_of_role(frames(b"peer1"), ReaderSocketType::Router);
    assert!(matches!(reader.receive().unwrap(), ReaderResult::Message { .. }));

    reader.socket = Socket::mock_with_frames(frames(b"peer2"), NoopResponder);
    assert!(matches!(reader.receive().unwrap(), ReaderResult::Message { .. }));

    // The first peer's identity is now stale for this topic.
    reader.socket = Socket::mock_with_frames(frames(b"peer1"), NoopResponder);
    let res = reader.receive().unwrap();
    assert!(matches!(
        res,
        ReaderResult::RoutingIdMismatch { topic, routing_id }
            if topic == b"test" && routing_id == b"peer1".to_vec()
    ));

    reader.socket = Socket::mock_with_frames(frames(b"peer2"), NoopResponder);
    assert!(matches!(reader.receive().unwrap(), ReaderResult::Message { .. }));
}

#[test]
fn test_writer_reader_mock_round_trip() {
    // What a request writer puts on the wire, a reply reader accepts whole.
    let m = Message::new(11, vec![5, 6, 7]);
    let frames = assemble_message_frames("cam1", &m, &[b"blob".as_slice()], &None, false);
    let mut reader = reader_of_role(frames, ReaderSocketType::Rep);
    let res = reader.receive().unwrap();
    assert!(matches!(
        res,
        ReaderResult::Message { message, topic, routing_id, data }
            if message.meta.seq_id == 11 && message.payload == vec![5, 6, 7]
                && topic == b"cam1" && routing_id.is_none()
                && data == vec![b"blob".to_vec()]
    ));
}

#[test]
fn test_pub_sub_sequence_order_preserved() {
    // Messages handed through the socket one after the other come out in
    // the same sequence-id order.
    let m1 = Message::new(1, vec![]);
    let m2 = Message::new(2, vec![]);
    let mut reader = sub_reader(data_frames(b"test", &m1), TopicPrefixSpec::source_id("test"));
    let first = reader.receive().unwrap();
    reader.socket = Socket::mock_with_frames(data_frames(b"test", &m2), NoopResponder);
    let second = reader.receive().unwrap();
    let seq = |r: &ReaderResult| match r {
        ReaderResult::Message { message, .. } => message.meta.seq_id,
        _ => panic!("expected a message"),
    };
    assert_eq!(seq(&first), 1);
    assert_eq!(seq(&second), 2);
}

#[test]
fn test_process_frames_returns_owed_ack() {
    // The decision core itself: a reply-role classification yields the
    // result and the `OK` acknowledgment owed to the peer; a subscriber
    // owes none.
    let mut filter = RoutingIdFilter::new(8).unwrap();
    let frames = data_frames(b"test", &Message::new(5, vec![]));
    let (result, ack) = process_frames(
        ReaderSocketType::Rep,
        &TopicPrefixSpec::none(),
        &mut filter,
        &frames,
    );
    assert!(matches!(result, ReaderResult::Message { .. }));
    assert_eq!(ack, Some(vec![b"OK".to_vec()]));

    let router_frames = vec![
        b"peer".to_vec(),
        Vec::new(),
        b"test".to_vec(),
        encode_message(&Message::new(6, vec![])),
    ];
    let (result, ack) = process_frames(
        ReaderSocketType::Router,
        &TopicPrefixSpec::none(),
        &mut filter,
        &router_frames,
    );
    assert!(matches!(result, ReaderResult::Message { .. }));
    assert_eq!(ack, Some(vec![b"peer".to_vec(), b"OK".to_vec()]));

    let (result, ack) = process_frames(
        ReaderSocketType::Sub,
        &TopicPrefixSpec::none(),
        &mut filter,
        &frames,
    );
    assert!(matches!(result, ReaderResult::Message { .. }));
    assert!(ack.is_none());
}

#[test]
fn test_reader_new_from_config() {
    let config = ReaderConfig::new()
        .url("sub+bind:tcp://0.0.0.0")
        .unwrap()
        .with_topic_prefix_spec(TopicPrefixSpec::source_id("test"))
        .unwrap()
        .build()
        .unwrap();
    let mut reader: Reader<NoopResponder, MockSocketProvider> = Reader::new(&config).unwrap();
    assert!(matches!(reader.receive().unwrap(), ReaderResult::Timeout));
}
