use savant_core::uri::{
    parse_zmq_socket_uri, ipc_socket_path, ReaderSocketType, SocketType, WriterSocketType,
    ZmqSocketUri,
};

#[test]
fn test_parse_only_uri() {
    let uri = "ipc:///tmp/address".to_string();
    let res = parse_zmq_socket_uri(uri).unwrap();
    assert_eq!(res.endpoint, "ipc:///tmp/address");
    assert!(res.bind.is_none());
    assert!(res.socket_type.is_none());
}

#[test]
fn test_parse_uri_with_options() {
    let uri = "pub+bind:tcp://address".to_string();
    let res = parse_zmq_socket_uri(uri).unwrap();
    assert_eq!(res.endpoint, "tcp://address");
    assert!(matches!(res.bind, Some(true)));
    assert!(matches!(
        res.socket_type,
        Some(SocketType::Writer(WriterSocketType::Pub))
    ));
}

#[test]
fn test_parse_writer_with_options_and_source() {
    let uri = "pub+bind:tcp://address:1234".to_string();
    let res = parse_zmq_socket_uri(uri).unwrap();
    assert_eq!(res.endpoint, "tcp://address");
    assert!(matches!(res.bind, Some(true)));
    assert!(matches!(
        res.socket_type,
        Some(SocketType::Writer(WriterSocketType::Pub))
    ));
    assert_eq!(res.source, Some("1234".to_string()));
}

#[test]
fn test_parse_reader_with_options_and_source() {
    let uri = "sub+bind:tcp://address:1234".to_string();
    let res = parse_zmq_socket_uri(uri);
    assert!(res.is_err());
}

#[test]
fn test_wrong_protocol() {
    let uri = "sub+bind:udp://address".to_string();
    let res = parse_zmq_socket_uri(uri);
    assert!(res.is_err());
}

#[test]
fn test_parse_all_roles() {
    for (uri, expect) in [
        ("sub+connect:tcp://h", SocketType::Reader(ReaderSocketType::Sub)),
        ("router+bind:tcp://h", SocketType::Reader(ReaderSocketType::Router)),
        ("rep+bind:tcp://h", SocketType::Reader(ReaderSocketType::Rep)),
        ("pub+connect:tcp://h", SocketType::Writer(WriterSocketType::Pub)),
        ("dealer+connect:tcp://h", SocketType::Writer(WriterSocketType::Dealer)),
        ("req+connect:tcp://h", SocketType::Writer(WriterSocketType::Req)),
    ] {
        let res = parse_zmq_socket_uri(uri.to_string()).unwrap();
        assert_eq!(res.socket_type, Some(expect));
        assert_eq!(res.endpoint, "tcp://h");
    }
}

#[test]
fn test_parse_rejections() {
    // Unknown role, unknown direction, missing host, empty source, no scheme.
    for uri in [
        "xyz+bind:tcp://h",
        "pub+listen:tcp://h",
        "tcp://",
        "pub+bind:tcp://h:",
        "address",
        "",
        "pub+bind:",
        "sub+bind:ipc://",
    ] {
        assert!(parse_zmq_socket_uri(uri.to_string()).is_err(), "{}", uri);
    }
}

#[test]
fn test_parse_source_with_colons() {
    let res = parse_zmq_socket_uri("req+connect:tcp://host:5555:sourceA".to_string()).unwrap();
    assert_eq!(res.endpoint, "tcp://host");
    assert_eq!(res.source, Some("5555:sourceA".to_string()));
}

#[test]
fn test_format_parse_roundtrip() {
    let desc = ZmqSocketUri {
        endpoint: "tcp://0.0.0.0:".trim_end_matches(':').to_string(),
        source: Some("camA".to_string()),
        bind: Some(false),
        socket_type: Some(SocketType::Writer(WriterSocketType::Dealer)),
    };
    let uri = desc.to_uri_string();
    assert_eq!(uri, "dealer+connect:tcp://0.0.0.0:camA");
    let back = parse_zmq_socket_uri(uri).unwrap();
    assert_eq!(back.endpoint, desc.endpoint);
    assert_eq!(back.source, desc.source);
    assert_eq!(back.bind, desc.bind);
    assert_eq!(back.socket_type, desc.socket_type);

    let plain = ZmqSocketUri {
        endpoint: "ipc:///tmp/sock".to_string(),
        source: None,
        bind: None,
        socket_type: None,
    };
    let uri = plain.to_uri_string();
    assert_eq!(uri, "ipc:///tmp/sock");
    let back = parse_zmq_socket_uri(uri).unwrap();
    assert_eq!(back.endpoint, plain.endpoint);
    assert!(back.source.is_none());
    assert!(back.bind.is_none());
    assert!(back.socket_type.is_none());
}

#[test]
fn test_ipc_socket_path() {
    assert_eq!(
        ipc_socket_path("ipc:///tmp/test/sock").unwrap(),
        "/tmp/test/sock"
    );
    assert!(ipc_socket_path("tcp://host:1234").is_err());
    assert!(ipc_socket_path("ipc://").is_err());
}
