use savant_core::topic::TopicPrefixSpec;

#[test]
fn test_topic_prefix_spec() {
    let spec = TopicPrefixSpec::source_id("source_id");
    assert!(spec.matches(b"source_id"));
    assert!(!spec.matches(b"source_id2"));
    assert!(!spec.matches(b"source_id/abc"));
    assert!(!spec.matches(b"source_id/abc/def"));

    let spec = TopicPrefixSpec::prefix("prefix");
    assert!(spec.matches(b"prefix"));
    assert!(spec.matches(b"prefix/abc"));
    assert!(spec.matches(b"prefix/abc/def"));
    assert!(!spec.matches(b"prefi"));
    assert!(!spec.matches(b"prefi/abc"));
    assert!(!spec.matches(b"prefi/abc/def"));

    let spec = TopicPrefixSpec::none();
    assert!(spec.matches(b"prefix"));
    assert!(spec.matches(b"prefix/abc"));
    assert!(spec.matches(b"prefix/abc/def"));
    assert!(spec.matches(b"source_id"));
    assert!(spec.matches(b"source_id/abc"));
    assert!(spec.matches(b"source_id/abc/def"));
}

#[test]
fn test_topic_prefix_spec_get() {
    assert_eq!(TopicPrefixSpec::source_id("cam1").get(), "cam1");
    assert_eq!(TopicPrefixSpec::prefix("pre").get(), "pre");
    assert_eq!(TopicPrefixSpec::none().get(), "");
}

#[test]
fn test_topic_prefix_spec_empty_strings() {
    // An empty source id matches only the empty topic; an empty prefix
    // matches everything.
    let spec = TopicPrefixSpec::source_id("");
    assert!(spec.matches(b""));
    assert!(!spec.matches(b"a"));
    let spec = TopicPrefixSpec::prefix("");
    assert!(spec.matches(b""));
    assert!(spec.matches(b"anything"));
}
