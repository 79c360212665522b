//! Topic prefix filtering: the rule a reader applies to the first payload
//! frame (the topic) of every inbound message.

use crate::bytes_util::{bytes_eq, bytes_starts_with};
use vstd::prelude::*;

verus! {

/// How a reader decides whether an inbound topic is for it: byte-exact match
/// against a fixed source id, byte-prefix match, or unconditional acceptance.
#[derive(Debug, Clone)]
pub enum TopicPrefixSpec {
    SourceId(String),
    Prefix(String),
    Any,
}

impl TopicPrefixSpec {
    /// Does this spec admit the topic `topic` (a byte string)?
    pub open spec fn admits(self, topic: Seq<u8>) -> bool {
        match self {
            TopicPrefixSpec::SourceId(s) => topic == vstd::utf8::encode_utf8(s@),
            TopicPrefixSpec::Prefix(p) => vstd::utf8::encode_utf8(p@).is_prefix_of(topic),
            TopicPrefixSpec::Any => true,
        }
    }

    pub fn source_id(source_id: &str) -> (r: Self)
        ensures
            r == TopicPrefixSpec::SourceId(r.arrow_SourceId_0()),
            r.arrow_SourceId_0()@ == source_id@,
    {
        Self::SourceId(source_id.to_owned())
    }

    pub fn prefix(prefix: &str) -> (r: Self)
        ensures
            r == TopicPrefixSpec::Prefix(r.arrow_Prefix_0()),
            r.arrow_Prefix_0()@ == prefix@,
    {
        Self::Prefix(prefix.to_owned())
    }

    pub fn none() -> (r: Self)
        ensures
            r == TopicPrefixSpec::Any,
    {
        Self::Any
    }

    /// The configured pattern string; empty when every topic is admitted.
    pub fn get(&self) -> (r: String)
        ensures
            match self {
                TopicPrefixSpec::SourceId(s) => r@ == s@,
                TopicPrefixSpec::Prefix(p) => r@ == p@,
                TopicPrefixSpec::Any => r@ == Seq::<char>::empty(),
            },
    {
        match self {
            TopicPrefixSpec::SourceId(source_id) => source_id.clone(),
            TopicPrefixSpec::Prefix(prefix) => prefix.clone(),
            TopicPrefixSpec::Any => String::new(),
        }
    }

    /// Byte-exact for `SourceId`, byte-prefix for `Prefix`, always true for
    /// `Any`.
    pub fn matches(&self, topic: &[u8]) -> (r: bool)
        ensures
            r == self.admits(topic@),
    {
        match self {
            TopicPrefixSpec::SourceId(source_id) => bytes_eq(topic, source_id.as_str().as_bytes()),
            TopicPrefixSpec::Prefix(prefix) => bytes_starts_with(topic, prefix.as_str().as_bytes()),
            TopicPrefixSpec::Any => true,
        }
    }

    /// A copy that admits exactly the same topics.
    pub fn duplicate(&self) -> (r: Self)
        ensures
            forall|t: Seq<u8>| r.admits(t) == self.admits(t),
            r is SourceId <==> self is SourceId,
            r is Prefix <==> self is Prefix,
            r is Any <==> self is Any,
    {
        match self {
            TopicPrefixSpec::SourceId(source_id) => TopicPrefixSpec::SourceId(source_id.clone()),
            TopicPrefixSpec::Prefix(prefix) => TopicPrefixSpec::Prefix(prefix.clone()),
            TopicPrefixSpec::Any => TopicPrefixSpec::Any,
        }
    }
}

} // verus!
