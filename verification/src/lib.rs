//! Reliable message transport core for a video analytics pipeline.
//!
//! The crate parses compact socket URIs into configurations, drives writer and
//! reader state machines over a pluggable socket abstraction, filters inbound
//! traffic by topic prefix and routing identity, and frames control metadata
//! on the wire.

pub mod bytes_util;
pub mod error;
pub mod frame;
pub mod message;
pub mod reader;
pub mod reader_config;
pub mod routing;
pub mod socket;
pub mod topic;
pub mod uri;
pub mod writer;
pub mod writer_config;

pub use error::TransportError;
pub use message::{Message, MessageMeta};
pub use reader::{Reader, ReaderResult};
pub use reader_config::{ReaderConfig, ReaderConfigBuilder};
pub use routing::RoutingIdFilter;
pub use socket::{MockSocketProvider, MockSocketResponder, NoopResponder, Socket, SocketProvider};
pub use topic::TopicPrefixSpec;
pub use uri::{parse_zmq_socket_uri, ReaderSocketType, SocketType, WriterSocketType, ZmqSocketUri};
pub use writer::{Writer, WriterResult};
pub use writer_config::{WriterConfig, WriterConfigBuilder};
