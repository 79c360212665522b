//! Validated construction of reader configurations.

use crate::error::TransportError;
use crate::topic::TopicPrefixSpec;
use crate::uri::{
    parse_zmq_socket_uri, dir_of, lemma_uri_split_unique, role_of, uri_names_no_writer,
    uri_split_ok, uri_well_formed, ReaderSocketType, SocketType,
};
use vstd::prelude::*;

verus! {

/// A validated reader configuration: where to wire the socket, its role, and
/// the knobs of the receive path. Produced by [`ReaderConfigBuilder`].
#[derive(Debug)]
pub struct ReaderConfig {
    pub endpoint: String,
    pub socket_type: ReaderSocketType,
    pub bind: bool,
    pub receive_timeout: i32,
    pub receive_hwm: i32,
    pub topic_prefix_spec: TopicPrefixSpec,
    pub routing_ids_cache_size: usize,
    pub fix_ipc_permissions: Option<u32>,
    pub linger: i32,
}

impl ReaderConfig {
    /// The ranges every built configuration satisfies.
    pub open spec fn wf(self) -> bool {
        &&& self.receive_timeout > 0
        &&& self.receive_hwm > 0
        &&& self.routing_ids_cache_size >= 1
        &&& self.linger >= 0
    }

    /// Start building a configuration.
    pub fn new() -> (r: ReaderConfigBuilder)
        ensures
            r.endpoint is None,
            r.receive_timeout == 1000,
            r.receive_hwm == 50,
            r.topic_prefix_spec is Any,
            r.routing_ids_cache_size == 512,
            r.fix_ipc_permissions is None,
            r.linger == 100,
    {
        ReaderConfigBuilder {
            endpoint: None,
            socket_type: ReaderSocketType::Sub,
            bind: true,
            receive_timeout: 1000,
            receive_hwm: 50,
            topic_prefix_spec: TopicPrefixSpec::Any,
            routing_ids_cache_size: 512,
            fix_ipc_permissions: None,
            linger: 100,
        }
    }
}

/// Builds a [`ReaderConfig`], validating every value as it is supplied.
/// Defaults: role `sub` binding its endpoint, receive timeout 1000 ms,
/// receive high-water mark 50, every topic admitted, routing-id cache of
/// 512 entries, linger 100 ms.
#[derive(Debug)]
pub struct ReaderConfigBuilder {
    pub endpoint: Option<String>,
    pub socket_type: ReaderSocketType,
    pub bind: bool,
    pub receive_timeout: i32,
    pub receive_hwm: i32,
    pub topic_prefix_spec: TopicPrefixSpec,
    pub routing_ids_cache_size: usize,
    pub fix_ipc_permissions: Option<u32>,
    pub linger: i32,
}

impl ReaderConfigBuilder {
    /// Take endpoint, role and binding direction from a socket URI. Refused
    /// when the URI does not parse or names a writer role; a URI without
    /// options keeps the defaults.
    pub fn url(self, url: &str) -> (r: Result<Self, TransportError>)
        ensures
            r matches Ok(b) ==> {
                &&& b.endpoint is Some
                &&& b.receive_timeout == self.receive_timeout
                &&& b.receive_hwm == self.receive_hwm
                &&& b.topic_prefix_spec == self.topic_prefix_spec
                &&& b.routing_ids_cache_size == self.routing_ids_cache_size
                &&& b.fix_ipc_permissions == self.fix_ipc_permissions
                &&& b.linger == self.linger
            },
            r matches Ok(b) ==> exists|olen: int, k: int, h: int|
                #![auto]
                {
                    &&& uri_split_ok(url@, olen, k, h)
                    &&& b.endpoint.unwrap()@ == url@.subrange(olen, h)
                    &&& (olen > 0 ==> role_of(url@.subrange(0, k)) == Some(
                        SocketType::Reader(b.socket_type),
                    ) && dir_of(url@.subrange(k + 1, olen - 1)) == Some(b.bind))
                    &&& (olen == 0 ==> b.socket_type == self.socket_type && b.bind == self.bind)
                },
            r is Ok <==> (uri_well_formed(url@) && uri_names_no_writer(url@)),
            r matches Err(e) ==> (e is InvalidUri || e is InvalidConfig),
    {
        let parsed = match parse_zmq_socket_uri(url.to_owned()) {
            Ok(p) => p,
            Err(e) => {
                return Err(e);
            },
        };
        let ghost (olen, k, h): (int, int, int) = choose|olen: int, k: int, h: int|
            uri_split_ok(url@, olen, k, h) && crate::uri::uri_parts_ok(url@, olen, k, h, parsed);
        let (socket_type, bind): (ReaderSocketType, bool) = match (parsed.socket_type, parsed.bind) {
            (Some(SocketType::Reader(t)), Some(b)) => (t, b),
            (Some(SocketType::Writer(_)), _) => {
                proof {
                    // The unique decomposition names a writer role.
                    assert(olen > 0 && role_of(url@.subrange(0, k)) matches Some(
                        SocketType::Writer(_),
                    ));
                }
                return Err(
                    TransportError::InvalidConfig {
                        field: String::from_str("url"),
                        reason: String::from_str("a reader cannot use a writer socket role"),
                    },
                );
            },
            _ => (self.socket_type, self.bind),
        };
        proof {
            // Every decomposition equals the one found, so none names a
            // writer role.
            assert forall|o2: int, k2: int, h2: int|
                uri_split_ok(url@, o2, k2, h2) && o2 > 0 implies !(role_of(
                url@.subrange(0, k2),
            ) matches Some(SocketType::Writer(_))) by {
                lemma_uri_split_unique(url@, o2, k2, h2, olen, k, h);
            }
        }
        Ok(
            Self {
                endpoint: Some(parsed.endpoint),
                socket_type,
                bind,
                ..self
            },
        )
    }

    /// Set the receive timeout in milliseconds; it must be positive.
    pub fn with_receive_timeout(self, timeout: i32) -> (r: Result<Self, TransportError>)
        ensures
            r is Ok <==> timeout > 0,
            r matches Ok(b) ==> b == (ReaderConfigBuilder { receive_timeout: timeout, ..self }),
            r matches Err(e) ==> e is InvalidConfig,
    {
        if timeout <= 0 {
            return Err(
                TransportError::InvalidConfig {
                    field: String::from_str("receive_timeout"),
                    reason: String::from_str("receive timeout must be positive"),
                },
            );
        }
        Ok(Self { receive_timeout: timeout, ..self })
    }

    /// Set the receive high-water mark; it must be positive.
    pub fn with_receive_hwm(self, hwm: i32) -> (r: Result<Self, TransportError>)
        ensures
            r is Ok <==> hwm > 0,
            r matches Ok(b) ==> b == (ReaderConfigBuilder { receive_hwm: hwm, ..self }),
            r matches Err(e) ==> e is InvalidConfig,
    {
        if hwm <= 0 {
            return Err(
                TransportError::InvalidConfig {
                    field: String::from_str("receive_hwm"),
                    reason: String::from_str("receive high-water mark must be positive"),
                },
            );
        }
        Ok(Self { receive_hwm: hwm, ..self })
    }

    /// Set which topics the reader accepts.
    pub fn with_topic_prefix_spec(self, spec: TopicPrefixSpec) -> (r: Result<Self, TransportError>)
        ensures
            r matches Ok(b) && b == (ReaderConfigBuilder { topic_prefix_spec: spec, ..self }),
    {
        Ok(Self { topic_prefix_spec: spec, ..self })
    }

    /// Set the routing-id cache size; it must be positive.
    pub fn with_routing_ids_cache_size(self, size: usize) -> (r: Result<Self, TransportError>)
        ensures
            r is Ok <==> size >= 1,
            r matches Ok(b) ==> b == (ReaderConfigBuilder { routing_ids_cache_size: size, ..self }),
            r matches Err(e) ==> e is InvalidConfig,
    {
        if size == 0 {
            return Err(
                TransportError::InvalidConfig {
                    field: String::from_str("routing_ids_cache_size"),
                    reason: String::from_str("routing id cache size must be positive"),
                },
            );
        }
        Ok(Self { routing_ids_cache_size: size, ..self })
    }

    /// For local-IPC endpoints that this reader binds: the permission bits to
    /// set on the socket file, or `None` to leave them alone.
    pub fn with_fix_ipc_permissions(self, permissions: Option<u32>) -> (r: Result<
        Self,
        TransportError,
    >)
        ensures
            r matches Ok(b) && b == (ReaderConfigBuilder {
                fix_ipc_permissions: permissions,
                ..self
            }),
    {
        Ok(Self { fix_ipc_permissions: permissions, ..self })
    }

    /// Set the linger on close in milliseconds; it must not be negative.
    pub fn with_linger(self, linger: i32) -> (r: Result<Self, TransportError>)
        ensures
            r is Ok <==> linger >= 0,
            r matches Ok(b) ==> b == (ReaderConfigBuilder { linger, ..self }),
            r matches Err(e) ==> e is InvalidConfig,
    {
        if linger < 0 {
            return Err(
                TransportError::InvalidConfig {
                    field: String::from_str("linger"),
                    reason: String::from_str("linger must not be negative"),
                },
            );
        }
        Ok(Self { linger, ..self })
    }

    /// Finish. Refused until a URI has been supplied.
    pub fn build(self) -> (r: Result<ReaderConfig, TransportError>)
        ensures
            r is Ok <==> (self.endpoint is Some && self.receive_timeout > 0 && self.receive_hwm > 0
                && self.routing_ids_cache_size >= 1 && self.linger >= 0),
            r matches Ok(c) ==> {
                &&& c.wf()
                &&& c.endpoint == self.endpoint.unwrap()
                &&& c.socket_type == self.socket_type
                &&& c.bind == self.bind
                &&& c.receive_timeout == self.receive_timeout
                &&& c.receive_hwm == self.receive_hwm
                &&& c.topic_prefix_spec == self.topic_prefix_spec
                &&& c.routing_ids_cache_size == self.routing_ids_cache_size
                &&& c.fix_ipc_permissions == self.fix_ipc_permissions
                &&& c.linger == self.linger
            },
            r matches Err(e) ==> e is InvalidConfig,
    {
        let endpoint = match self.endpoint {
            Some(e) => e,
            None => {
                return Err(
                    TransportError::InvalidConfig {
                        field: String::from_str("url"),
                        reason: String::from_str("a socket URI is required"),
                    },
                );
            },
        };
        if self.receive_timeout <= 0 || self.receive_hwm <= 0 || self.routing_ids_cache_size == 0
            || self.linger < 0 {
            return Err(
                TransportError::InvalidConfig {
                    field: String::from_str("url"),
                    reason: String::from_str("a configuration value is out of range"),
                },
            );
        }
        Ok(
            ReaderConfig {
                endpoint,
                socket_type: self.socket_type,
                bind: self.bind,
                receive_timeout: self.receive_timeout,
                receive_hwm: self.receive_hwm,
                topic_prefix_spec: self.topic_prefix_spec,
                routing_ids_cache_size: self.routing_ids_cache_size,
                fix_ipc_permissions: self.fix_ipc_permissions,
                linger: self.linger,
            },
        )
    }
}

} // verus!
