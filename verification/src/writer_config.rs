//! Validated construction of writer configurations.

use crate::error::TransportError;
use crate::uri::{
    parse_zmq_socket_uri, dir_of, lemma_uri_split_unique, role_of, uri_names_no_reader,
    uri_split_ok, uri_well_formed, SocketType, WriterSocketType,
};
use vstd::prelude::*;

verus! {

/// A validated writer configuration: where to wire the socket, its role, the
/// knobs of the send path and of acknowledgment receipt, and the optional
/// fixed source identity taken from the URI tail. Produced by
/// [`WriterConfigBuilder`].
#[derive(Debug)]
pub struct WriterConfig {
    pub endpoint: String,
    pub socket_type: WriterSocketType,
    pub bind: bool,
    pub send_timeout: i32,
    pub receive_timeout: i32,
    pub send_hwm: i32,
    pub send_retries: i32,
    pub receive_retries: i32,
    pub fix_ipc_permissions: Option<u32>,
    pub linger: i32,
    pub source: Option<String>,
}

impl WriterConfig {
    /// The ranges every built configuration satisfies.
    pub open spec fn wf(self) -> bool {
        &&& self.send_timeout > 0
        &&& self.receive_timeout > 0
        &&& self.send_hwm > 0
        &&& self.send_retries >= 0
        &&& self.receive_retries >= 0
        &&& self.linger >= 0
    }

    /// Start building a configuration.
    pub fn new() -> (r: WriterConfigBuilder)
        ensures
            r.endpoint is None,
            r.send_timeout == 5000,
            r.receive_timeout == 5000,
            r.send_hwm == 50,
            r.send_retries == 3,
            r.receive_retries == 3,
            r.fix_ipc_permissions is None,
            r.linger == 100,
            r.source is None,
    {
        WriterConfigBuilder {
            endpoint: None,
            socket_type: WriterSocketType::Pub,
            bind: true,
            send_timeout: 5000,
            receive_timeout: 5000,
            send_hwm: 50,
            send_retries: 3,
            receive_retries: 3,
            fix_ipc_permissions: None,
            linger: 100,
            source: None,
        }
    }
}

/// Builds a [`WriterConfig`], validating every value as it is supplied.
/// Defaults: role `pub` binding its endpoint, send timeout 5000 ms,
/// acknowledgment receive timeout 5000 ms, send high-water mark 50, three
/// send retries, three acknowledgment receive retries, linger 100 ms, no
/// fixed source.
#[derive(Debug)]
pub struct WriterConfigBuilder {
    pub endpoint: Option<String>,
    pub socket_type: WriterSocketType,
    pub bind: bool,
    pub send_timeout: i32,
    pub receive_timeout: i32,
    pub send_hwm: i32,
    pub send_retries: i32,
    pub receive_retries: i32,
    pub fix_ipc_permissions: Option<u32>,
    pub linger: i32,
    pub source: Option<String>,
}

impl WriterConfigBuilder {
    /// Take endpoint, role, binding direction and optional source from a
    /// socket URI. Refused when the URI does not parse or names a reader
    /// role; a URI without options keeps the defaults.
    pub fn url(self, url: &str) -> (r: Result<Self, TransportError>)
        ensures
            r matches Ok(b) ==> {
                &&& b.endpoint is Some
                &&& b.send_timeout == self.send_timeout
                &&& b.receive_timeout == self.receive_timeout
                &&& b.send_hwm == self.send_hwm
                &&& b.send_retries == self.send_retries
                &&& b.receive_retries == self.receive_retries
                &&& b.fix_ipc_permissions == self.fix_ipc_permissions
                &&& b.linger == self.linger
            },
            r matches Ok(b) ==> exists|olen: int, k: int, h: int|
                #![auto]
                {
                    &&& uri_split_ok(url@, olen, k, h)
                    &&& b.endpoint.unwrap()@ == url@.subrange(olen, h)
                    &&& (olen > 0 ==> role_of(url@.subrange(0, k)) == Some(
                        SocketType::Writer(b.socket_type),
                    ) && dir_of(url@.subrange(k + 1, olen - 1)) == Some(b.bind))
                    &&& (olen == 0 ==> b.socket_type == self.socket_type && b.bind == self.bind)
                    &&& (match b.source {
                        Some(src) => h < url@.len() && src@ == url@.subrange(
                            h + 1,
                            url@.len() as int,
                        ),
                        None => h == url@.len(),
                    })
                },
            r is Ok <==> (uri_well_formed(url@) && uri_names_no_reader(url@)),
            r matches Err(e) ==> (e is InvalidUri || e is InvalidConfig),
    {
        let parsed = match parse_zmq_socket_uri(url.to_owned()) {
            Ok(p) => p,
            Err(e) => {
                return Err(e);
            },
        };
        let ghost (olen, k, h): (int, int, int) = choose|olen: int, k: int, h: int|
            uri_split_ok(url@, olen, k, h) && crate::uri::uri_parts_ok(url@, olen, k, h, parsed);
        let (socket_type, bind): (WriterSocketType, bool) = match (parsed.socket_type, parsed.bind) {
            (Some(SocketType::Writer(t)), Some(b)) => (t, b),
            (Some(SocketType::Reader(_)), _) => {
                proof {
                    // The unique decomposition names a reader role.
                    assert(olen > 0 && role_of(url@.subrange(0, k)) matches Some(
                        SocketType::Reader(_),
                    ));
                }
                return Err(
                    TransportError::InvalidConfig {
                        field: String::from_str("url"),
                        reason: String::from_str("a writer cannot use a reader socket role"),
                    },
                );
            },
            _ => (self.socket_type, self.bind),
        };
        proof {
            // Every decomposition equals the one found, so none names a
            // reader role.
            assert forall|o2: int, k2: int, h2: int|
                uri_split_ok(url@, o2, k2, h2) && o2 > 0 implies !(role_of(
                url@.subrange(0, k2),
            ) matches Some(SocketType::Reader(_))) by {
                lemma_uri_split_unique(url@, o2, k2, h2, olen, k, h);
            }
        }
        Ok(
            Self {
                endpoint: Some(parsed.endpoint),
                socket_type,
                bind,
                source: parsed.source,
                ..self
            },
        )
    }

    /// Set the send timeout in milliseconds; it must be positive.
    pub fn with_send_timeout(self, timeout: i32) -> (r: Result<Self, TransportError>)
        ensures
            r is Ok <==> timeout > 0,
            r matches Ok(b) ==> b == (WriterConfigBuilder { send_timeout: timeout, ..self }),
            r matches Err(e) ==> e is InvalidConfig,
    {
        if timeout <= 0 {
            return Err(
                TransportError::InvalidConfig {
                    field: String::from_str("send_timeout"),
                    reason: String::from_str("send timeout must be positive"),
                },
            );
        }
        Ok(Self { send_timeout: timeout, ..self })
    }

    /// Set the acknowledgment receive timeout in milliseconds; it must be
    /// positive.
    pub fn with_receive_timeout(self, timeout: i32) -> (r: Result<Self, TransportError>)
        ensures
            r is Ok <==> timeout > 0,
            r matches Ok(b) ==> b == (WriterConfigBuilder { receive_timeout: timeout, ..self }),
            r matches Err(e) ==> e is InvalidConfig,
    {
        if timeout <= 0 {
            return Err(
                TransportError::InvalidConfig {
                    field: String::from_str("receive_timeout"),
                    reason: String::from_str("receive timeout must be positive"),
                },
            );
        }
        Ok(Self { receive_timeout: timeout, ..self })
    }

    /// Set the send high-water mark; it must be positive.
    pub fn with_send_hwm(self, hwm: i32) -> (r: Result<Self, TransportError>)
        ensures
            r is Ok <==> hwm > 0,
            r matches Ok(b) ==> b == (WriterConfigBuilder { send_hwm: hwm, ..self }),
            r matches Err(e) ==> e is InvalidConfig,
    {
        if hwm <= 0 {
            return Err(
                TransportError::InvalidConfig {
                    field: String::from_str("send_hwm"),
                    reason: String::from_str("send high-water mark must be positive"),
                },
            );
        }
        Ok(Self { send_hwm: hwm, ..self })
    }

    /// Set how often a blocked send is retried; zero retries is allowed.
    pub fn with_send_retries(self, retries: i32) -> (r: Result<Self, TransportError>)
        ensures
            r is Ok <==> retries >= 0,
            r matches Ok(b) ==> b == (WriterConfigBuilder { send_retries: retries, ..self }),
            r matches Err(e) ==> e is InvalidConfig,
    {
        if retries < 0 {
            return Err(
                TransportError::InvalidConfig {
                    field: String::from_str("send_retries"),
                    reason: String::from_str("send retries must not be negative"),
                },
            );
        }
        Ok(Self { send_retries: retries, ..self })
    }

    /// Set how often an acknowledgment receive is retried; zero retries is
    /// allowed.
    pub fn with_receive_retries(self, retries: i32) -> (r: Result<Self, TransportError>)
        ensures
            r is Ok <==> retries >= 0,
            r matches Ok(b) ==> b == (WriterConfigBuilder { receive_retries: retries, ..self }),
            r matches Err(e) ==> e is InvalidConfig,
    {
        if retries < 0 {
            return Err(
                TransportError::InvalidConfig {
                    field: String::from_str("receive_retries"),
                    reason: String::from_str("receive retries must not be negative"),
                },
            );
        }
        Ok(Self { receive_retries: retries, ..self })
    }

    /// For local-IPC endpoints that this writer binds: the permission bits to
    /// set on the socket file, or `None` to leave them alone.
    pub fn with_fix_ipc_permissions(self, permissions: Option<u32>) -> (r: Result<
        Self,
        TransportError,
    >)
        ensures
            r matches Ok(b) && b == (WriterConfigBuilder {
                fix_ipc_permissions: permissions,
                ..self
            }),
    {
        Ok(Self { fix_ipc_permissions: permissions, ..self })
    }

    /// Set the linger on close in milliseconds; it must not be negative.
    pub fn with_linger(self, linger: i32) -> (r: Result<Self, TransportError>)
        ensures
            r is Ok <==> linger >= 0,
            r matches Ok(b) ==> b == (WriterConfigBuilder { linger, ..self }),
            r matches Err(e) ==> e is InvalidConfig,
    {
        if linger < 0 {
            return Err(
                TransportError::InvalidConfig {
                    field: String::from_str("linger"),
                    reason: String::from_str("linger must not be negative"),
                },
            );
        }
        Ok(Self { linger, ..self })
    }

    /// Finish. Refused until a URI has been supplied.
    pub fn build(self) -> (r: Result<WriterConfig, TransportError>)
        ensures
            r is Ok <==> (self.endpoint is Some && self.send_timeout > 0 && self.receive_timeout
                > 0 && self.send_hwm > 0 && self.send_retries >= 0 && self.receive_retries >= 0
                && self.linger >= 0),
            r matches Ok(c) ==> {
                &&& c.wf()
                &&& c.endpoint == self.endpoint.unwrap()
                &&& c.socket_type == self.socket_type
                &&& c.bind == self.bind
                &&& c.send_timeout == self.send_timeout
                &&& c.receive_timeout == self.receive_timeout
                &&& c.send_hwm == self.send_hwm
                &&& c.send_retries == self.send_retries
                &&& c.receive_retries == self.receive_retries
                &&& c.fix_ipc_permissions == self.fix_ipc_permissions
                &&& c.linger == self.linger
                &&& c.source == self.source
            },
            r matches Err(e) ==> e is InvalidConfig,
    {
        let endpoint = match self.endpoint {
            Some(e) => e,
            None => {
                return Err(
                    TransportError::InvalidConfig {
                        field: String::from_str("url"),
                        reason: String::from_str("a socket URI is required"),
                    },
                );
            },
        };
        if self.send_timeout <= 0 || self.receive_timeout <= 0 || self.send_hwm <= 0
            || self.send_retries < 0 || self.receive_retries < 0 || self.linger < 0 {
            return Err(
                TransportError::InvalidConfig {
                    field: String::from_str("url"),
                    reason: String::from_str("a configuration value is out of range"),
                },
            );
        }
        Ok(
            WriterConfig {
                endpoint,
                socket_type: self.socket_type,
                bind: self.bind,
                send_timeout: self.send_timeout,
                receive_timeout: self.receive_timeout,
                send_hwm: self.send_hwm,
                send_retries: self.send_retries,
                receive_retries: self.receive_retries,
                fix_ipc_permissions: self.fix_ipc_permissions,
                linger: self.linger,
                source: self.source,
            },
        )
    }
}

} // verus!
