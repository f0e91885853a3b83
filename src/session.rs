//! Session-wide configuration and the collaborators a session consults.

use vstd::prelude::*;

use std::sync::Arc;
use std::time::Duration;

use openssl::ssl::SslContext;

use crate::consistency::Consistency;
use crate::consistency::SerialConsistency;
use crate::execution_profile::ExecutionProfile;
use crate::execution_profile::ExecutionProfileHandle;
use crate::shared::share_opt;
use vstd::utf8::encode_utf8;
use crate::time::duration_from_millis;
use crate::time::duration_from_secs;
use crate::time::duration_of_millis;
use crate::time::duration_of_secs;

verus! {

#[verifier::external_type_specification]
#[verifier::external_body]
pub struct ExSslContext(SslContext);

/// An IP address: four octets, or eight 16-bit segments.
#[derive(Debug, Clone, Copy, PartialEq, Eq, Hash)]
pub enum IpAddress {
    V4([u8; 4]),
    V6([u16; 8]),
}

/// A node's socket address.
#[derive(Debug, Clone, Copy, PartialEq, Eq, Hash)]
pub struct NodeAddr {
    pub ip: IpAddress,
    pub port: u16,
}

/// A node to contact first, by name or by address.
#[derive(Debug, PartialEq, Eq)]
pub enum KnownNode {
    Hostname(String),
    Address(NodeAddr),
}

impl KnownNode {
    /// The same node, in a value of its own.
    pub fn duplicate(&self) -> (r: Self)
        ensures
            r == *self,
    {
        match self {
            KnownNode::Hostname(h) => KnownNode::Hostname(h.clone()),
            KnownNode::Address(a) => KnownNode::Address(*a),
        }
    }
}

impl Clone for KnownNode {
    fn clone(&self) -> (r: Self)
        ensures
            r == *self,
    {
        self.duplicate()
    }
}

/// Relies on `SslContext::clone`: it takes another reference to the same
/// context.
#[verifier::external_body]
fn ssl_context_clone(c: &SslContext) -> (r: SslContext)
    ensures
        r == *c,
{
    c.clone()
}

/// Compression of the frames on a connection.
#[derive(Debug, Clone, Copy, PartialEq, Eq, Hash, Structural)]
pub enum Compression {
    Lz4,
    Snappy,
}

/// How many connections to keep: per node, or per shard of each node.
#[derive(Debug, Clone, Copy, PartialEq, Eq, Structural)]
pub enum PoolSize {
    PerHost(usize),
    PerShard(usize),
}

impl PoolSize {
    /// A pool keeps at least one connection.
    pub open spec fn wf(self) -> bool {
        match self {
            PoolSize::PerHost(n) => n > 0,
            PoolSize::PerShard(n) => n > 0,
        }
    }
}

impl Default for PoolSize {
    fn default() -> (r: Self)
        ensures
            r == PoolSize::PerShard(1),
    {
        PoolSize::PerShard(1)
    }
}

/// Supplies the credentials of a connection's authentication.
pub trait AuthenticatorProvider: Send + Sync {
    /// The first message to the server's authenticator.
    fn initial_response(&self, authenticator_name: &str) -> Option<Vec<u8>>;
}

/// Rewrites the addresses that nodes report for themselves.
pub trait AddressTranslator: Send + Sync {
    fn translate_address(&self, untranslated: &NodeAddr) -> Option<NodeAddr>;
}

/// Decides which nodes the driver may connect to.
pub trait HostFilter: Send + Sync {
    fn accept(&self, address: &NodeAddr) -> bool;
}

/// Authentication by user name and password.
pub struct PlainTextAuthenticator {
    username: String,
    password: String,
}

impl PlainTextAuthenticator {
    pub closed spec fn spec_username(&self) -> Seq<char> {
        self.username@
    }

    pub closed spec fn spec_password(&self) -> Seq<char> {
        self.password@
    }

    pub fn new(username: String, password: String) -> (r: Self)
        ensures
            r.spec_username() == username@,
            r.spec_password() == password@,
    {
        PlainTextAuthenticator { username, password }
    }
}

/// The plain-text credentials message: a zero byte, the user name in UTF-8,
/// a zero byte, the password in UTF-8.
pub open spec fn plain_text_response(username: Seq<char>, password: Seq<char>) -> Seq<u8> {
    seq![0u8] + encode_utf8(username) + seq![0u8] + encode_utf8(password)
}

impl AuthenticatorProvider for PlainTextAuthenticator {
    /// The credentials, whatever the server's authenticator is named.
    fn initial_response(&self, authenticator_name: &str) -> (r: Option<Vec<u8>>)
        ensures
            r matches Some(v) && v@ == plain_text_response(self.spec_username(), self.spec_password()),
    {
        let mut response: Vec<u8> = Vec::new();
        response.push(0);
        append_bytes(&mut response, self.username.as_str().as_bytes());
        response.push(0);
        append_bytes(&mut response, self.password.as_str().as_bytes());
        assert(response@ =~= plain_text_response(self.username@, self.password@));
        Some(response)
    }
}

fn append_bytes(v: &mut Vec<u8>, b: &[u8])
    ensures
        final(v)@ == old(v)@ + b@,
{
    let mut i: usize = 0;
    while i < b.len()
        invariant
            i <= b@.len(),
            v@ == old(v)@ + b@.subrange(0, i as int),
        decreases b@.len() - i,
    {
        v.push(b[i]);
        i += 1;
        assert(v@ =~= old(v)@ + b@.subrange(0, i as int));
    }
    assert(b@.subrange(0, b@.len() as int) =~= b@);
}

/// Everything a session is built from.
pub struct SessionConfig {
    pub known_nodes: Vec<KnownNode>,
    pub compression: Option<Compression>,
    pub tcp_nodelay: bool,
    pub schema_agreement_interval: Duration,
    pub default_execution_profile_handle: ExecutionProfileHandle,
    pub used_keyspace: Option<String>,
    pub keyspace_case_sensitive: bool,
    pub ssl_context: Option<SslContext>,
    pub authenticator: Option<Arc<dyn AuthenticatorProvider>>,
    pub connect_timeout: Duration,
    pub connection_pool_size: PoolSize,
    pub disallow_shard_aware_port: bool,
    pub keyspaces_to_fetch: Vec<String>,
    pub fetch_schema_metadata: bool,
    pub keepalive_interval: Option<Duration>,
    pub auto_await_schema_agreement_timeout: Option<Duration>,
    pub address_translator: Option<Arc<dyn AddressTranslator>>,
    pub host_filter: Option<Arc<dyn HostFilter>>,
    pub refresh_metadata_on_auto_schema_agreement: bool,
}

impl SessionConfig {
    /// The default configuration: no known nodes, no compression,
    /// `TCP_NODELAY` on, schema metadata fetched, five seconds to connect,
    /// one connection per shard.
    pub open spec fn is_default(&self) -> bool {
        &&& self.known_nodes@.len() == 0
        &&& self.compression is None
        &&& self.tcp_nodelay
        &&& self.schema_agreement_interval == duration_of_millis(200)
        &&& self.default_execution_profile_handle@ == (ExecutionProfile {
            consistency: Consistency::LocalQuorum,
            serial_consistency: Some(SerialConsistency::LocalSerial),
            request_timeout: Some(duration_of_secs(30)),
        })
        &&& self.used_keyspace is None
        &&& !self.keyspace_case_sensitive
        &&& self.ssl_context is None
        &&& self.authenticator is None
        &&& self.connect_timeout == duration_of_secs(5)
        &&& self.connection_pool_size == PoolSize::PerShard(1)
        &&& !self.disallow_shard_aware_port
        &&& self.keyspaces_to_fetch@.len() == 0
        &&& self.fetch_schema_metadata
        &&& self.keepalive_interval is None
        &&& self.auto_await_schema_agreement_timeout == Some(duration_of_secs(60))
        &&& self.address_translator is None
        &&& self.host_filter is None
        &&& self.refresh_metadata_on_auto_schema_agreement
    }

    /// The default configuration.
    pub fn new() -> (r: Self)
        ensures
            r.is_default(),
    {
        SessionConfig {
            known_nodes: Vec::new(),
            compression: None,
            tcp_nodelay: true,
            schema_agreement_interval: duration_from_millis(200),
            default_execution_profile_handle: ExecutionProfile::new().into_handle(),
            used_keyspace: None,
            keyspace_case_sensitive: false,
            ssl_context: None,
            authenticator: None,
            connect_timeout: duration_from_secs(5),
            connection_pool_size: PoolSize::default(),
            disallow_shard_aware_port: false,
            keyspaces_to_fetch: Vec::new(),
            fetch_schema_metadata: true,
            keepalive_interval: None,
            auto_await_schema_agreement_timeout: Some(duration_from_secs(60)),
            address_translator: None,
            host_filter: None,
            refresh_metadata_on_auto_schema_agreement: true,
        }
    }

    /// Appends a node given by name.
    pub fn add_known_node(&mut self, hostname: &str)
        ensures
            final(self).known_nodes@.len() == old(self).known_nodes@.len() + 1,
            final(self).known_nodes@.drop_last() == old(self).known_nodes@,
            is_hostname(final(self).known_nodes@.last(), hostname@),
            *final(self) == (SessionConfig { known_nodes: final(self).known_nodes, ..*old(self) }),
    {
        self.known_nodes.push(KnownNode::Hostname(hostname.to_owned()));
    }

    /// Appends a node given by address.
    pub fn add_known_node_addr(&mut self, node_addr: NodeAddr)
        ensures
            final(self).known_nodes@ == old(self).known_nodes@.push(KnownNode::Address(node_addr)),
            *final(self) == (SessionConfig { known_nodes: final(self).known_nodes, ..*old(self) }),
    {
        self.known_nodes.push(KnownNode::Address(node_addr));
    }

    /// Appends nodes given by name, in order.
    pub fn add_known_nodes(&mut self, hostnames: &[&str])
        ensures
            final(self).known_nodes@.len() == old(self).known_nodes@.len() + hostnames@.len(),
            final(self).known_nodes@.subrange(0, old(self).known_nodes@.len() as int)
                == old(self).known_nodes@,
            forall|i: int|
                0 <= i < hostnames@.len() ==> is_hostname(
                    #[trigger] final(self).known_nodes@[old(self).known_nodes@.len() + i],
                    hostnames@[i]@,
                ),
            *final(self) == (SessionConfig { known_nodes: final(self).known_nodes, ..*old(self) }),
    {
        let mut i: usize = 0;
        while i < hostnames.len()
            invariant
                i <= hostnames@.len(),
                self.known_nodes@.len() == old(self).known_nodes@.len() + i,
                self.known_nodes@.subrange(0, old(self).known_nodes@.len() as int)
                    == old(self).known_nodes@,
                forall|j: int|
                    0 <= j < i ==> is_hostname(
                        #[trigger] self.known_nodes@[old(self).known_nodes@.len() + j],
                        hostnames@[j]@,
                    ),
                *self == (SessionConfig { known_nodes: self.known_nodes, ..*old(self) }),
            decreases hostnames@.len() - i,
        {
            let ghost prev = self.known_nodes@;
            self.add_known_node(hostnames[i]);
            assert(self.known_nodes@.subrange(0, old(self).known_nodes@.len() as int)
                =~= old(self).known_nodes@);
            assert forall|j: int| 0 <= j < i + 1 implies is_hostname(
                #[trigger] self.known_nodes@[old(self).known_nodes@.len() + j],
                hostnames@[j]@,
            ) by {
                if j < i {
                    assert(self.known_nodes@.drop_last()[old(self).known_nodes@.len() + j]
                        == prev[old(self).known_nodes@.len() + j]);
                }
            }
            i += 1;
        }
    }

    /// Appends nodes given by address, in order.
    pub fn add_known_nodes_addr(&mut self, node_addrs: &[NodeAddr])
        ensures
            final(self).known_nodes@ == old(self).known_nodes@ + node_addrs@.map_values(
                |a: NodeAddr| KnownNode::Address(a),
            ),
            *final(self) == (SessionConfig { known_nodes: final(self).known_nodes, ..*old(self) }),
    {
        let mut i: usize = 0;
        while i < node_addrs.len()
            invariant
                i <= node_addrs@.len(),
                self.known_nodes@ == old(self).known_nodes@ + node_addrs@.subrange(
                    0,
                    i as int,
                ).map_values(|a: NodeAddr| KnownNode::Address(a)),
                *self == (SessionConfig { known_nodes: self.known_nodes, ..*old(self) }),
            decreases node_addrs@.len() - i,
        {
            self.add_known_node_addr(node_addrs[i]);
            i += 1;
            assert(self.known_nodes@ =~= old(self).known_nodes@ + node_addrs@.subrange(
                0,
                i as int,
            ).map_values(|a: NodeAddr| KnownNode::Address(a)));
        }
        assert(node_addrs@.subrange(0, node_addrs@.len() as int) =~= node_addrs@);
    }
}

impl SessionConfig {
    /// The same configuration, in a value of its own; collaborators and the
    /// TLS context are shared.
    pub fn duplicate(&self) -> (r: Self)
        ensures
            same_config(r, *self),
    {
        let mut known_nodes: Vec<KnownNode> = Vec::new();
        let mut i: usize = 0;
        while i < self.known_nodes.len()
            invariant
                i <= self.known_nodes@.len(),
                known_nodes@ == self.known_nodes@.subrange(0, i as int),
            decreases self.known_nodes@.len() - i,
        {
            known_nodes.push(self.known_nodes[i].duplicate());
            i += 1;
            assert(known_nodes@ =~= self.known_nodes@.subrange(0, i as int));
        }
        assert(self.known_nodes@.subrange(0, i as int) =~= self.known_nodes@);
        let mut keyspaces_to_fetch: Vec<String> = Vec::new();
        let mut j: usize = 0;
        while j < self.keyspaces_to_fetch.len()
            invariant
                j <= self.keyspaces_to_fetch@.len(),
                keyspaces_to_fetch@ == self.keyspaces_to_fetch@.subrange(0, j as int),
            decreases self.keyspaces_to_fetch@.len() - j,
        {
            keyspaces_to_fetch.push(self.keyspaces_to_fetch[j].clone());
            j += 1;
            assert(keyspaces_to_fetch@ =~= self.keyspaces_to_fetch@.subrange(0, j as int));
        }
        assert(self.keyspaces_to_fetch@.subrange(0, j as int) =~= self.keyspaces_to_fetch@);
        let used_keyspace = match &self.used_keyspace {
            Some(k) => Some(k.clone()),
            None => None,
        };
        let ssl_context = match &self.ssl_context {
            Some(c) => Some(ssl_context_clone(c)),
            None => None,
        };
        SessionConfig {
            known_nodes,
            compression: self.compression,
            tcp_nodelay: self.tcp_nodelay,
            schema_agreement_interval: self.schema_agreement_interval,
            default_execution_profile_handle: self.default_execution_profile_handle.duplicate(),
            used_keyspace,
            keyspace_case_sensitive: self.keyspace_case_sensitive,
            ssl_context,
            authenticator: share_opt(&self.authenticator),
            connect_timeout: self.connect_timeout,
            connection_pool_size: self.connection_pool_size,
            disallow_shard_aware_port: self.disallow_shard_aware_port,
            keyspaces_to_fetch,
            fetch_schema_metadata: self.fetch_schema_metadata,
            keepalive_interval: self.keepalive_interval,
            auto_await_schema_agreement_timeout: self.auto_await_schema_agreement_timeout,
            address_translator: share_opt(&self.address_translator),
            host_filter: share_opt(&self.host_filter),
            refresh_metadata_on_auto_schema_agreement: self.refresh_metadata_on_auto_schema_agreement,
        }
    }
}

impl Clone for SessionConfig {
    fn clone(&self) -> (r: Self)
        ensures
            same_config(r, *self),
    {
        self.duplicate()
    }
}

/// Two configurations with the same settings.
pub open spec fn same_config(a: SessionConfig, b: SessionConfig) -> bool {
    &&& a.known_nodes@ == b.known_nodes@
    &&& a.keyspaces_to_fetch@ == b.keyspaces_to_fetch@
    &&& a == (SessionConfig {
        known_nodes: a.known_nodes,
        keyspaces_to_fetch: a.keyspaces_to_fetch,
        ..b
    })
}

/// `n` is the node named `h`.
pub open spec fn is_hostname(n: KnownNode, h: Seq<char>) -> bool {
    match n {
        KnownNode::Hostname(s) => s@ == h,
        KnownNode::Address(_) => false,
    }
}

} // verus!
