//! A fluent builder of session configurations.

use vstd::prelude::*;

use std::sync::Arc;
use std::time::Duration;

use openssl::ssl::SslContext;

use crate::execution_profile::ExecutionProfileHandle;
use crate::session::is_hostname;
use crate::session::same_config;
use crate::session::AddressTranslator;
use crate::session::AuthenticatorProvider;
use crate::session::Compression;
use crate::session::HostFilter;
use crate::session::KnownNode;
use crate::session::NodeAddr;
use crate::session::PoolSize;
use crate::session::SessionConfig;

verus! {

/// Collects the configuration of a session, one setting per call.
pub struct SessionBuilder {
    pub config: SessionConfig,
}

impl SessionBuilder {
    /// A builder holding the default configuration.
    pub fn new() -> (r: Self)
        ensures
            r.config.is_default(),
    {
        SessionBuilder { config: SessionConfig::new() }
    }

    /// Adds a node to contact, by host name (`"db1.example.com:9042"`).
    pub fn known_node(self, hostname: &str) -> (r: Self)
        ensures
            r.config.known_nodes@.len() == self.config.known_nodes@.len() + 1,
            r.config.known_nodes@.drop_last() == self.config.known_nodes@,
            is_hostname(r.config.known_nodes@.last(), hostname@),
            r.config == (SessionConfig { known_nodes: r.config.known_nodes, ..self.config }),
    {
        let mut builder = self;
        builder.config.add_known_node(hostname);
        builder
    }

    /// Adds a node to contact, by address.
    pub fn known_node_addr(self, node_addr: NodeAddr) -> (r: Self)
        ensures
            r.config.known_nodes@ == self.config.known_nodes@.push(KnownNode::Address(node_addr)),
            r.config == (SessionConfig { known_nodes: r.config.known_nodes, ..self.config }),
    {
        let mut builder = self;
        builder.config.add_known_node_addr(node_addr);
        builder
    }

    /// Adds nodes to contact, by host name, in order.
    pub fn known_nodes(self, hostnames: &[&str]) -> (r: Self)
        ensures
            r.config.known_nodes@.len() == self.config.known_nodes@.len() + hostnames@.len(),
            r.config.known_nodes@.subrange(0, self.config.known_nodes@.len() as int)
                == self.config.known_nodes@,
            forall|i: int|
                0 <= i < hostnames@.len() ==> is_hostname(
                    #[trigger] r.config.known_nodes@[self.config.known_nodes@.len() + i],
                    hostnames@[i]@,
                ),
            r.config == (SessionConfig { known_nodes: r.config.known_nodes, ..self.config }),
    {
        let mut builder = self;
        builder.config.add_known_nodes(hostnames);
        builder
    }

    /// Adds nodes to contact, by address, in order.
    pub fn known_nodes_addr(self, node_addrs: &[NodeAddr]) -> (r: Self)
        ensures
            r.config.known_nodes@ == self.config.known_nodes@ + node_addrs@.map_values(
                |a: NodeAddr| KnownNode::Address(a),
            ),
            r.config == (SessionConfig { known_nodes: r.config.known_nodes, ..self.config }),
    {
        let mut builder = self;
        builder.config.add_known_nodes_addr(node_addrs);
        builder
    }

    /// Sets the compression of connections; `None` turns it off.
    pub fn compression(self, compression: Option<Compression>) -> (r: Self)
        ensures
            r.config == (SessionConfig { compression, ..self.config }),
    {
        let mut builder = self;
        builder.config.compression = compression;
        builder
    }

    /// Sets `TCP_NODELAY` on connections.
    pub fn tcp_nodelay(self, nodelay: bool) -> (r: Self)
        ensures
            r.config == (SessionConfig { tcp_nodelay: nodelay, ..self.config }),
    {
        let mut builder = self;
        builder.config.tcp_nodelay = nodelay;
        builder
    }

    /// Sets the keyspace that new connections use, and whether its name is
    /// case sensitive.
    pub fn use_keyspace(self, keyspace_name: &str, case_sensitive: bool) -> (r: Self)
        ensures
            r.config.used_keyspace matches Some(k) && k@ == keyspace_name@,
            r.config == (SessionConfig {
                used_keyspace: r.config.used_keyspace,
                keyspace_case_sensitive: case_sensitive,
                ..self.config
            }),
    {
        let mut builder = self;
        builder.config.used_keyspace = Some(keyspace_name.to_owned());
        builder.config.keyspace_case_sensitive = case_sensitive;
        builder
    }

    /// Sets how connections authenticate; `None` turns authentication off.
    pub fn authenticator_provider(
        self,
        authenticator_provider: Option<Arc<dyn AuthenticatorProvider>>,
    ) -> (r: Self)
        ensures
            r.config == (SessionConfig { authenticator: authenticator_provider, ..self.config }),
    {
        let mut builder = self;
        builder.config.authenticator = authenticator_provider;
        builder
    }

    /// Sets how long to wait between checks of schema agreement.
    pub fn schema_agreement_interval(self, timeout: Duration) -> (r: Self)
        ensures
            r.config == (SessionConfig { schema_agreement_interval: timeout, ..self.config }),
    {
        let mut builder = self;
        builder.config.schema_agreement_interval = timeout;
        builder
    }

    /// Sets the profile that statements without one of their own use.
    pub fn default_execution_profile_handle(self, profile_handle: ExecutionProfileHandle) -> (r:
        Self)
        ensures
            r.config == (SessionConfig {
                default_execution_profile_handle: profile_handle,
                ..self.config
            }),
    {
        let mut builder = self;
        builder.config.default_execution_profile_handle = profile_handle;
        builder
    }

    /// Sets the TLS context of connections; `None` turns TLS off.
    pub fn ssl_context(self, ssl_context: Option<SslContext>) -> (r: Self)
        ensures
            r.config == (SessionConfig { ssl_context, ..self.config }),
    {
        let mut builder = self;
        builder.config.ssl_context = ssl_context;
        builder
    }

    /// Sets how long a connection may take to be established.
    pub fn connection_timeout(self, duration: Duration) -> (r: Self)
        ensures
            r.config == (SessionConfig { connect_timeout: duration, ..self.config }),
    {
        let mut builder = self;
        builder.config.connect_timeout = duration;
        builder
    }

    /// Sets how many connections to keep per node or per shard.
    pub fn pool_size(self, size: PoolSize) -> (r: Self)
        requires
            size.wf(),
        ensures
            r.config == (SessionConfig { connection_pool_size: size, ..self.config }),
    {
        let mut builder = self;
        builder.config.connection_pool_size = size;
        builder
    }

    /// Forbids connecting through the shard-aware port.
    pub fn disallow_shard_aware_port(self, disallow: bool) -> (r: Self)
        ensures
            r.config == (SessionConfig { disallow_shard_aware_port: disallow, ..self.config }),
    {
        let mut builder = self;
        builder.config.disallow_shard_aware_port = disallow;
        builder
    }

    /// Sets the keyspaces whose schema is fetched; none means all.
    pub fn keyspaces_to_fetch(self, keyspaces: &[&str]) -> (r: Self)
        ensures
            r.config.keyspaces_to_fetch@.len() == keyspaces@.len(),
            forall|i: int|
                0 <= i < keyspaces@.len() ==> (#[trigger] r.config.keyspaces_to_fetch@[i])@
                    == keyspaces@[i]@,
            r.config == (SessionConfig {
                keyspaces_to_fetch: r.config.keyspaces_to_fetch,
                ..self.config
            }),
    {
        let mut builder = self;
        let mut names: Vec<String> = Vec::new();
        let mut i: usize = 0;
        while i < keyspaces.len()
            invariant
                i <= keyspaces@.len(),
                names@.len() == i,
                forall|j: int| 0 <= j < i ==> (#[trigger] names@[j])@ == keyspaces@[j]@,
            decreases keyspaces@.len() - i,
        {
            names.push(keyspaces[i].to_owned());
            i += 1;
        }
        builder.config.keyspaces_to_fetch = names;
        builder
    }

    /// Sets whether schema metadata is fetched.
    pub fn fetch_schema_metadata(self, fetch: bool) -> (r: Self)
        ensures
            r.config == (SessionConfig { fetch_schema_metadata: fetch, ..self.config }),
    {
        let mut builder = self;
        builder.config.fetch_schema_metadata = fetch;
        builder
    }

    /// Sets the interval of keepalive requests on idle connections.
    pub fn keepalive_interval(self, interval: Duration) -> (r: Self)
        ensures
            r.config == (SessionConfig { keepalive_interval: Some(interval), ..self.config }),
    {
        let mut builder = self;
        builder.config.keepalive_interval = Some(interval);
        builder
    }

    /// Waits, at most `timeout`, for schema agreement after schema changes.
    pub fn auto_schema_agreement_timeout(self, timeout: Duration) -> (r: Self)
        ensures
            r.config == (SessionConfig {
                auto_await_schema_agreement_timeout: Some(timeout),
                ..self.config
            }),
    {
        let mut builder = self;
        builder.config.auto_await_schema_agreement_timeout = Some(timeout);
        builder
    }

    /// Does not wait for schema agreement after schema changes.
    pub fn no_auto_schema_agreement(self) -> (r: Self)
        ensures
            r.config == (SessionConfig { auto_await_schema_agreement_timeout: None, ..self.config }),
    {
        let mut builder = self;
        builder.config.auto_await_schema_agreement_timeout = None;
        builder
    }

    /// Sets how the addresses that nodes report are rewritten.
    pub fn address_translator(self, translator: Option<Arc<dyn AddressTranslator>>) -> (r:
        Self)
        ensures
            r.config == (SessionConfig { address_translator: translator, ..self.config }),
    {
        let mut builder = self;
        builder.config.address_translator = translator;
        builder
    }

    /// Sets which nodes the driver may connect to.
    pub fn host_filter(self, filter: Option<Arc<dyn HostFilter>>) -> (r: Self)
        ensures
            r.config == (SessionConfig { host_filter: filter, ..self.config }),
    {
        let mut builder = self;
        builder.config.host_filter = filter;
        builder
    }

    /// Sets whether metadata is refreshed once schema agreement is reached.
    pub fn refresh_metadata_on_auto_schema_agreement(self, refresh_metadata: bool) -> (r:
        Self)
        ensures
            r.config == (SessionConfig {
                refresh_metadata_on_auto_schema_agreement: refresh_metadata,
                ..self.config
            }),
    {
        let mut builder = self;
        builder.config.refresh_metadata_on_auto_schema_agreement = refresh_metadata;
        builder
    }
}

impl SessionBuilder {
    /// A builder with the same settings.
    pub fn duplicate(&self) -> (r: Self)
        ensures
            same_config(r.config, self.config),
    {
        SessionBuilder { config: self.config.duplicate() }
    }
}

impl Clone for SessionBuilder {
    fn clone(&self) -> (r: Self)
        ensures
            same_config(r.config, self.config),
    {
        self.duplicate()
    }
}

impl Default for SessionBuilder {
    fn default() -> (r: Self)
        ensures
            r.config.is_default(),
    {
        SessionBuilder::new()
    }
}

} // verus!
