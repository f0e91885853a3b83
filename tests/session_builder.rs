use std::time::Duration;

use scylla::consistency::Consistency;
use scylla::consistency::SerialConsistency;
use scylla::execution_profile::ExecutionProfile;
use scylla::session::AuthenticatorProvider;
use scylla::session::Compression;
use scylla::session::IpAddress;
use scylla::session::KnownNode;
use scylla::session::NodeAddr;
use scylla::session::PlainTextAuthenticator;
use scylla::session::PoolSize;
use scylla::SessionBuilder;

fn addr(last: u8, port: u16) -> NodeAddr {
    NodeAddr {
        ip: IpAddress::V4([172, 17, 0, last]),
        port,
    }
}

#[test]
fn default_session_builder() {
    let builder = SessionBuilder::new();

    assert!(builder.config.known_nodes.is_empty());
    assert_eq!(builder.config.compression, None);
}

#[test]
fn add_known_node() {
    let mut builder = SessionBuilder::new();

    builder = builder.known_node("test_hostname");

    assert_eq!(
        builder.config.known_nodes,
        vec![KnownNode::Hostname("test_hostname".into())]
    );
    assert_eq!(builder.config.compression, None);
}

#[test]
fn add_known_node_addr() {
    let mut builder = SessionBuilder::new();

    let addr = addr(3, 1357);
    builder = builder.known_node_addr(addr);

    assert_eq!(builder.config.known_nodes, vec![KnownNode::Address(addr)]);
    assert_eq!(builder.config.compression, None);
}

#[test]
fn add_known_nodes() {
    let mut builder = SessionBuilder::new();

    builder = builder.known_nodes(&["test_hostname1", "test_hostname2"]);

    assert_eq!(
        builder.config.known_nodes,
        vec![
            KnownNode::Hostname("test_hostname1".into()),
            KnownNode::Hostname("test_hostname2".into())
        ]
    );
    assert_eq!(builder.config.compression, None);
}

#[test]
fn add_known_nodes_addr() {
    let mut builder = SessionBuilder::new();

    let addr1 = addr(3, 1357);
    let addr2 = addr(4, 9090);

    builder = builder.known_nodes_addr(&[addr1, addr2]);

    assert_eq!(
        builder.config.known_nodes,
        vec![KnownNode::Address(addr1), KnownNode::Address(addr2)]
    );
    assert_eq!(builder.config.compression, None);
}

#[test]
fn compression() {
    let mut builder = SessionBuilder::new();
    assert_eq!(builder.config.compression, None);

    builder = builder.compression(Some(Compression::Lz4));
    assert_eq!(builder.config.compression, Some(Compression::Lz4));

    builder = builder.compression(Some(Compression::Snappy));
    assert_eq!(builder.config.compression, Some(Compression::Snappy));

    builder = builder.compression(None);
    assert_eq!(builder.config.compression, None);
}

#[test]
fn tcp_nodelay() {
    let mut builder = SessionBuilder::new();
    assert!(builder.config.tcp_nodelay);

    builder = builder.tcp_nodelay(false);
    assert!(!builder.config.tcp_nodelay);

    builder = builder.tcp_nodelay(true);
    assert!(builder.config.tcp_nodelay);
}

#[test]
fn use_keyspace() {
    let mut builder = SessionBuilder::new();
    assert_eq!(builder.config.used_keyspace, None);
    assert!(!builder.config.keyspace_case_sensitive);

    builder = builder.use_keyspace("ks_name_1", true);
    assert_eq!(builder.config.used_keyspace, Some("ks_name_1".to_string()));
    assert!(builder.config.keyspace_case_sensitive);

    builder = builder.use_keyspace("ks_name_2", false);
    assert_eq!(builder.config.used_keyspace, Some("ks_name_2".to_string()));
    assert!(!builder.config.keyspace_case_sensitive);
}

#[test]
fn connection_timeout() {
    let mut builder = SessionBuilder::new();
    assert_eq!(
        builder.config.connect_timeout,
        std::time::Duration::from_secs(5)
    );

    builder = builder.connection_timeout(std::time::Duration::from_secs(10));
    assert_eq!(
        builder.config.connect_timeout,
        std::time::Duration::from_secs(10)
    );
}

#[test]
fn fetch_schema_metadata() {
    let mut builder = SessionBuilder::new();
    assert!(builder.config.fetch_schema_metadata);

    builder = builder.fetch_schema_metadata(false);
    assert!(!builder.config.fetch_schema_metadata);

    builder = builder.fetch_schema_metadata(true);
    assert!(builder.config.fetch_schema_metadata);
}

#[test]
fn execution_profile() {
    let default_builder = SessionBuilder::new();
    let default_execution_profile = default_builder
        .config
        .default_execution_profile_handle
        .access();
    assert_eq!(default_execution_profile.consistency, Consistency::LocalQuorum);
    assert_eq!(
        default_execution_profile.serial_consistency,
        Some(SerialConsistency::LocalSerial)
    );
    assert_eq!(
        default_execution_profile.request_timeout,
        Some(Duration::from_secs(30))
    );

    let custom_profile = ExecutionProfile {
        consistency: Consistency::Any,
        serial_consistency: Some(SerialConsistency::Serial),
        request_timeout: Some(Duration::from_secs(1)),
    };
    let execution_profile_handle = custom_profile.into_handle();
    let builder_with_profile =
        default_builder.default_execution_profile_handle(execution_profile_handle.clone());
    let execution_profile = execution_profile_handle.access();

    let profile_in_builder = builder_with_profile
        .config
        .default_execution_profile_handle
        .access();
    assert_eq!(profile_in_builder.consistency, execution_profile.consistency);
    assert_eq!(
        profile_in_builder.serial_consistency,
        execution_profile.serial_consistency
    );
    assert_eq!(
        profile_in_builder.request_timeout,
        execution_profile.request_timeout
    );
}

#[test]
fn all_features() {
    let mut builder = SessionBuilder::new();

    let addr = addr(3, 8465);
    let addr1 = NodeAddr {
        ip: IpAddress::V4([172, 17, 0, 3]),
        port: 1357,
    };
    let addr2 = NodeAddr {
        ip: IpAddress::V4([172, 17, 0, 4]),
        port: 9090,
    };

    builder = builder.known_node("hostname_test");
    builder = builder.known_node_addr(addr);
    builder = builder.known_nodes(&["hostname_test1", "hostname_test2"]);
    builder = builder.known_nodes_addr(&[addr1, addr2]);
    builder = builder.compression(Some(Compression::Snappy));
    builder = builder.tcp_nodelay(true);
    builder = builder.use_keyspace("ks_name", true);
    builder = builder.fetch_schema_metadata(false);

    assert_eq!(
        builder.config.known_nodes,
        vec![
            KnownNode::Hostname("hostname_test".into()),
            KnownNode::Address(addr),
            KnownNode::Hostname("hostname_test1".into()),
            KnownNode::Hostname("hostname_test2".into()),
            KnownNode::Address(addr1),
            KnownNode::Address(addr2),
        ]
    );

    assert_eq!(builder.config.compression, Some(Compression::Snappy));
    assert!(builder.config.tcp_nodelay);

    assert_eq!(builder.config.used_keyspace, Some("ks_name".to_string()));

    assert!(builder.config.keyspace_case_sensitive);
    assert!(!builder.config.fetch_schema_metadata);
}

#[test]
fn builder_defaults_of_other_settings() {
    let builder = SessionBuilder::default();
    assert_eq!(
        builder.config.schema_agreement_interval,
        Duration::from_millis(200)
    );
    assert_eq!(builder.config.connection_pool_size, PoolSize::PerShard(1));
    assert!(builder.config.keyspaces_to_fetch.is_empty());
    assert_eq!(builder.config.keepalive_interval, None);
    assert_eq!(
        builder.config.auto_await_schema_agreement_timeout,
        Some(Duration::from_secs(60))
    );
    assert!(builder.config.refresh_metadata_on_auto_schema_agreement);
    assert!(builder.config.authenticator.is_none());
    assert!(builder.config.ssl_context.is_none());
}

#[test]
fn builder_other_setters() {
    let builder = SessionBuilder::new()
        .keyspaces_to_fetch(&["ks1", "ks2"])
        .pool_size(PoolSize::PerHost(3))
        .disallow_shard_aware_port(true)
        .keepalive_interval(Duration::from_secs(2))
        .no_auto_schema_agreement()
        .refresh_metadata_on_auto_schema_agreement(false)
        .schema_agreement_interval(Duration::from_millis(50));
    assert_eq!(
        builder.config.keyspaces_to_fetch,
        vec!["ks1".to_string(), "ks2".to_string()]
    );
    assert_eq!(builder.config.connection_pool_size, PoolSize::PerHost(3));
    assert!(builder.config.disallow_shard_aware_port);
    assert_eq!(
        builder.config.keepalive_interval,
        Some(Duration::from_secs(2))
    );
    assert_eq!(builder.config.auto_await_schema_agreement_timeout, None);
    assert!(!builder.config.refresh_metadata_on_auto_schema_agreement);
    assert_eq!(
        builder.config.schema_agreement_interval,
        Duration::from_millis(50)
    );
    let builder = builder.auto_schema_agreement_timeout(Duration::from_secs(7));
    assert_eq!(
        builder.config.auto_await_schema_agreement_timeout,
        Some(Duration::from_secs(7))
    );
}

#[test]
fn plain_text_authenticator_response() {
    let auth = PlainTextAuthenticator::new("ab".to_string(), "cd".to_string());
    assert_eq!(
        auth.initial_response("PasswordAuthenticator"),
        Some(vec![0, b'a', b'b', 0, b'c', b'd'])
    );
}

#[test]
fn builder_clone_is_independent() {
    let builder = SessionBuilder::new()
        .known_node("a")
        .keyspaces_to_fetch(&["ks"])
        .use_keyspace("ks", false);
    let copy = builder.clone().known_node("b").tcp_nodelay(false);
    assert_eq!(builder.config.known_nodes, vec![KnownNode::Hostname("a".into())]);
    assert!(builder.config.tcp_nodelay);
    assert_eq!(
        copy.config.known_nodes,
        vec![KnownNode::Hostname("a".into()), KnownNode::Hostname("b".into())]
    );
    assert_eq!(copy.config.keyspaces_to_fetch, vec!["ks".to_string()]);
    assert_eq!(copy.config.used_keyspace, Some("ks".to_string()));
}

#[test]
fn plain_text_authenticator_utf8_credentials() {
    let auth = PlainTextAuthenticator::new("é".to_string(), String::new());
    assert_eq!(
        auth.initial_response("any"),
        Some(vec![0, 0xc3, 0xa9, 0])
    );
}
