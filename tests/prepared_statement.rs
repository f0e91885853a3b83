use std::time::Duration;

use bytes::Bytes;
use uuid::Uuid;

use scylla::consistency::Consistency;
use scylla::consistency::SerialConsistency;
use scylla::execution_profile::ExecutionProfile;
use scylla::metadata::ColumnSpec;
use scylla::metadata::PartitionKeyIndex;
use scylla::metadata::TableSpec;
use scylla::statement::PartitionerName;
use scylla::statement::StatementConfig;
use scylla::values::SerializeValuesError;
use scylla::PartitionKeyError;
use scylla::PreparedMetadata;
use scylla::PreparedStatement;
use scylla::SerializedValues;

fn pki(index: u16, sequence: u16) -> PartitionKeyIndex {
    PartitionKeyIndex { index, sequence }
}

fn metadata(pk_indexes: Vec<PartitionKeyIndex>, col_count: usize) -> PreparedMetadata {
    let col_specs = (0..col_count)
        .map(|i| ColumnSpec {
            table_spec: TableSpec {
                ks_name: "ks".to_string(),
                table_name: "t".to_string(),
            },
            name: format!("c{}", i),
        })
        .collect();
    PreparedMetadata {
        col_count,
        pk_indexes,
        col_specs,
    }
}

fn statement(pk_indexes: Vec<PartitionKeyIndex>, col_count: usize) -> PreparedStatement {
    let md = metadata(pk_indexes, col_count);
    assert!(md.is_well_formed());
    PreparedStatement::new(
        Bytes::from_static(b"\x01\x02"),
        false,
        md,
        "INSERT INTO ks.t (a, b) VALUES (?, ?)".to_string(),
        None,
        StatementConfig::new(),
    )
}

fn values(vs: &[Option<&[u8]>]) -> SerializedValues {
    let mut values = SerializedValues::new();
    for v in vs {
        values.add_value(*v).unwrap();
    }
    values
}

#[test]
fn single_column_key_is_raw_value() {
    let stmt = statement(vec![pki(1, 0)], 2);
    let vals = values(&[Some(b"xyz"), Some(b"\x00\x01\x02\x03")]);
    let key = stmt.compute_partition_key(&vals).unwrap();
    assert_eq!(&key[..], b"\x00\x01\x02\x03");
}

#[test]
fn single_column_null_key_is_empty() {
    let stmt = statement(vec![pki(0, 0)], 1);
    let vals = values(&[None]);
    let key = stmt.compute_partition_key(&vals).unwrap();
    assert!(key.is_empty());
}

#[test]
fn composite_key_frames_each_component() {
    let stmt = statement(vec![pki(0, 0), pki(2, 1)], 3);
    let vals = values(&[Some(b"ab"), Some(b"ignored"), Some(b"cde")]);
    let key = stmt.compute_partition_key(&vals).unwrap();
    assert_eq!(&key[..], b"\x00\x02ab\x00\x00\x03cde\x00");
}

#[test]
fn composite_key_scenario_in_key_order() {
    let stmt = statement(vec![pki(0, 1), pki(1, 0)], 2);
    let vals = values(&[Some(b"XXXX"), Some(b"YY")]);
    let key = stmt.compute_partition_key(&vals).unwrap();
    assert_eq!(&key[..], b"\x00\x02YY\x00\x00\x04XXXX\x00");
}

#[test]
fn bind_order_does_not_change_key() {
    let a = statement(vec![pki(0, 0), pki(1, 1), pki(2, 2)], 3);
    let b = statement(vec![pki(0, 2), pki(1, 0), pki(2, 1)], 3);
    let va = values(&[Some(b"p"), Some(b"qq"), Some(b"rrr")]);
    let vb = values(&[Some(b"rrr"), Some(b"p"), Some(b"qq")]);
    let ka = a.compute_partition_key(&va).unwrap();
    let kb = b.compute_partition_key(&vb).unwrap();
    assert_eq!(ka, kb);
    assert_eq!(&ka[..], b"\x00\x01p\x00\x00\x02qq\x00\x00\x03rrr\x00");
}

#[test]
fn null_component_is_skipped() {
    let stmt = statement(vec![pki(0, 0), pki(1, 1)], 2);
    let vals = values(&[Some(b"ab"), None]);
    let key = stmt.compute_partition_key(&vals).unwrap();
    assert_eq!(&key[..], b"\x00\x02ab\x00");

    let stmt = statement(vec![pki(0, 0), pki(1, 1), pki(2, 2)], 3);
    let vals = values(&[Some(b"a"), None, Some(b"c")]);
    let key = stmt.compute_partition_key(&vals).unwrap();
    assert_eq!(&key[..], b"\x00\x01a\x00\x00\x01c\x00");
}

#[test]
fn component_length_limit() {
    let stmt = statement(vec![pki(0, 0), pki(1, 1)], 2);
    let long = vec![7u8; 65535];
    let vals = values(&[Some(&long), Some(b"z")]);
    let key = stmt.compute_partition_key(&vals).unwrap();
    assert_eq!(key.len(), 2 + 65535 + 1 + 2 + 1 + 1);
    assert_eq!(&key[..2], b"\xff\xff");

    let too_long = vec![7u8; 65536];
    let vals = values(&[Some(b"z"), Some(&too_long)]);
    assert_eq!(
        stmt.compute_partition_key(&vals),
        Err(PartitionKeyError::ValueTooLong(65536))
    );
}

#[test]
fn missing_key_value_is_reported() {
    let stmt = statement(vec![pki(0, 0), pki(3, 1)], 4);
    let vals = values(&[Some(b"a"), Some(b"b")]);
    assert_eq!(
        stmt.compute_partition_key(&vals),
        Err(PartitionKeyError::NoPkIndexValue(3, 2))
    );

    let single = statement(vec![pki(2, 0)], 3);
    assert_eq!(
        single.compute_partition_key(&vals),
        Err(PartitionKeyError::NoPkIndexValue(2, 2))
    );
}

#[test]
fn missing_value_comes_before_too_long() {
    let stmt = statement(vec![pki(0, 0), pki(1, 1)], 2);
    let too_long = vec![1u8; 70000];
    let vals = values(&[Some(&too_long)]);
    assert_eq!(
        stmt.compute_partition_key(&vals),
        Err(PartitionKeyError::NoPkIndexValue(1, 1))
    );
}

#[test]
fn token_awareness_follows_key_indexes() {
    let no_key = statement(vec![], 2);
    assert!(!no_key.is_token_aware());
    assert_eq!(&no_key.compute_partition_key(&values(&[])).unwrap()[..], b"");
    let keyed = statement(vec![pki(1, 0)], 2);
    assert!(keyed.is_token_aware());
}

#[test]
fn duplicate_has_own_overrides_and_no_tracing_ids() {
    let mut first = statement(vec![pki(0, 0)], 1);
    first.set_consistency(Consistency::One);
    first.prepare_tracing_ids.push(Uuid::from_u128(42));

    let mut copy = first.clone();
    assert!(copy.get_prepare_tracing_ids().is_empty());
    assert_eq!(copy.get_consistency(), Some(Consistency::One));
    assert_eq!(copy.get_id(), first.get_id());

    copy.set_consistency(Consistency::All);
    copy.set_tracing(true);
    copy.set_timestamp(Some(5));

    assert_eq!(first.get_consistency(), Some(Consistency::One));
    assert!(!first.get_tracing());
    assert_eq!(first.get_timestamp(), None);
    assert_eq!(first.get_prepare_tracing_ids(), &[Uuid::from_u128(42)]);
}

#[test]
fn overrides_round_trip() {
    let mut stmt = statement(vec![pki(0, 0)], 1);
    assert_eq!(stmt.get_serial_consistency(), None);
    stmt.set_serial_consistency(Some(SerialConsistency::Serial));
    assert_eq!(stmt.get_serial_consistency(), Some(SerialConsistency::Serial));
    stmt.set_serial_consistency(None);
    assert_eq!(stmt.get_serial_consistency(), None);

    stmt.set_is_idempotent(true);
    assert!(stmt.get_is_idempotent());
    stmt.set_request_timeout(Some(Duration::from_secs(3)));
    assert_eq!(stmt.get_request_timeout(), Some(Duration::from_secs(3)));

    let handle = ExecutionProfile::new().into_handle();
    stmt.set_execution_profile_handle(Some(handle));
    let got = stmt.get_execution_profile_handle().unwrap().access();
    assert_eq!(got.consistency, Consistency::LocalQuorum);
    stmt.set_execution_profile_handle(None);
    assert!(stmt.get_execution_profile_handle().is_none());

    assert!(stmt.remove_history_listener().is_none());
}

#[test]
fn paging_settings() {
    let mut stmt = statement(vec![pki(0, 0)], 1);
    assert_eq!(stmt.get_page_size(), None);
    stmt.set_page_size(100);
    assert_eq!(stmt.get_page_size(), Some(100));
    stmt.disable_paging();
    assert_eq!(stmt.get_page_size(), None);
}

#[test]
fn statement_accessors() {
    let mut stmt = statement(vec![pki(0, 0)], 1);
    assert_eq!(&stmt.get_id()[..], b"\x01\x02");
    assert_eq!(stmt.get_statement(), "INSERT INTO ks.t (a, b) VALUES (?, ?)");
    assert_eq!(stmt.get_keyspace_name(), Some("ks"));
    assert_eq!(stmt.get_table_name(), Some("t"));
    assert!(!stmt.is_confirmed_lwt());
    assert_eq!(*stmt.get_partitioner_name(), PartitionerName::Murmur3);
    stmt.set_partitioner_name(PartitionerName::CDC);
    assert_eq!(*stmt.get_partitioner_name(), PartitionerName::CDC);
    assert_eq!(stmt.get_prepared_metadata().pk_indexes, vec![pki(0, 0)]);

    let no_columns = statement(vec![], 0);
    assert_eq!(no_columns.get_keyspace_name(), None);
    assert_eq!(no_columns.get_table_name(), None);
}

#[test]
fn metadata_well_formedness() {
    assert!(metadata(vec![], 0).is_well_formed());
    assert!(metadata(vec![pki(0, 1), pki(3, 0)], 4).is_well_formed());
    assert!(!metadata(vec![pki(3, 0), pki(0, 1)], 4).is_well_formed());
    assert!(!metadata(vec![pki(0, 0), pki(0, 1)], 4).is_well_formed());
    assert!(!metadata(vec![pki(0, 0), pki(1, 0)], 4).is_well_formed());
    assert!(!metadata(vec![pki(0, 0), pki(1, 2)], 4).is_well_formed());
}

#[test]
fn value_limits() {
    let mut vals = SerializedValues::new();
    for _ in 0..32767 {
        assert_eq!(vals.add_value(None), Ok(()));
    }
    assert_eq!(vals.len(), 32767);
    assert_eq!(
        vals.add_value(Some(b"a")),
        Err(SerializeValuesError::TooManyValues)
    );
    assert_eq!(vals.len(), 32767);

    let mut vals = SerializedValues::new();
    let huge = vec![0u8; 2147483648];
    assert_eq!(
        vals.add_value(Some(&huge)),
        Err(SerializeValuesError::ValueTooBig)
    );
    assert_eq!(vals.len(), 0);
    assert_eq!(vals.get(0), None);
    vals.add_value(Some(b"q")).unwrap();
    assert_eq!(vals.get(0), Some(Some(&b"q"[..])));
}

#[test]
fn clone_keeps_statement_and_drops_tracing_ids() {
    let md = metadata(vec![pki(0, 0)], 1);
    let mut first = PreparedStatement::new(
        Bytes::from_static(b"\x07"),
        true,
        md,
        "UPDATE ks.t SET v = 1 WHERE k = ? IF EXISTS".to_string(),
        Some(50),
        StatementConfig::new(),
    );
    first.set_partitioner_name(PartitionerName::CDC);
    first.set_is_idempotent(true);
    first.prepare_tracing_ids.push(Uuid::from_u128(7));
    let copy = first.clone();
    assert!(copy.is_confirmed_lwt());
    assert_eq!(&copy.get_id()[..], b"\x07");
    assert_eq!(copy.get_page_size(), Some(50));
    assert_eq!(*copy.get_partitioner_name(), PartitionerName::CDC);
    assert!(copy.get_is_idempotent());
    assert_eq!(copy.get_statement(), first.get_statement());
    assert!(copy.get_prepare_tracing_ids().is_empty());
    assert_eq!(first.get_prepare_tracing_ids(), &[Uuid::from_u128(7)]);
}
