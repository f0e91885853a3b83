//! Statements prepared on the server, with their per-statement overrides.

use vstd::prelude::*;

use std::sync::Arc;
use std::time::Duration;

use bytes::Bytes;
use uuid::Uuid;

use crate::buffer::bytes_clone;
use crate::buffer::bytes_contents;
use crate::consistency::Consistency;
use crate::consistency::SerialConsistency;
use crate::execution_profile::ExecutionProfileHandle;
use crate::metadata::PreparedMetadata;
use crate::partition_key::compute_partition_key_of;
use crate::partition_key::is_partition_key_result;
use crate::partition_key::PartitionKeyError;
use crate::shared::share;
use crate::shared::share_opt;
use crate::values::SerializedValues;

verus! {

#[verifier::external_type_specification]
#[verifier::external_body]
pub struct ExUuid(Uuid);

/// Receives events of a request's execution.
pub trait HistoryListener: Send + Sync {
    /// A request started; the result names it in later events.
    fn log_query_start(&self) -> u64;

    /// The request named `query_id` succeeded.
    fn log_query_success(&self, query_id: u64);
}

/// The partitioner that maps a table's partition keys to tokens.
#[derive(Debug, Clone, Copy, PartialEq, Eq, Structural)]
pub enum PartitionerName {
    Murmur3,
    CDC,
}

impl Default for PartitionerName {
    fn default() -> (r: Self)
        ensures
            r == PartitionerName::Murmur3,
    {
        PartitionerName::Murmur3
    }
}

/// Per-statement overrides of the session's defaults. An unset field, `None`
/// or `false`, leaves the default of the session or the profile in force.
pub struct StatementConfig {
    pub consistency: Option<Consistency>,
    pub serial_consistency: Option<Option<SerialConsistency>>,
    pub is_idempotent: bool,
    pub tracing: bool,
    pub timestamp: Option<i64>,
    pub request_timeout: Option<Duration>,
    pub history_listener: Option<Arc<dyn HistoryListener>>,
    pub execution_profile_handle: Option<ExecutionProfileHandle>,
}

impl StatementConfig {
    /// No overrides.
    pub fn new() -> (r: Self)
        ensures
            r.consistency is None,
            r.serial_consistency is None,
            !r.is_idempotent,
            !r.tracing,
            r.timestamp is None,
            r.request_timeout is None,
            r.history_listener is None,
            r.execution_profile_handle is None,
    {
        StatementConfig {
            consistency: None,
            serial_consistency: None,
            is_idempotent: false,
            tracing: false,
            timestamp: None,
            request_timeout: None,
            history_listener: None,
            execution_profile_handle: None,
        }
    }

    /// The same overrides, in a set of their own.
    pub fn duplicate(&self) -> (r: Self)
        ensures
            same_overrides(r, *self),
    {
        let execution_profile_handle = match &self.execution_profile_handle {
            Some(h) => Some(h.duplicate()),
            None => None,
        };
        StatementConfig {
            consistency: self.consistency,
            serial_consistency: self.serial_consistency,
            is_idempotent: self.is_idempotent,
            tracing: self.tracing,
            timestamp: self.timestamp,
            request_timeout: self.request_timeout,
            history_listener: share_opt(&self.history_listener),
            execution_profile_handle,
        }
    }
}

impl Clone for StatementConfig {
    fn clone(&self) -> (r: Self)
        ensures
            same_overrides(r, *self),
    {
        self.duplicate()
    }
}

/// Two override sets that set the same fields to the same values; profile
/// handles count as equal when they refer to equal profiles.
pub open spec fn same_overrides(a: StatementConfig, b: StatementConfig) -> bool {
    &&& a.consistency == b.consistency
    &&& a.serial_consistency == b.serial_consistency
    &&& a.is_idempotent == b.is_idempotent
    &&& a.tracing == b.tracing
    &&& a.timestamp == b.timestamp
    &&& a.request_timeout == b.request_timeout
    &&& a.history_listener == b.history_listener
    &&& match (a.execution_profile_handle, b.execution_profile_handle) {
        (Some(x), Some(y)) => x@ == y@,
        (None, None) => true,
        _ => false,
    }
}

/// A statement prepared on the server.
pub struct PreparedStatement {
    pub(crate) config: StatementConfig,
    pub prepare_tracing_ids: Vec<Uuid>,
    id: Bytes,
    metadata: Arc<PreparedMetadata>,
    statement: String,
    page_size: Option<i32>,
    partitioner_name: PartitionerName,
    is_confirmed_lwt: bool,
}

impl PreparedStatement {
    #[verifier::type_invariant]
    closed spec fn inv(&self) -> bool {
        &&& self.metadata.wf()
        &&& (self.page_size matches Some(n) ==> n > 0)
    }

    /// The server-assigned id, as bytes.
    pub closed spec fn spec_id(&self) -> Seq<u8> {
        bytes_contents(self.id)
    }

    pub closed spec fn spec_metadata(&self) -> PreparedMetadata {
        *self.metadata
    }

    pub closed spec fn spec_statement(&self) -> Seq<char> {
        self.statement@
    }

    pub closed spec fn spec_page_size(&self) -> Option<i32> {
        self.page_size
    }

    pub closed spec fn spec_partitioner_name(&self) -> PartitionerName {
        self.partitioner_name
    }

    pub closed spec fn spec_is_confirmed_lwt(&self) -> bool {
        self.is_confirmed_lwt
    }

    pub closed spec fn spec_tracing_ids(&self) -> Seq<Uuid> {
        self.prepare_tracing_ids@
    }

    pub closed spec fn spec_config(&self) -> StatementConfig {
        self.config
    }

    /// What neither paging nor override setters change.
    pub open spec fn same_prepared(&self, o: &Self) -> bool {
        &&& self.spec_id() == o.spec_id()
        &&& self.spec_metadata() == o.spec_metadata()
        &&& self.spec_statement() == o.spec_statement()
        &&& self.spec_partitioner_name() == o.spec_partitioner_name()
        &&& self.spec_is_confirmed_lwt() == o.spec_is_confirmed_lwt()
        &&& self.spec_tracing_ids() == o.spec_tracing_ids()
    }

    /// `self` is `o` with its overrides replaced by `c`.
    pub open spec fn with_config(&self, o: &Self, c: StatementConfig) -> bool {
        &&& self.same_prepared(o)
        &&& self.spec_page_size() == o.spec_page_size()
        &&& self.spec_config() == c
    }

    /// A statement as the server prepared it, with no tracing ids yet and
    /// the default partitioner.
    pub fn new(
        id: Bytes,
        is_lwt: bool,
        metadata: PreparedMetadata,
        statement: String,
        page_size: Option<i32>,
        config: StatementConfig,
    ) -> (r: Self)
        requires
            metadata.wf(),
            page_size matches Some(n) ==> n > 0,
        ensures
            r.spec_id() == bytes_contents(id),
            r.spec_metadata() == metadata,
            r.spec_statement() == statement@,
            r.spec_page_size() == page_size,
            r.spec_partitioner_name() == PartitionerName::Murmur3,
            r.spec_is_confirmed_lwt() == is_lwt,
            r.spec_config() == config,
            r.spec_tracing_ids().len() == 0,
    {
        PreparedStatement {
            id,
            metadata: Arc::new(metadata),
            statement,
            prepare_tracing_ids: Vec::new(),
            page_size,
            config,
            partitioner_name: PartitionerName::default(),
            is_confirmed_lwt: is_lwt,
        }
    }

    /// A copy for another user: the same statement and overrides, with an
    /// override set of its own and the metadata shared. A copy was never
    /// prepared itself, so it has no tracing ids.
    pub fn duplicate(&self) -> (r: Self)
        ensures
            r.spec_id() == self.spec_id(),
            r.spec_metadata() == self.spec_metadata(),
            r.spec_statement() == self.spec_statement(),
            r.spec_page_size() == self.spec_page_size(),
            r.spec_partitioner_name() == self.spec_partitioner_name(),
            r.spec_is_confirmed_lwt() == self.spec_is_confirmed_lwt(),
            same_overrides(r.spec_config(), self.spec_config()),
            r.spec_tracing_ids().len() == 0,
    {
        proof {
            use_type_invariant(self);
        }
        PreparedStatement {
            config: self.config.duplicate(),
            prepare_tracing_ids: Vec::new(),
            id: bytes_clone(&self.id),
            metadata: share(&self.metadata),
            statement: self.statement.clone(),
            page_size: self.page_size,
            partitioner_name: self.partitioner_name,
            is_confirmed_lwt: self.is_confirmed_lwt,
        }
    }

    pub fn get_id(&self) -> (r: &Bytes)
        ensures
            bytes_contents(*r) == self.spec_id(),
    {
        &self.id
    }

    pub fn get_statement(&self) -> (r: &str)
        ensures
            r@ == self.spec_statement(),
    {
        self.statement.as_str()
    }

    /// Sets the page size; it must be positive.
    pub fn set_page_size(&mut self, page_size: i32)
        requires
            page_size > 0,
        ensures
            final(self).spec_page_size() == Some(page_size),
            final(self).same_prepared(old(self)),
            final(self).spec_config() == old(self).spec_config(),
    {
        proof {
            use_type_invariant(&*self);
        }
        self.page_size = Some(page_size);
    }

    /// Turns paging off.
    pub fn disable_paging(&mut self)
        ensures
            final(self).spec_page_size() is None,
            final(self).same_prepared(old(self)),
            final(self).spec_config() == old(self).spec_config(),
    {
        proof {
            use_type_invariant(&*self);
        }
        self.page_size = None;
    }

    /// The page size, `None` when paging is off; it is positive.
    pub fn get_page_size(&self) -> (r: Option<i32>)
        ensures
            r == self.spec_page_size(),
            r matches Some(n) ==> n > 0,
    {
        proof {
            use_type_invariant(self);
        }
        self.page_size
    }

    /// Ids of the traced requests that prepared this statement.
    pub fn get_prepare_tracing_ids(&self) -> (r: &[Uuid])
        ensures
            r@ == self.spec_tracing_ids(),
    {
        self.prepare_tracing_ids.as_slice()
    }

    /// Whether the statement can be routed by its partition key: true iff
    /// it has key components.
    pub fn is_token_aware(&self) -> (r: bool)
        ensures
            r == (self.spec_metadata().pk_indexes@.len() > 0),
    {
        self.metadata.pk_indexes.len() > 0
    }

    /// Whether the server confirmed at preparation that the statement is a
    /// lightweight transaction. False does not rule one out.
    pub fn is_confirmed_lwt(&self) -> (r: bool)
        ensures
            r == self.spec_is_confirmed_lwt(),
    {
        self.is_confirmed_lwt
    }

    /// The partition key of the bound values, for routing.
    pub fn compute_partition_key(&self, bound_values: &SerializedValues) -> (r: Result<
        Bytes,
        PartitionKeyError,
    >)
        ensures
            is_partition_key_result(r, self.spec_metadata().pk_indexes@, bound_values@),
    {
        proof {
            use_type_invariant(self);
        }
        compute_partition_key_of(&self.metadata.pk_indexes, bound_values)
    }

    /// The keyspace of the first column, if there is a column.
    pub fn get_keyspace_name(&self) -> (r: Option<&str>)
        ensures
            self.spec_metadata().col_specs@.len() == 0 ==> r is None,
            self.spec_metadata().col_specs@.len() > 0 ==> r is Some && r->0@
                == self.spec_metadata().col_specs@[0].table_spec.ks_name@,
    {
        if self.metadata.col_specs.len() == 0 {
            None
        } else {
            Some(self.metadata.col_specs[0].table_spec.ks_name.as_str())
        }
    }

    /// The table of the first column, if there is a column.
    pub fn get_table_name(&self) -> (r: Option<&str>)
        ensures
            self.spec_metadata().col_specs@.len() == 0 ==> r is None,
            self.spec_metadata().col_specs@.len() > 0 ==> r is Some && r->0@
                == self.spec_metadata().col_specs@[0].table_spec.table_name@,
    {
        if self.metadata.col_specs.len() == 0 {
            None
        } else {
            Some(self.metadata.col_specs[0].table_spec.table_name.as_str())
        }
    }

    pub fn set_consistency(&mut self, c: Consistency)
        ensures
            final(self).with_config(
                old(self),
                StatementConfig { consistency: Some(c), ..old(self).spec_config() },
            ),
    {
        proof {
            use_type_invariant(&*self);
        }
        self.config.consistency = Some(c);
    }

    /// The consistency override, `None` to take the default.
    pub fn get_consistency(&self) -> (r: Option<Consistency>)
        ensures
            r == self.spec_config().consistency,
    {
        self.config.consistency
    }

    /// Sets the serial consistency, used only by lightweight transactions.
    pub fn set_serial_consistency(&mut self, sc: Option<SerialConsistency>)
        ensures
            final(self).with_config(
                old(self),
                StatementConfig { serial_consistency: Some(sc), ..old(self).spec_config() },
            ),
    {
        proof {
            use_type_invariant(&*self);
        }
        self.config.serial_consistency = Some(sc);
    }

    /// The serial consistency override; `None` both when unset and when set
    /// to none.
    pub fn get_serial_consistency(&self) -> (r: Option<SerialConsistency>)
        ensures
            r == match self.spec_config().serial_consistency {
                Some(sc) => sc,
                None => None,
            },
    {
        match self.config.serial_consistency {
            Some(sc) => sc,
            None => None,
        }
    }

    /// Marks the statement idempotent (`true`) or of unknown idempotence
    /// (`false`); retry policies retry only idempotent statements.
    pub fn set_is_idempotent(&mut self, is_idempotent: bool)
        ensures
            final(self).with_config(
                old(self),
                StatementConfig { is_idempotent, ..old(self).spec_config() },
            ),
    {
        proof {
            use_type_invariant(&*self);
        }
        self.config.is_idempotent = is_idempotent;
    }

    pub fn get_is_idempotent(&self) -> (r: bool)
        ensures
            r == self.spec_config().is_idempotent,
    {
        self.config.is_idempotent
    }

    /// Turns request tracing on or off for this statement.
    pub fn set_tracing(&mut self, should_trace: bool)
        ensures
            final(self).with_config(
                old(self),
                StatementConfig { tracing: should_trace, ..old(self).spec_config() },
            ),
    {
        proof {
            use_type_invariant(&*self);
        }
        self.config.tracing = should_trace;
    }

    pub fn get_tracing(&self) -> (r: bool)
        ensures
            r == self.spec_config().tracing,
    {
        self.config.tracing
    }

    /// Sets the default timestamp, in microseconds.
    pub fn set_timestamp(&mut self, timestamp: Option<i64>)
        ensures
            final(self).with_config(
                old(self),
                StatementConfig { timestamp, ..old(self).spec_config() },
            ),
    {
        proof {
            use_type_invariant(&*self);
        }
        self.config.timestamp = timestamp;
    }

    pub fn get_timestamp(&self) -> (r: Option<i64>)
        ensures
            r == self.spec_config().timestamp,
    {
        self.config.timestamp
    }

    /// Sets the client-side timeout; `None` takes the session's.
    pub fn set_request_timeout(&mut self, timeout: Option<Duration>)
        ensures
            final(self).with_config(
                old(self),
                StatementConfig { request_timeout: timeout, ..old(self).spec_config() },
            ),
    {
        proof {
            use_type_invariant(&*self);
        }
        self.config.request_timeout = timeout;
    }

    pub fn get_request_timeout(&self) -> (r: Option<Duration>)
        ensures
            r == self.spec_config().request_timeout,
    {
        self.config.request_timeout
    }

    pub fn set_partitioner_name(&mut self, partitioner_name: PartitionerName)
        ensures
            final(self).spec_partitioner_name() == partitioner_name,
            final(self).spec_id() == old(self).spec_id(),
            final(self).spec_metadata() == old(self).spec_metadata(),
            final(self).spec_statement() == old(self).spec_statement(),
            final(self).spec_is_confirmed_lwt() == old(self).spec_is_confirmed_lwt(),
            final(self).spec_tracing_ids() == old(self).spec_tracing_ids(),
            final(self).spec_page_size() == old(self).spec_page_size(),
            final(self).spec_config() == old(self).spec_config(),
    {
        proof {
            use_type_invariant(&*self);
        }
        self.partitioner_name = partitioner_name;
    }

    /// The metadata that the server returned.
    pub fn get_prepared_metadata(&self) -> (r: &PreparedMetadata)
        ensures
            *r == self.spec_metadata(),
    {
        &*self.metadata
    }

    pub fn get_partitioner_name(&self) -> (r: &PartitionerName)
        ensures
            *r == self.spec_partitioner_name(),
    {
        &self.partitioner_name
    }

    /// Attaches a listener to the statement's executions; `None` detaches it.
    pub fn set_history_listener(&mut self, history_listener: Option<Arc<dyn HistoryListener>>)
        ensures
            final(self).with_config(
                old(self),
                StatementConfig { history_listener, ..old(self).spec_config() },
            ),
    {
        proof {
            use_type_invariant(&*self);
        }
        self.config.history_listener = history_listener;
    }

    /// Detaches the listener and returns it.
    pub fn remove_history_listener(&mut self) -> (r: Option<Arc<dyn HistoryListener>>)
        ensures
            r == old(self).spec_config().history_listener,
            final(self).with_config(
                old(self),
                StatementConfig { history_listener: None, ..old(self).spec_config() },
            ),
    {
        proof {
            use_type_invariant(&*self);
        }
        let r = share_opt(&self.config.history_listener);
        self.config.history_listener = None;
        r
    }

    /// Runs the statement under the profile that the handle refers to;
    /// `None` takes the session's.
    pub fn set_execution_profile_handle(&mut self, profile_handle: Option<ExecutionProfileHandle>)
        ensures
            final(self).with_config(
                old(self),
                StatementConfig { execution_profile_handle: profile_handle, ..old(self).spec_config() },
            ),
    {
        proof {
            use_type_invariant(&*self);
        }
        self.config.execution_profile_handle = profile_handle;
    }

    pub fn get_execution_profile_handle(&self) -> (r: Option<&ExecutionProfileHandle>)
        ensures
            r == match self.spec_config().execution_profile_handle {
                Some(h) => Some(&h),
                None => None::<&ExecutionProfileHandle>,
            },
    {
        self.config.execution_profile_handle.as_ref()
    }
}

impl Clone for PreparedStatement {
    /// See `duplicate`: no tracing ids, the rest kept.
    fn clone(&self) -> (r: Self)
        ensures
            r.spec_id() == self.spec_id(),
            r.spec_metadata() == self.spec_metadata(),
            r.spec_statement() == self.spec_statement(),
            r.spec_page_size() == self.spec_page_size(),
            r.spec_partitioner_name() == self.spec_partitioner_name(),
            r.spec_is_confirmed_lwt() == self.spec_is_confirmed_lwt(),
            same_overrides(r.spec_config(), self.spec_config()),
            r.spec_tracing_ids().len() == 0,
    {
        self.duplicate()
    }
}

} // verus!
