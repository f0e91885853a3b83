//! Client-side core of a driver for a partitioned, token-ring database
//! cluster: prepared statements and the partition keys that route them, and
//! the configuration that sessions are built from.

pub mod buffer;
pub mod consistency;
pub mod execution_profile;
pub mod metadata;
pub mod partition_key;
pub mod session;
pub mod session_builder;
pub mod shared;
pub mod slots;
pub mod statement;
pub mod time;
pub mod values;

pub use crate::metadata::PreparedMetadata;
pub use crate::partition_key::PartitionKeyError;
pub use crate::session_builder::SessionBuilder;
pub use crate::statement::PreparedStatement;
pub use crate::values::SerializedValues;
