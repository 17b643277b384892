//! Client-side support for a native cluster-management runtime: a thread-safe,
//! retrying, channel-based layer over an asynchronous Begin/End call pattern.
//!
//! The crate is organised around these concerns:
//! - [`agile`]: the agile reference, a typed facade that lets every
//!   concurrent caller and callback own its own handle to one shared object;
//! - [`error`]: one error type unifying native status codes, text-decoding
//!   failures and abandoned operations, plus the symbolic code table used for
//!   retry classification;
//! - [`retry`]: the fixed retry policy and its per-attempt decision logic;
//! - [`bridge`]: the one-shot channel bridge that turns a native callback into
//!   a single awaited outcome;
//! - [`wstring`]: the wide-character (UTF-16) text encoding the boundary
//!   uses for every string field;
//! - [`types`]: projection of raw native result records into owned value types;
//! - [`service`] and [`query`]: the two caller-facing operations — resolving
//!   a service partition and listing a service's partitions — as verified
//!   argument building and end-call completion around the native boundary.

pub mod agile;
pub mod bridge;
pub mod error;
pub mod query;
pub mod retry;
pub mod service;
pub mod types;
pub mod wstring;

pub use error::Error;
pub use error::FabricErrorCode;
pub use retry::run_with_retry;
pub use types::{
    EndpointRole, HealthState, Int64RangePartitionInformation, NamedPartitionInformation,
    PartitionKeyType, PartitionQueryResultItem, QueryServicePartitionStatus, ServiceEndpoint,
    ServiceKind, ServicePartition, ServicePartitionInformation, ServicePartitionKind,
    SingletonPartitionInformation, StatefulService, StatelessService,
};
