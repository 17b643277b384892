//! The resolve-service-partition operation: what this layer computes on
//! each side of the native call.
//!
//! The native begin call takes a wide-character service name, a partition
//! key, a timeout and a callback; the end call, made from the callback,
//! returns a raw resolved partition or a status code. Everything around
//! those two calls is here and verified: building the call's arguments from
//! caller values, and turning the end call's outcome into what gets
//! published on the operation's channel.

use vstd::prelude::*;

use crate::error::Error;
use crate::types::{
    spec_key_type_raw, spec_partition_decodable, spec_project_partition, PartitionKeyType,
    RawServicePartition, ServicePartition,
};
use crate::wstring::{encode_wide, wide_encode};

verus! {

/// The arguments a resolve call hands to the native begin entry point, with
/// the service name already in the wide-character form the boundary expects.
pub struct ResolveServicePartitionArgs {
    /// The service name, UTF-16 encoded, without a terminator.
    pub service_name: Vec<u16>,
    /// The native tag of the partition key's type.
    pub partition_key_type: i32,
    /// The partition key itself, read when the key type says so.
    pub partition_key: i64,
    /// The timeout handed to the native call, in milliseconds.
    pub timeout_ms: u32,
}

/// Builds the begin call's arguments from caller values: the name encoded,
/// the key type mapped to its native tag, key and timeout passed through.
pub fn build_resolve_args(
    service_name: &str,
    partition_key_type: PartitionKeyType,
    partition_key: i64,
    timeout_ms: u32,
) -> (args: ResolveServicePartitionArgs)
    ensures
        args.service_name@ == wide_encode(service_name@),
        args.partition_key_type == spec_key_type_raw(partition_key_type),
        args.partition_key == partition_key,
        args.timeout_ms == timeout_ms,
{
    ResolveServicePartitionArgs {
        service_name: encode_wide(service_name),
        partition_key_type: partition_key_type.as_raw(),
        partition_key,
        timeout_ms,
    }
}

/// What the callback publishes for a resolve operation, given the end
/// call's outcome: a native error passes through, a raw result is projected
/// — fully or not at all.
pub fn complete_resolve(end: Result<RawServicePartition, Error>) -> (r: Result<
    ServicePartition,
    Error,
>)
    ensures
        match end {
            Result::Ok(raw) => match r {
                Result::Ok(p) => spec_partition_decodable(raw) && p@ == spec_project_partition(
                    raw,
                ),
                Result::Err(e) => !spec_partition_decodable(raw) && e
                    == Error::Utf16StringDecode,
            },
            Result::Err(e) => r == Result::<ServicePartition, Error>::Err(e),
        },
{
    match end {
        Result::Ok(raw) => ServicePartition::new(&raw),
        Result::Err(e) => Result::Err(e),
    }
}

} // verus!
