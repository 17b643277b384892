//! The get-partition-list operation: what this layer computes on each side
//! of the native call.
//!
//! The native begin call takes a query description — the service name in
//! wide-character form and a partition identifier filter — a timeout and a
//! callback; the end call, made from the callback, returns a raw item array
//! or a status code. Building the description and projecting the end call's
//! outcome are verified here.

use vstd::prelude::*;

use crate::error::Error;
use crate::types::{
    spec_project_query_items, project_query_items, PartitionQueryResultItem,
    PartitionQueryResultItemView, RawPartitionQueryResultItem,
};
use crate::wstring::{encode_wide, wide_encode};

verus! {

/// The query description a partition list call hands to the native begin
/// entry point.
pub struct PartitionQueryDescription {
    /// The service name, UTF-16 encoded, without a terminator.
    pub service_name: Vec<u16>,
    /// The partition identifier filter; zero asks for every partition.
    pub partition_id_filter: u128,
    /// The timeout handed to the native call, in milliseconds.
    pub timeout_ms: u32,
}

/// Builds the query description from caller values: the name encoded, the
/// filter cleared so every partition of the service is returned.
pub fn build_partition_query(service_name: &str, timeout_ms: u32) -> (desc:
    PartitionQueryDescription)
    ensures
        desc.service_name@ == wide_encode(service_name@),
        desc.partition_id_filter == 0,
        desc.timeout_ms == timeout_ms,
{
    PartitionQueryDescription {
        service_name: encode_wide(service_name),
        partition_id_filter: 0,
        timeout_ms,
    }
}

/// What the callback publishes for a partition list operation, given the
/// end call's outcome: a native error passes through, a copied item array
/// is projected item by item — all of it, or its first error.
pub fn complete_get_partition_list(end: Result<Vec<RawPartitionQueryResultItem>, Error>) -> (r:
    Result<Vec<PartitionQueryResultItem>, Error>)
    ensures
        match end {
            Result::Ok(raws) => match r {
                Result::Ok(items) => spec_project_query_items(raws@) == Result::<
                    Seq<PartitionQueryResultItemView>,
                    Error,
                >::Ok(items@.map_values(|item: PartitionQueryResultItem| item@)),
                Result::Err(e) => spec_project_query_items(raws@) == Result::<
                    Seq<PartitionQueryResultItemView>,
                    Error,
                >::Err(e),
            },
            Result::Err(e) => r == Result::<Vec<PartitionQueryResultItem>, Error>::Err(e),
        },
{
    match end {
        Result::Ok(raws) => project_query_items(&raws),
        Result::Err(e) => Result::Err(e),
    }
}

} // verus!
