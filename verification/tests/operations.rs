//! The two caller-facing operations: argument building for the begin call
//! and completion of the end call's outcome.

use sf_rs::query::{build_partition_query, complete_get_partition_list};
use sf_rs::service::{build_resolve_args, complete_resolve};
use sf_rs::types::{
    PartitionKeyType, PartitionQueryResultItem, RawPartitionInformation,
    RawPartitionInformationValue, RawPartitionQueryResultItem, RawServiceEndpoint,
    RawServiceItemValue, RawServicePartition, RawSingletonPartitionInformation,
    RawStatelessServiceItem, ServicePartitionKind,
};
use sf_rs::Error;

fn wide(s: &str) -> Vec<u16> {
    s.encode_utf16().collect()
}

#[test]
fn resolve_args_encode_the_name_and_map_the_key_type() {
    let args = build_resolve_args("fabric:/app/svc", PartitionKeyType::Int64, 42, 1000);
    assert_eq!(args.service_name, wide("fabric:/app/svc"));
    assert_eq!(args.partition_key_type, 2);
    assert_eq!(args.partition_key, 42);
    assert_eq!(args.timeout_ms, 1000);
}

#[test]
fn partition_query_encodes_the_name_and_clears_the_filter() {
    let desc = build_partition_query("fabric:/app/svc-\u{00e9}", 500);
    assert_eq!(desc.service_name, wide("fabric:/app/svc-\u{00e9}"));
    assert_eq!(desc.partition_id_filter, 0);
    assert_eq!(desc.timeout_ms, 500);
}

#[test]
fn complete_resolve_projects_a_successful_end_call() {
    let raw = RawServicePartition {
        kind: 1,
        endpoints: vec![RawServiceEndpoint {
            address: wide("http://n1"),
            role: 1,
        }],
        service_name: wide("fabric:/app/svc"),
    };
    let p = complete_resolve(Ok(raw)).unwrap();
    assert_eq!(p.kind(), ServicePartitionKind::Singleton);
    assert_eq!(p.name(), "fabric:/app/svc");
    assert_eq!(p.endpoints().len(), 1);
}

#[test]
fn complete_resolve_passes_a_native_error_through() {
    let err = complete_resolve(Err(Error::Windows(0x80071bcd))).unwrap_err();
    assert_eq!(err, Error::Windows(0x80071bcd));
}

#[test]
fn complete_resolve_fails_whole_projection_on_bad_text() {
    let raw = RawServicePartition {
        kind: 1,
        endpoints: vec![RawServiceEndpoint {
            address: vec![0xdc00],
            role: 1,
        }],
        service_name: wide("fabric:/app/svc"),
    };
    assert_eq!(complete_resolve(Ok(raw)).unwrap_err(), Error::Utf16StringDecode);
}

fn stateless_item(id: u128) -> RawPartitionQueryResultItem {
    RawPartitionQueryResultItem {
        kind: 1,
        value: RawServiceItemValue::Stateless(RawStatelessServiceItem {
            partition_information: RawPartitionInformation {
                kind: 1,
                value: RawPartitionInformationValue::Singleton(RawSingletonPartitionInformation {
                    id,
                }),
            },
            instance_count: 1,
            health_state: 1,
            partition_status: 1,
        }),
    }
}

#[test]
fn complete_get_partition_list_projects_every_item_in_order() {
    let items = complete_get_partition_list(Ok(vec![stateless_item(1), stateless_item(2)]))
        .unwrap();
    assert_eq!(items.len(), 2);
    assert!(matches!(items[0], PartitionQueryResultItem::Stateless(_)));
}

#[test]
fn complete_get_partition_list_passes_a_native_error_through() {
    let err = complete_get_partition_list(Err(Error::Windows(0x80071c25))).unwrap_err();
    assert_eq!(err, Error::Windows(0x80071c25));
}

#[test]
fn complete_get_partition_list_fails_on_the_first_bad_item() {
    let mut bad = stateless_item(3);
    bad.kind = 9;
    let err = complete_get_partition_list(Ok(vec![stateless_item(1), bad])).unwrap_err();
    assert_eq!(err, Error::InvalidServiceKind);
}
