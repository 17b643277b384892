//! Projection of raw native result records into owned value types.

use sf_rs::types::{
    EndpointRole, HealthState, PartitionQueryResultItem, QueryServicePartitionStatus,
    RawInt64RangePartitionInformation, RawNamedPartitionInformation, RawPartitionInformation,
    RawPartitionInformationValue, RawPartitionQueryResultItem, RawServiceEndpoint,
    RawServiceItemValue, RawServicePartition, RawSingletonPartitionInformation,
    RawStatefulServiceItem, RawStatelessServiceItem, ServiceEndpoint, ServiceKind,
    ServicePartition, ServicePartitionInformation, ServicePartitionKind, StatefulService,
    StatelessService,
};
use sf_rs::{Error, PartitionKeyType};

fn wide(s: &str) -> Vec<u16> {
    s.encode_utf16().collect()
}

fn int64_range_info(id: u128, low_key: i64, high_key: i64) -> RawPartitionInformation {
    RawPartitionInformation {
        kind: 2,
        value: RawPartitionInformationValue::Int64Range(RawInt64RangePartitionInformation {
            id,
            low_key,
            high_key,
        }),
    }
}

#[test]
fn singleton_information_round_trips() {
    let raw = RawPartitionInformation {
        kind: 1,
        value: RawPartitionInformationValue::Singleton(RawSingletonPartitionInformation {
            id: 0xabcdef,
        }),
    };
    match ServicePartitionInformation::try_from(&raw).unwrap() {
        ServicePartitionInformation::Singleton(s) => assert_eq!(s.id, 0xabcdef),
        other => panic!("wrong variant: {:?}", other),
    }
}

#[test]
fn int64_range_information_round_trips() {
    let raw = int64_range_info(0x47, 1, 1000);
    match ServicePartitionInformation::try_from(&raw).unwrap() {
        ServicePartitionInformation::Int64Range(r) => {
            assert_eq!(r.id, 0x47);
            assert_eq!(r.low_key, 1);
            assert_eq!(r.high_key, 1000);
        }
        other => panic!("wrong variant: {:?}", other),
    }
}

#[test]
fn named_information_round_trips() {
    let raw = RawPartitionInformation {
        kind: 3,
        value: RawPartitionInformationValue::Named(RawNamedPartitionInformation {
            id: 9,
            name: wide("shard-A"),
        }),
    };
    match ServicePartitionInformation::try_from(&raw).unwrap() {
        ServicePartitionInformation::Named(n) => {
            assert_eq!(n.id, 9);
            assert_eq!(n.name, "shard-A");
        }
        other => panic!("wrong variant: {:?}", other),
    }
}

#[test]
fn unrecognized_partition_kind_is_modeled_error() {
    let raw = RawPartitionInformation {
        kind: 99,
        value: RawPartitionInformationValue::Singleton(RawSingletonPartitionInformation { id: 1 }),
    };
    let err = ServicePartitionInformation::try_from(&raw).unwrap_err();
    assert_eq!(err, Error::InvalidServicePartitionKind);
}

#[test]
fn named_information_with_bad_name_fails_decode() {
    let raw = RawPartitionInformation {
        kind: 3,
        value: RawPartitionInformationValue::Named(RawNamedPartitionInformation {
            id: 9,
            name: vec![0xd800], // lone high surrogate
        }),
    };
    let err = ServicePartitionInformation::try_from(&raw).unwrap_err();
    assert_eq!(err, Error::Utf16StringDecode);
}

#[test]
fn endpoint_projects_address_and_role() {
    let raw = RawServiceEndpoint {
        address: wide("http://node-1:19000"),
        role: 2,
    };
    let ep = ServiceEndpoint::try_from(&raw).unwrap();
    assert_eq!(ep.address(), "http://node-1:19000");
    assert_eq!(ep.role(), EndpointRole::StatefulPrimary);
}

#[test]
fn unrecognized_endpoint_role_degrades_to_invalid() {
    let raw = RawServiceEndpoint {
        address: wide("x"),
        role: 77,
    };
    let ep = ServiceEndpoint::try_from(&raw).unwrap();
    assert_eq!(ep.role(), EndpointRole::Invalid);
}

#[test]
fn endpoint_role_tags_map_exhaustively() {
    assert_eq!(EndpointRole::from(0), EndpointRole::Invalid);
    assert_eq!(EndpointRole::from(1), EndpointRole::Stateless);
    assert_eq!(EndpointRole::from(2), EndpointRole::StatefulPrimary);
    assert_eq!(EndpointRole::from(3), EndpointRole::StatefulSecondary);
    assert_eq!(EndpointRole::from(4), EndpointRole::StatefulPrimaryAuxiliary);
    assert_eq!(EndpointRole::from(5), EndpointRole::StatefulAuxiliary);
    assert_eq!(EndpointRole::from(-1), EndpointRole::Invalid);
}

#[test]
fn partition_kind_tags_map_exhaustively() {
    assert_eq!(ServicePartitionKind::from(0), ServicePartitionKind::Invalid);
    assert_eq!(ServicePartitionKind::from(1), ServicePartitionKind::Singleton);
    assert_eq!(ServicePartitionKind::from(2), ServicePartitionKind::Int64Range);
    assert_eq!(ServicePartitionKind::from(3), ServicePartitionKind::Named);
    assert_eq!(ServicePartitionKind::from(42), ServicePartitionKind::Invalid);
}

#[test]
fn health_state_tags_map_exhaustively() {
    assert_eq!(HealthState::from(0), HealthState::Invalid);
    assert_eq!(HealthState::from(1), HealthState::Healthy);
    assert_eq!(HealthState::from(2), HealthState::Warning);
    assert_eq!(HealthState::from(3), HealthState::Error);
    assert_eq!(HealthState::from(65535), HealthState::Unknown);
    assert_eq!(HealthState::from(4), HealthState::Invalid);
}

#[test]
fn partition_status_tags_map_exhaustively() {
    assert_eq!(
        QueryServicePartitionStatus::from(0),
        QueryServicePartitionStatus::Invalid
    );
    assert_eq!(
        QueryServicePartitionStatus::from(1),
        QueryServicePartitionStatus::Ready
    );
    assert_eq!(
        QueryServicePartitionStatus::from(2),
        QueryServicePartitionStatus::NotReady
    );
    assert_eq!(
        QueryServicePartitionStatus::from(3),
        QueryServicePartitionStatus::InQuorumLoss
    );
    assert_eq!(
        QueryServicePartitionStatus::from(4),
        QueryServicePartitionStatus::Reconfiguring
    );
    assert_eq!(
        QueryServicePartitionStatus::from(5),
        QueryServicePartitionStatus::Deleting
    );
    assert_eq!(
        QueryServicePartitionStatus::from(-7),
        QueryServicePartitionStatus::Invalid
    );
}

#[test]
fn service_kind_tags_map_exhaustively() {
    assert_eq!(ServiceKind::from(0), ServiceKind::Invalid);
    assert_eq!(ServiceKind::from(1), ServiceKind::Stateless);
    assert_eq!(ServiceKind::from(2), ServiceKind::Stateful);
    assert_eq!(ServiceKind::from(3), ServiceKind::Invalid);
}

#[test]
fn resolved_partition_projects_all_fields() {
    let raw = RawServicePartition {
        kind: 2,
        endpoints: vec![
            RawServiceEndpoint {
                address: wide("http://a"),
                role: 2,
            },
            RawServiceEndpoint {
                address: wide("http://b"),
                role: 3,
            },
        ],
        service_name: wide("fabric:/app/svc"),
    };
    let p = ServicePartition::new(&raw).unwrap();
    assert_eq!(p.kind(), ServicePartitionKind::Int64Range);
    assert_eq!(p.name(), "fabric:/app/svc");
    assert_eq!(p.endpoints().len(), 2);
    assert_eq!(p.endpoints()[0].address(), "http://a");
    assert_eq!(p.endpoints()[0].role(), EndpointRole::StatefulPrimary);
    assert_eq!(p.endpoints()[1].address(), "http://b");
    assert_eq!(p.endpoints()[1].role(), EndpointRole::StatefulSecondary);
}

#[test]
fn empty_endpoint_array_projects_to_empty_sequence() {
    let raw = RawServicePartition {
        kind: 1,
        endpoints: Vec::new(),
        service_name: wide("fabric:/app/empty"),
    };
    let p = ServicePartition::new(&raw).unwrap();
    assert_eq!(p.endpoints().len(), 0);
    assert_eq!(p.kind(), ServicePartitionKind::Singleton);
}

#[test]
fn bad_endpoint_address_fails_whole_partition() {
    let raw = RawServicePartition {
        kind: 1,
        endpoints: vec![
            RawServiceEndpoint {
                address: wide("http://good"),
                role: 1,
            },
            RawServiceEndpoint {
                address: vec![0x64, 0xdc00], // unpaired low surrogate
                role: 1,
            },
        ],
        service_name: wide("fabric:/app/svc"),
    };
    let err = ServicePartition::new(&raw).unwrap_err();
    assert_eq!(err, Error::Utf16StringDecode);
}

#[test]
fn bad_service_name_fails_partition() {
    let raw = RawServicePartition {
        kind: 1,
        endpoints: Vec::new(),
        service_name: vec![0xdbff], // high surrogate with no low
    };
    let err = ServicePartition::new(&raw).unwrap_err();
    assert_eq!(err, Error::Utf16StringDecode);
}

#[test]
fn stateful_item_projects_all_fields() {
    let raw = RawStatefulServiceItem {
        partition_information: int64_range_info(5, -10, 10),
        target_replica_size: 3,
        min_replica_size: 2,
        health_state: 1,
        partition_status: 1,
        last_quorum_loss_duration_in_seconds: 17,
    };
    let s = StatefulService::try_from(&raw).unwrap();
    assert_eq!(s.target_replica_size, 3);
    assert_eq!(s.min_replica_size, 2);
    assert_eq!(s.health_state, HealthState::Healthy);
    assert_eq!(s.partition_status, QueryServicePartitionStatus::Ready);
    assert_eq!(s.last_quorum_loss_duration_in_seconds, 17);
    match s.partition_information {
        ServicePartitionInformation::Int64Range(r) => {
            assert_eq!((r.id, r.low_key, r.high_key), (5, -10, 10));
        }
        other => panic!("wrong variant: {:?}", other),
    }
}

#[test]
fn stateless_item_projects_all_fields() {
    let raw = RawStatelessServiceItem {
        partition_information: RawPartitionInformation {
            kind: 1,
            value: RawPartitionInformationValue::Singleton(RawSingletonPartitionInformation {
                id: 11,
            }),
        },
        instance_count: 4,
        health_state: 2,
        partition_status: 3,
    };
    let s = StatelessService::try_from(&raw).unwrap();
    assert_eq!(s.instance_count, 4);
    assert_eq!(s.health_state, HealthState::Warning);
    assert_eq!(s.partition_status, QueryServicePartitionStatus::InQuorumLoss);
    match s.partition_information {
        ServicePartitionInformation::Singleton(si) => assert_eq!(si.id, 11),
        other => panic!("wrong variant: {:?}", other),
    }
}

#[test]
fn query_item_with_unrecognized_kind_is_modeled_error() {
    let raw = RawPartitionQueryResultItem {
        kind: 0,
        value: RawServiceItemValue::Stateless(RawStatelessServiceItem {
            partition_information: RawPartitionInformation {
                kind: 1,
                value: RawPartitionInformationValue::Singleton(RawSingletonPartitionInformation {
                    id: 0,
                }),
            },
            instance_count: 1,
            health_state: 1,
            partition_status: 1,
        }),
    };
    let err = PartitionQueryResultItem::try_from(&raw).unwrap_err();
    assert_eq!(err, Error::InvalidServiceKind);
}

#[test]
fn query_item_projects_matching_variant() {
    let raw = RawPartitionQueryResultItem {
        kind: 2,
        value: RawServiceItemValue::Stateful(RawStatefulServiceItem {
            partition_information: int64_range_info(1, 0, 99),
            target_replica_size: 5,
            min_replica_size: 3,
            health_state: 3,
            partition_status: 4,
            last_quorum_loss_duration_in_seconds: 0,
        }),
    };
    match PartitionQueryResultItem::try_from(&raw).unwrap() {
        PartitionQueryResultItem::Stateful(s) => {
            assert_eq!(s.target_replica_size, 5);
            assert_eq!(s.health_state, HealthState::Error);
            assert_eq!(
                s.partition_status,
                QueryServicePartitionStatus::Reconfiguring
            );
        }
        other => panic!("wrong variant: {:?}", other),
    }
}

#[test]
fn query_item_list_keeps_order_and_fails_on_first_bad_item() {
    let good = |id: u128| RawPartitionQueryResultItem {
        kind: 1,
        value: RawServiceItemValue::Stateless(RawStatelessServiceItem {
            partition_information: RawPartitionInformation {
                kind: 1,
                value: RawPartitionInformationValue::Singleton(RawSingletonPartitionInformation {
                    id,
                }),
            },
            instance_count: 1,
            health_state: 1,
            partition_status: 1,
        }),
    };
    let items = sf_rs::types::project_query_items(&vec![good(1), good(2), good(3)]).unwrap();
    let ids: Vec<u128> = items
        .iter()
        .map(|item| match item {
            PartitionQueryResultItem::Stateless(s) => match &s.partition_information {
                ServicePartitionInformation::Singleton(si) => si.id,
                _ => panic!("wrong information variant"),
            },
            _ => panic!("wrong item variant"),
        })
        .collect();
    assert_eq!(ids, vec![1, 2, 3]);

    let bad = RawPartitionQueryResultItem {
        kind: 9,
        value: RawServiceItemValue::Stateless(RawStatelessServiceItem {
            partition_information: RawPartitionInformation {
                kind: 1,
                value: RawPartitionInformationValue::Singleton(RawSingletonPartitionInformation {
                    id: 9,
                }),
            },
            instance_count: 1,
            health_state: 1,
            partition_status: 1,
        }),
    };
    let err = sf_rs::types::project_query_items(&vec![good(1), bad, good(3)]).unwrap_err();
    assert_eq!(err, Error::InvalidServiceKind);
}

#[test]
fn partition_key_type_maps_to_native_tags() {
    assert_eq!(PartitionKeyType::Invalid.as_raw(), 0);
    assert_eq!(PartitionKeyType::NoKey.as_raw(), 1);
    assert_eq!(PartitionKeyType::Int64.as_raw(), 2);
    assert_eq!(PartitionKeyType::StringKey.as_raw(), 3);
}
