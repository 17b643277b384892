//! Result projection: turning raw native result records into owned,
//! structured value types.
//!
//! The native boundary reports results as records of integer tags, counts
//! and wide-character buffers. The `Raw*` types here hold exactly what the
//! boundary hands over, as plain values: every pointer-and-count array is
//! already a bounds-respecting copy, every text field its full code-unit
//! buffer, every identifier its 128-bit value, every discriminated union its
//! tag and payload. Projection is then pure and total: tags map to closed
//! enumerations, text decodes or the whole projection fails, and an
//! unrecognized kind tag is a modeled error, never a crash.

use vstd::prelude::*;

use crate::error::Error;
use crate::wstring::{decode_wide, wide_decode, wide_ok};

verus! {

// Native tag values for the partition kind of a resolved or queried service.
pub const PARTITION_KIND_INVALID: i32 = 0;

pub const PARTITION_KIND_SINGLETON: i32 = 1;

pub const PARTITION_KIND_INT64_RANGE: i32 = 2;

pub const PARTITION_KIND_NAMED: i32 = 3;

// Native tag values for the type of a partition key.
pub const KEY_TYPE_INVALID: i32 = 0;

pub const KEY_TYPE_NONE: i32 = 1;

pub const KEY_TYPE_INT64: i32 = 2;

pub const KEY_TYPE_STRING: i32 = 3;

// Native tag values for the role of a resolved service endpoint.
pub const ROLE_INVALID: i32 = 0;

pub const ROLE_STATELESS: i32 = 1;

pub const ROLE_STATEFUL_PRIMARY: i32 = 2;

pub const ROLE_STATEFUL_SECONDARY: i32 = 3;

pub const ROLE_STATEFUL_PRIMARY_AUXILIARY: i32 = 4;

pub const ROLE_STATEFUL_AUXILIARY: i32 = 5;

// Native tag values for the kind of a queried service.
pub const SERVICE_KIND_INVALID: i32 = 0;

pub const SERVICE_KIND_STATELESS: i32 = 1;

pub const SERVICE_KIND_STATEFUL: i32 = 2;

// Native tag values for a reported health state.
pub const HEALTH_STATE_INVALID: i32 = 0;

pub const HEALTH_STATE_OK: i32 = 1;

pub const HEALTH_STATE_WARNING: i32 = 2;

pub const HEALTH_STATE_ERROR: i32 = 3;

pub const HEALTH_STATE_UNKNOWN: i32 = 65535;

// Native tag values for a queried partition's status.
pub const PARTITION_STATUS_INVALID: i32 = 0;

pub const PARTITION_STATUS_READY: i32 = 1;

pub const PARTITION_STATUS_NOT_READY: i32 = 2;

pub const PARTITION_STATUS_IN_QUORUM_LOSS: i32 = 3;

pub const PARTITION_STATUS_RECONFIGURING: i32 = 4;

pub const PARTITION_STATUS_DELETING: i32 = 5;

/// The role a resolved endpoint serves in its partition. Closed: an
/// unrecognized native role degrades to `Invalid` rather than failing.
#[derive(Debug, Copy, Clone, PartialEq, Eq, Structural)]
pub enum EndpointRole {
    Invalid,
    Stateless,
    StatefulPrimary,
    StatefulSecondary,
    StatefulPrimaryAuxiliary,
    StatefulAuxiliary,
}

/// The role an endpoint's native tag stands for; anything unrecognized is
/// `Invalid`.
pub open spec fn spec_endpoint_role_from(value: i32) -> EndpointRole {
    if value == ROLE_STATELESS {
        EndpointRole::Stateless
    } else if value == ROLE_STATEFUL_PRIMARY {
        EndpointRole::StatefulPrimary
    } else if value == ROLE_STATEFUL_SECONDARY {
        EndpointRole::StatefulSecondary
    } else if value == ROLE_STATEFUL_PRIMARY_AUXILIARY {
        EndpointRole::StatefulPrimaryAuxiliary
    } else if value == ROLE_STATEFUL_AUXILIARY {
        EndpointRole::StatefulAuxiliary
    } else {
        EndpointRole::Invalid
    }
}

impl EndpointRole {
    /// Maps a native role tag into the closed enumeration.
    pub fn from(value: i32) -> (r: EndpointRole)
        ensures
            r == spec_endpoint_role_from(value),
    {
        if value == ROLE_STATELESS {
            EndpointRole::Stateless
        } else if value == ROLE_STATEFUL_PRIMARY {
            EndpointRole::StatefulPrimary
        } else if value == ROLE_STATEFUL_SECONDARY {
            EndpointRole::StatefulSecondary
        } else if value == ROLE_STATEFUL_PRIMARY_AUXILIARY {
            EndpointRole::StatefulPrimaryAuxiliary
        } else if value == ROLE_STATEFUL_AUXILIARY {
            EndpointRole::StatefulAuxiliary
        } else {
            EndpointRole::Invalid
        }
    }
}

/// How a service's workload space is partitioned.
#[derive(Debug, Copy, Clone, PartialEq, Eq, Structural)]
pub enum ServicePartitionKind {
    Invalid,
    Singleton,
    Int64Range,
    Named,
}

/// The partition kind a native tag stands for; anything unrecognized is
/// `Invalid`.
pub open spec fn spec_partition_kind_from(value: i32) -> ServicePartitionKind {
    if value == PARTITION_KIND_SINGLETON {
        ServicePartitionKind::Singleton
    } else if value == PARTITION_KIND_INT64_RANGE {
        ServicePartitionKind::Int64Range
    } else if value == PARTITION_KIND_NAMED {
        ServicePartitionKind::Named
    } else {
        ServicePartitionKind::Invalid
    }
}

impl ServicePartitionKind {
    /// Maps a native partition-kind tag into the closed enumeration.
    pub fn from(value: i32) -> (r: ServicePartitionKind)
        ensures
            r == spec_partition_kind_from(value),
    {
        if value == PARTITION_KIND_SINGLETON {
            ServicePartitionKind::Singleton
        } else if value == PARTITION_KIND_INT64_RANGE {
            ServicePartitionKind::Int64Range
        } else if value == PARTITION_KIND_NAMED {
            ServicePartitionKind::Named
        } else {
            ServicePartitionKind::Invalid
        }
    }
}

/// The type of key a caller resolves a partition with.
#[derive(Debug, Copy, Clone, PartialEq, Eq, Structural)]
pub enum PartitionKeyType {
    Invalid,
    NoKey,
    Int64,
    StringKey,
}

/// The native tag each key type is passed to the boundary as.
pub open spec fn spec_key_type_raw(k: PartitionKeyType) -> i32 {
    match k {
        PartitionKeyType::Invalid => KEY_TYPE_INVALID,
        PartitionKeyType::NoKey => KEY_TYPE_NONE,
        PartitionKeyType::Int64 => KEY_TYPE_INT64,
        PartitionKeyType::StringKey => KEY_TYPE_STRING,
    }
}

impl PartitionKeyType {
    /// The native tag to hand to a resolve call for this key type.
    pub fn as_raw(self) -> (r: i32)
        ensures
            r == spec_key_type_raw(self),
    {
        match self {
            PartitionKeyType::Invalid => KEY_TYPE_INVALID,
            PartitionKeyType::NoKey => KEY_TYPE_NONE,
            PartitionKeyType::Int64 => KEY_TYPE_INT64,
            PartitionKeyType::StringKey => KEY_TYPE_STRING,
        }
    }
}

/// Health of a queried entity.
#[derive(Debug, Copy, Clone, PartialEq, Eq, Structural)]
pub enum HealthState {
    Invalid,
    Healthy,
    Warning,
    Error,
    Unknown,
}

/// The health state a native tag stands for; anything unrecognized is
/// `Invalid`.
pub open spec fn spec_health_state_from(value: i32) -> HealthState {
    if value == HEALTH_STATE_OK {
        HealthState::Healthy
    } else if value == HEALTH_STATE_WARNING {
        HealthState::Warning
    } else if value == HEALTH_STATE_ERROR {
        HealthState::Error
    } else if value == HEALTH_STATE_UNKNOWN {
        HealthState::Unknown
    } else {
        HealthState::Invalid
    }
}

impl HealthState {
    /// Maps a native health-state tag into the closed enumeration.
    pub fn from(value: i32) -> (r: HealthState)
        ensures
            r == spec_health_state_from(value),
    {
        if value == HEALTH_STATE_OK {
            HealthState::Healthy
        } else if value == HEALTH_STATE_WARNING {
            HealthState::Warning
        } else if value == HEALTH_STATE_ERROR {
            HealthState::Error
        } else if value == HEALTH_STATE_UNKNOWN {
            HealthState::Unknown
        } else {
            HealthState::Invalid
        }
    }
}

/// Whether a queried service keeps state.
#[derive(Debug, Copy, Clone, PartialEq, Eq, Structural)]
pub enum ServiceKind {
    Invalid,
    Stateless,
    Stateful,
}

/// The service kind a native tag stands for; anything unrecognized is
/// `Invalid`.
pub open spec fn spec_service_kind_from(value: i32) -> ServiceKind {
    if value == SERVICE_KIND_STATELESS {
        ServiceKind::Stateless
    } else if value == SERVICE_KIND_STATEFUL {
        ServiceKind::Stateful
    } else {
        ServiceKind::Invalid
    }
}

impl ServiceKind {
    /// Maps a native service-kind tag into the closed enumeration.
    pub fn from(value: i32) -> (r: ServiceKind)
        ensures
            r == spec_service_kind_from(value),
    {
        if value == SERVICE_KIND_STATELESS {
            ServiceKind::Stateless
        } else if value == SERVICE_KIND_STATEFUL {
            ServiceKind::Stateful
        } else {
            ServiceKind::Invalid
        }
    }
}

/// Status of a queried partition.
#[derive(Debug, Copy, Clone, PartialEq, Eq, Structural)]
pub enum QueryServicePartitionStatus {
    Invalid,
    Ready,
    NotReady,
    InQuorumLoss,
    Reconfiguring,
    Deleting,
}

/// The partition status a native tag stands for; anything unrecognized is
/// `Invalid`.
pub open spec fn spec_partition_status_from(value: i32) -> QueryServicePartitionStatus {
    if value == PARTITION_STATUS_READY {
        QueryServicePartitionStatus::Ready
    } else if value == PARTITION_STATUS_NOT_READY {
        QueryServicePartitionStatus::NotReady
    } else if value == PARTITION_STATUS_IN_QUORUM_LOSS {
        QueryServicePartitionStatus::InQuorumLoss
    } else if value == PARTITION_STATUS_RECONFIGURING {
        QueryServicePartitionStatus::Reconfiguring
    } else if value == PARTITION_STATUS_DELETING {
        QueryServicePartitionStatus::Deleting
    } else {
        QueryServicePartitionStatus::Invalid
    }
}

impl QueryServicePartitionStatus {
    /// Maps a native partition-status tag into the closed enumeration.
    pub fn from(value: i32) -> (r: QueryServicePartitionStatus)
        ensures
            r == spec_partition_status_from(value),
    {
        if value == PARTITION_STATUS_READY {
            QueryServicePartitionStatus::Ready
        } else if value == PARTITION_STATUS_NOT_READY {
            QueryServicePartitionStatus::NotReady
        } else if value == PARTITION_STATUS_IN_QUORUM_LOSS {
            QueryServicePartitionStatus::InQuorumLoss
        } else if value == PARTITION_STATUS_RECONFIGURING {
            QueryServicePartitionStatus::Reconfiguring
        } else if value == PARTITION_STATUS_DELETING {
            QueryServicePartitionStatus::Deleting
        } else {
            QueryServicePartitionStatus::Invalid
        }
    }
}

// ---------------------------------------------------------------------------
// Raw records, as the native boundary hands them over.
// ---------------------------------------------------------------------------

/// One resolved endpoint as the boundary reports it: a wide-character
/// address and a role tag.
#[derive(Debug)]
pub struct RawServiceEndpoint {
    pub address: Vec<u16>,
    pub role: i32,
}

/// A resolved service partition as the boundary reports it: a kind tag, the
/// copied endpoint array (possibly empty, never missing) and the service
/// name as a wide-character buffer.
#[derive(Debug)]
pub struct RawServicePartition {
    pub kind: i32,
    pub endpoints: Vec<RawServiceEndpoint>,
    pub service_name: Vec<u16>,
}

/// Payload of a singleton partition-information record.
#[derive(Debug, Copy, Clone, PartialEq, Eq, Structural)]
pub struct RawSingletonPartitionInformation {
    pub id: u128,
}

/// Payload of an integer-range partition-information record.
#[derive(Debug, Copy, Clone, PartialEq, Eq, Structural)]
pub struct RawInt64RangePartitionInformation {
    pub id: u128,
    pub low_key: i64,
    pub high_key: i64,
}

/// Payload of a named partition-information record.
#[derive(Debug)]
pub struct RawNamedPartitionInformation {
    pub id: u128,
    pub name: Vec<u16>,
}

/// The payload half of a partition-information union.
#[derive(Debug)]
pub enum RawPartitionInformationValue {
    Singleton(RawSingletonPartitionInformation),
    Int64Range(RawInt64RangePartitionInformation),
    Named(RawNamedPartitionInformation),
}

/// A partition-information union as the boundary reports it: the kind tag,
/// and the payload it was read as.
#[derive(Debug)]
pub struct RawPartitionInformation {
    pub kind: i32,
    pub value: RawPartitionInformationValue,
}

/// A stateful-service partition query item as the boundary reports it.
#[derive(Debug)]
pub struct RawStatefulServiceItem {
    pub partition_information: RawPartitionInformation,
    pub target_replica_size: u32,
    pub min_replica_size: u32,
    pub health_state: i32,
    pub partition_status: i32,
    pub last_quorum_loss_duration_in_seconds: i64,
}

/// A stateless-service partition query item as the boundary reports it.
#[derive(Debug)]
pub struct RawStatelessServiceItem {
    pub partition_information: RawPartitionInformation,
    pub instance_count: u32,
    pub health_state: i32,
    pub partition_status: i32,
}

/// The payload half of a partition query result union.
#[derive(Debug)]
pub enum RawServiceItemValue {
    Stateful(RawStatefulServiceItem),
    Stateless(RawStatelessServiceItem),
}

/// One partition query result item as the boundary reports it: the
/// service-kind tag, and the payload it was read as.
#[derive(Debug)]
pub struct RawPartitionQueryResultItem {
    pub kind: i32,
    pub value: RawServiceItemValue,
}

// ---------------------------------------------------------------------------
// Owned result types and their projections.
// ---------------------------------------------------------------------------

/// Mathematical content of a [`ServiceEndpoint`].
pub struct ServiceEndpointView {
    pub address: Seq<char>,
    pub role: EndpointRole,
}

/// One endpoint currently serving a partition.
#[derive(Debug)]
pub struct ServiceEndpoint {
    address: String,
    role: EndpointRole,
}

impl View for ServiceEndpoint {
    type V = ServiceEndpointView;

    closed spec fn view(&self) -> ServiceEndpointView {
        ServiceEndpointView { address: self.address@, role: self.role }
    }
}

/// The projection a raw endpoint denotes, assuming its address decodes.
pub open spec fn spec_project_endpoint(raw: RawServiceEndpoint) -> ServiceEndpointView {
    ServiceEndpointView {
        address: wide_decode(raw.address@),
        role: spec_endpoint_role_from(raw.role),
    }
}

impl ServiceEndpoint {
    /// Projects one raw endpoint: decodes the address and maps the role
    /// tag. Fails exactly when the address is not valid UTF-16.
    pub fn try_from(value: &RawServiceEndpoint) -> (r: Result<ServiceEndpoint, Error>)
        ensures
            match r {
                Result::Ok(ep) => wide_ok(value.address@) && ep@ == spec_project_endpoint(*value),
                Result::Err(e) => !wide_ok(value.address@) && e == Error::Utf16StringDecode,
            },
    {
        match decode_wide(&value.address) {
            Result::Ok(address) => Result::Ok(
                ServiceEndpoint { address, role: EndpointRole::from(value.role) },
            ),
            Result::Err(e) => Result::Err(e),
        }
    }

    /// The endpoint's address, typically a URI.
    pub fn address(&self) -> (a: &str)
        ensures
            a@ == self@.address,
    {
        self.address.as_str()
    }

    /// The endpoint's role.
    pub fn role(&self) -> (r: EndpointRole)
        ensures
            r == self@.role,
    {
        self.role
    }
}

/// Mathematical content of a [`ServicePartition`].
pub struct ServicePartitionView {
    pub kind: ServicePartitionKind,
    pub endpoints: Seq<ServiceEndpointView>,
    pub name: Seq<char>,
}

/// A resolved service partition: its kind, the endpoints currently serving
/// it (possibly none), and the service name.
#[derive(Debug)]
pub struct ServicePartition {
    kind: ServicePartitionKind,
    endpoints: Vec<ServiceEndpoint>,
    name: String,
}

impl View for ServicePartition {
    type V = ServicePartitionView;

    closed spec fn view(&self) -> ServicePartitionView {
        ServicePartitionView {
            kind: self.kind,
            endpoints: self.endpoints@.map_values(|ep: ServiceEndpoint| ep@),
            name: self.name@,
        }
    }
}

/// Every wide-character field of the raw partition decodes.
pub open spec fn spec_partition_decodable(raw: RawServicePartition) -> bool {
    &&& wide_ok(raw.service_name@)
    &&& forall|i: int|
        0 <= i < raw.endpoints@.len() ==> wide_ok(#[trigger] raw.endpoints@[i].address@)
}

/// The projection a raw partition denotes, assuming every field decodes.
pub open spec fn spec_project_partition(raw: RawServicePartition) -> ServicePartitionView {
    ServicePartitionView {
        kind: spec_partition_kind_from(raw.kind),
        endpoints: raw.endpoints@.map_values(|ep: RawServiceEndpoint| spec_project_endpoint(ep)),
        name: wide_decode(raw.service_name@),
    }
}

impl ServicePartition {
    /// Projects a raw resolved partition into the owned type: the kind tag
    /// mapped, every endpoint projected in order, the name decoded. Fails
    /// exactly when some wide-character field is not valid UTF-16, and then
    /// returns no partial result.
    #[verifier::loop_isolation(false)]
    pub fn new(raw: &RawServicePartition) -> (r: Result<ServicePartition, Error>)
        ensures
            match r {
                Result::Ok(p) => spec_partition_decodable(*raw) && p@ == spec_project_partition(
                    *raw,
                ),
                Result::Err(e) => !spec_partition_decodable(*raw) && e
                    == Error::Utf16StringDecode,
            },
    {
        let mut endpoints: Vec<ServiceEndpoint> = Vec::new();
        let n = raw.endpoints.len();
        let mut i: usize = 0;
        while i < n
            invariant
                i <= n,
                endpoints@.len() == i,
                forall|j: int| 0 <= j < i ==> wide_ok(#[trigger] raw.endpoints@[j].address@),
                forall|j: int|
                    0 <= j < i ==> (#[trigger] endpoints@[j])@ == spec_project_endpoint(
                        raw.endpoints@[j],
                    ),
            decreases n - i,
        {
            match ServiceEndpoint::try_from(&raw.endpoints[i]) {
                Result::Ok(ep) => {
                    endpoints.push(ep);
                },
                Result::Err(e) => {
                    return Result::Err(e);
                },
            }
            i = i + 1;
        }
        match decode_wide(&raw.service_name) {
            Result::Ok(name) => {
                let p = ServicePartition { kind: ServicePartitionKind::from(raw.kind), endpoints, name };
                proof {
                    assert(p@.endpoints =~= spec_project_partition(*raw).endpoints);
                }
                Result::Ok(p)
            },
            Result::Err(e) => Result::Err(e),
        }
    }

    /// The partition's kind.
    pub fn kind(&self) -> (k: ServicePartitionKind)
        ensures
            k == self@.kind,
    {
        self.kind
    }

    /// The endpoints currently serving the partition, in reported order;
    /// empty when no replica is currently resolvable.
    pub fn endpoints(&self) -> (eps: &Vec<ServiceEndpoint>)
        ensures
            eps@.map_values(|ep: ServiceEndpoint| ep@) == self@.endpoints,
    {
        &self.endpoints
    }

    /// The service's name.
    pub fn name(&self) -> (n: &str)
        ensures
            n@ == self@.name,
    {
        self.name.as_str()
    }
}

/// Mathematical content of a [`ServicePartitionInformation`].
pub enum ServicePartitionInformationView {
    Singleton { id: u128 },
    Int64Range { id: u128, low_key: i64, high_key: i64 },
    Named { id: u128, name: Seq<char> },
}

/// Identity of one partition, by its kind.
#[derive(Debug)]
pub enum ServicePartitionInformation {
    Singleton(SingletonPartitionInformation),
    Int64Range(Int64RangePartitionInformation),
    Named(NamedPartitionInformation),
}

/// Identity of a singleton partition.
#[derive(Debug, Copy, Clone, PartialEq, Eq, Structural)]
pub struct SingletonPartitionInformation {
    pub id: u128,
}

/// Identity of an integer-range partition: the closed key range it serves.
#[derive(Debug, Copy, Clone, PartialEq, Eq, Structural)]
pub struct Int64RangePartitionInformation {
    pub id: u128,
    pub low_key: i64,
    pub high_key: i64,
}

/// Identity of a named partition.
#[derive(Debug)]
pub struct NamedPartitionInformation {
    pub id: u128,
    pub name: String,
}

impl View for ServicePartitionInformation {
    type V = ServicePartitionInformationView;

    open spec fn view(&self) -> ServicePartitionInformationView {
        match self {
            ServicePartitionInformation::Singleton(s) => ServicePartitionInformationView::Singleton {
                id: s.id,
            },
            ServicePartitionInformation::Int64Range(r) => ServicePartitionInformationView::Int64Range {
                id: r.id,
                low_key: r.low_key,
                high_key: r.high_key,
            },
            ServicePartitionInformation::Named(n) => ServicePartitionInformationView::Named {
                id: n.id,
                name: n.name@,
            },
        }
    }
}

/// The result projecting a raw partition-information record must produce:
/// the matching tagged variant when the kind tag agrees with the payload and
/// every text field decodes; a decode error for a named partition whose name
/// is invalid; and the modeled kind error whenever the tag does not name the
/// payload that was read.
pub open spec fn spec_project_information(raw: RawPartitionInformation) -> Result<
    ServicePartitionInformationView,
    Error,
> {
    match raw.value {
        RawPartitionInformationValue::Singleton(s) => if raw.kind == PARTITION_KIND_SINGLETON {
            Result::Ok(ServicePartitionInformationView::Singleton { id: s.id })
        } else {
            Result::Err(Error::InvalidServicePartitionKind)
        },
        RawPartitionInformationValue::Int64Range(r) => if raw.kind == PARTITION_KIND_INT64_RANGE {
            Result::Ok(
                ServicePartitionInformationView::Int64Range {
                    id: r.id,
                    low_key: r.low_key,
                    high_key: r.high_key,
                },
            )
        } else {
            Result::Err(Error::InvalidServicePartitionKind)
        },
        RawPartitionInformationValue::Named(n) => if raw.kind == PARTITION_KIND_NAMED {
            if wide_ok(n.name@) {
                Result::Ok(
                    ServicePartitionInformationView::Named { id: n.id, name: wide_decode(n.name@) },
                )
            } else {
                Result::Err(Error::Utf16StringDecode)
            }
        } else {
            Result::Err(Error::InvalidServicePartitionKind)
        },
    }
}

impl SingletonPartitionInformation {
    /// Copies a raw singleton payload.
    pub fn from(value: &RawSingletonPartitionInformation) -> (r: SingletonPartitionInformation)
        ensures
            r.id == value.id,
    {
        SingletonPartitionInformation { id: value.id }
    }
}

impl Int64RangePartitionInformation {
    /// Copies a raw integer-range payload.
    pub fn from(value: &RawInt64RangePartitionInformation) -> (r: Int64RangePartitionInformation)
        ensures
            r.id == value.id,
            r.low_key == value.low_key,
            r.high_key == value.high_key,
    {
        Int64RangePartitionInformation {
            id: value.id,
            low_key: value.low_key,
            high_key: value.high_key,
        }
    }
}

impl NamedPartitionInformation {
    /// Projects a raw named payload, decoding the partition name. Fails
    /// exactly when the name is not valid UTF-16.
    pub fn try_from(value: &RawNamedPartitionInformation) -> (r: Result<
        NamedPartitionInformation,
        Error,
    >)
        ensures
            match r {
                Result::Ok(n) => wide_ok(value.name@) && n.id == value.id && n.name@
                    == wide_decode(value.name@),
                Result::Err(e) => !wide_ok(value.name@) && e == Error::Utf16StringDecode,
            },
    {
        match decode_wide(&value.name) {
            Result::Ok(name) => Result::Ok(NamedPartitionInformation { id: value.id, name }),
            Result::Err(e) => Result::Err(e),
        }
    }
}

impl ServicePartitionInformation {
    /// Projects a raw partition-information union: the kind tag picks the
    /// variant, an unrecognized or mismatched tag is the modeled kind error,
    /// and a named partition fails on an undecodable name.
    pub fn try_from(value: &RawPartitionInformation) -> (r: Result<
        ServicePartitionInformation,
        Error,
    >)
        ensures
            match r {
                Result::Ok(info) => spec_project_information(*value) == Result::<
                    ServicePartitionInformationView,
                    Error,
                >::Ok(info@),
                Result::Err(e) => spec_project_information(*value) == Result::<
                    ServicePartitionInformationView,
                    Error,
                >::Err(e),
            },
    {
        match &value.value {
            RawPartitionInformationValue::Singleton(s) => if value.kind
                == PARTITION_KIND_SINGLETON {
                Result::Ok(
                    ServicePartitionInformation::Singleton(SingletonPartitionInformation::from(s)),
                )
            } else {
                Result::Err(Error::InvalidServicePartitionKind)
            },
            RawPartitionInformationValue::Int64Range(r) => if value.kind
                == PARTITION_KIND_INT64_RANGE {
                Result::Ok(
                    ServicePartitionInformation::Int64Range(Int64RangePartitionInformation::from(r)),
                )
            } else {
                Result::Err(Error::InvalidServicePartitionKind)
            },
            RawPartitionInformationValue::Named(n) => if value.kind == PARTITION_KIND_NAMED {
                match NamedPartitionInformation::try_from(n) {
                    Result::Ok(named) => Result::Ok(ServicePartitionInformation::Named(named)),
                    Result::Err(e) => Result::Err(e),
                }
            } else {
                Result::Err(Error::InvalidServicePartitionKind)
            },
        }
    }
}

/// Mathematical content of a [`StatefulService`].
pub struct StatefulServiceView {
    pub partition_information: ServicePartitionInformationView,
    pub target_replica_size: u32,
    pub min_replica_size: u32,
    pub health_state: HealthState,
    pub partition_status: QueryServicePartitionStatus,
    pub last_quorum_loss_duration_in_seconds: i64,
}

/// One stateful-service partition as a query reports it.
#[derive(Debug)]
pub struct StatefulService {
    pub partition_information: ServicePartitionInformation,
    pub target_replica_size: u32,
    pub min_replica_size: u32,
    pub health_state: HealthState,
    pub partition_status: QueryServicePartitionStatus,
    pub last_quorum_loss_duration_in_seconds: i64,
}

impl View for StatefulService {
    type V = StatefulServiceView;

    open spec fn view(&self) -> StatefulServiceView {
        StatefulServiceView {
            partition_information: self.partition_information@,
            target_replica_size: self.target_replica_size,
            min_replica_size: self.min_replica_size,
            health_state: self.health_state,
            partition_status: self.partition_status,
            last_quorum_loss_duration_in_seconds: self.last_quorum_loss_duration_in_seconds,
        }
    }
}

/// The result projecting a raw stateful item must produce: its partition
/// information projected, sizes and duration copied, tags mapped.
pub open spec fn spec_project_stateful(raw: RawStatefulServiceItem) -> Result<
    StatefulServiceView,
    Error,
> {
    match spec_project_information(raw.partition_information) {
        Result::Ok(info) => Result::Ok(
            StatefulServiceView {
                partition_information: info,
                target_replica_size: raw.target_replica_size,
                min_replica_size: raw.min_replica_size,
                health_state: spec_health_state_from(raw.health_state),
                partition_status: spec_partition_status_from(raw.partition_status),
                last_quorum_loss_duration_in_seconds: raw.last_quorum_loss_duration_in_seconds,
            },
        ),
        Result::Err(e) => Result::Err(e),
    }
}

impl StatefulService {
    /// Projects a raw stateful query item. Fails exactly as its partition
    /// information does.
    pub fn try_from(value: &RawStatefulServiceItem) -> (r: Result<StatefulService, Error>)
        ensures
            match r {
                Result::Ok(s) => spec_project_stateful(*value) == Result::<
                    StatefulServiceView,
                    Error,
                >::Ok(s@),
                Result::Err(e) => spec_project_stateful(*value) == Result::<
                    StatefulServiceView,
                    Error,
                >::Err(e),
            },
    {
        match ServicePartitionInformation::try_from(&value.partition_information) {
            Result::Ok(partition_information) => Result::Ok(
                StatefulService {
                    partition_information,
                    target_replica_size: value.target_replica_size,
                    min_replica_size: value.min_replica_size,
                    health_state: HealthState::from(value.health_state),
                    partition_status: QueryServicePartitionStatus::from(value.partition_status),
                    last_quorum_loss_duration_in_seconds: value.last_quorum_loss_duration_in_seconds,
                },
            ),
            Result::Err(e) => Result::Err(e),
        }
    }
}

/// Mathematical content of a [`StatelessService`].
pub struct StatelessServiceView {
    pub partition_information: ServicePartitionInformationView,
    pub instance_count: u32,
    pub health_state: HealthState,
    pub partition_status: QueryServicePartitionStatus,
}

/// One stateless-service partition as a query reports it.
#[derive(Debug)]
pub struct StatelessService {
    pub partition_information: ServicePartitionInformation,
    pub instance_count: u32,
    pub health_state: HealthState,
    pub partition_status: QueryServicePartitionStatus,
}

impl View for StatelessService {
    type V = StatelessServiceView;

    open spec fn view(&self) -> StatelessServiceView {
        StatelessServiceView {
            partition_information: self.partition_information@,
            instance_count: self.instance_count,
            health_state: self.health_state,
            partition_status: self.partition_status,
        }
    }
}

/// The result projecting a raw stateless item must produce.
pub open spec fn spec_project_stateless(raw: RawStatelessServiceItem) -> Result<
    StatelessServiceView,
    Error,
> {
    match spec_project_information(raw.partition_information) {
        Result::Ok(info) => Result::Ok(
            StatelessServiceView {
                partition_information: info,
                instance_count: raw.instance_count,
                health_state: spec_health_state_from(raw.health_state),
                partition_status: spec_partition_status_from(raw.partition_status),
            },
        ),
        Result::Err(e) => Result::Err(e),
    }
}

impl StatelessService {
    /// Projects a raw stateless query item. Fails exactly as its partition
    /// information does.
    pub fn try_from(value: &RawStatelessServiceItem) -> (r: Result<StatelessService, Error>)
        ensures
            match r {
                Result::Ok(s) => spec_project_stateless(*value) == Result::<
                    StatelessServiceView,
                    Error,
                >::Ok(s@),
                Result::Err(e) => spec_project_stateless(*value) == Result::<
                    StatelessServiceView,
                    Error,
                >::Err(e),
            },
    {
        match ServicePartitionInformation::try_from(&value.partition_information) {
            Result::Ok(partition_information) => Result::Ok(
                StatelessService {
                    partition_information,
                    instance_count: value.instance_count,
                    health_state: HealthState::from(value.health_state),
                    partition_status: QueryServicePartitionStatus::from(value.partition_status),
                },
            ),
            Result::Err(e) => Result::Err(e),
        }
    }
}

/// Mathematical content of a [`PartitionQueryResultItem`].
pub enum PartitionQueryResultItemView {
    Stateful(StatefulServiceView),
    Stateless(StatelessServiceView),
}

/// One item of a partition list query: a stateful or stateless partition.
#[derive(Debug)]
pub enum PartitionQueryResultItem {
    Stateful(StatefulService),
    Stateless(StatelessService),
}

impl View for PartitionQueryResultItem {
    type V = PartitionQueryResultItemView;

    open spec fn view(&self) -> PartitionQueryResultItemView {
        match self {
            PartitionQueryResultItem::Stateful(s) => PartitionQueryResultItemView::Stateful(s@),
            PartitionQueryResultItem::Stateless(s) => PartitionQueryResultItemView::Stateless(s@),
        }
    }
}

/// The result projecting a raw query item must produce: the payload's
/// projection under the matching kind tag, and the modeled service-kind
/// error whenever the tag does not name the payload that was read.
pub open spec fn spec_project_query_item(raw: RawPartitionQueryResultItem) -> Result<
    PartitionQueryResultItemView,
    Error,
> {
    match raw.value {
        RawServiceItemValue::Stateful(s) => if raw.kind == SERVICE_KIND_STATEFUL {
            match spec_project_stateful(s) {
                Result::Ok(v) => Result::Ok(PartitionQueryResultItemView::Stateful(v)),
                Result::Err(e) => Result::Err(e),
            }
        } else {
            Result::Err(Error::InvalidServiceKind)
        },
        RawServiceItemValue::Stateless(s) => if raw.kind == SERVICE_KIND_STATELESS {
            match spec_project_stateless(s) {
                Result::Ok(v) => Result::Ok(PartitionQueryResultItemView::Stateless(v)),
                Result::Err(e) => Result::Err(e),
            }
        } else {
            Result::Err(Error::InvalidServiceKind)
        },
    }
}

impl PartitionQueryResultItem {
    /// Projects one raw query item: the kind tag picks the payload's
    /// projection, an unrecognized or mismatched tag is the modeled
    /// service-kind error, never a crash.
    pub fn try_from(value: &RawPartitionQueryResultItem) -> (r: Result<
        PartitionQueryResultItem,
        Error,
    >)
        ensures
            match r {
                Result::Ok(item) => spec_project_query_item(*value) == Result::<
                    PartitionQueryResultItemView,
                    Error,
                >::Ok(item@),
                Result::Err(e) => spec_project_query_item(*value) == Result::<
                    PartitionQueryResultItemView,
                    Error,
                >::Err(e),
            },
    {
        match &value.value {
            RawServiceItemValue::Stateful(s) => if value.kind == SERVICE_KIND_STATEFUL {
                match StatefulService::try_from(s) {
                    Result::Ok(item) => Result::Ok(PartitionQueryResultItem::Stateful(item)),
                    Result::Err(e) => Result::Err(e),
                }
            } else {
                Result::Err(Error::InvalidServiceKind)
            },
            RawServiceItemValue::Stateless(s) => if value.kind == SERVICE_KIND_STATELESS {
                match StatelessService::try_from(s) {
                    Result::Ok(item) => Result::Ok(PartitionQueryResultItem::Stateless(item)),
                    Result::Err(e) => Result::Err(e),
                }
            } else {
                Result::Err(Error::InvalidServiceKind)
            },
        }
    }
}

/// Projects a whole copied query result array, in order; the first failing
/// item fails the whole projection, as each operation's callback does.
pub open spec fn spec_project_query_items(raws: Seq<RawPartitionQueryResultItem>) -> Result<
    Seq<PartitionQueryResultItemView>,
    Error,
>
    decreases raws.len(),
{
    if raws.len() == 0 {
        Result::Ok(Seq::empty())
    } else {
        match spec_project_query_item(raws[0]) {
            Result::Ok(v) => match spec_project_query_items(raws.drop_first()) {
                Result::Ok(rest) => Result::Ok(seq![v] + rest),
                Result::Err(e) => Result::Err(e),
            },
            Result::Err(e) => Result::Err(e),
        }
    }
}

/// Projects the copied item array of a partition list query: every item in
/// order, or the first item's error and nothing else.
#[verifier::loop_isolation(false)]
pub fn project_query_items(raws: &Vec<RawPartitionQueryResultItem>) -> (r: Result<
    Vec<PartitionQueryResultItem>,
    Error,
>)
    ensures
        match r {
            Result::Ok(items) => spec_project_query_items(raws@) == Result::<
                Seq<PartitionQueryResultItemView>,
                Error,
            >::Ok(items@.map_values(|item: PartitionQueryResultItem| item@)),
            Result::Err(e) => spec_project_query_items(raws@) == Result::<
                Seq<PartitionQueryResultItemView>,
                Error,
            >::Err(e),
        },
{
    let n = raws.len();
    let mut items: Vec<PartitionQueryResultItem> = Vec::new();
    let mut i: usize = 0;
    while i < n
        invariant
            i <= n,
            items@.len() == i,
            forall|j: int|
                0 <= j < i ==> spec_project_query_item(#[trigger] raws@[j]) == Result::<
                    PartitionQueryResultItemView,
                    Error,
                >::Ok(items@[j]@),
        decreases n - i,
    {
        match PartitionQueryResultItem::try_from(&raws[i]) {
            Result::Ok(item) => {
                items.push(item);
            },
            Result::Err(e) => {
                proof {
                    lemma_project_query_items_err(raws@, i as int, e);
                }
                return Result::Err(e);
            },
        }
        i = i + 1;
    }
    proof {
        lemma_project_query_items_ok(raws@, items@.map_values(|item: PartitionQueryResultItem| item@));
    }
    Result::Ok(items)
}

/// If every item up to a failing one projects, the whole projection fails
/// with that item's error.
proof fn lemma_project_query_items_err(raws: Seq<RawPartitionQueryResultItem>, i: int, e: Error)
    requires
        0 <= i < raws.len(),
        forall|j: int| 0 <= j < i ==> spec_project_query_item(#[trigger] raws[j]) is Ok,
        spec_project_query_item(raws[i]) == Result::<PartitionQueryResultItemView, Error>::Err(e),
    ensures
        spec_project_query_items(raws) == Result::<Seq<PartitionQueryResultItemView>, Error>::Err(
            e,
        ),
    decreases i,
{
    if i > 0 {
        lemma_project_query_items_err(raws.drop_first(), i - 1, e);
    }
}

/// If each item projects to the matching element of `views`, the whole
/// projection succeeds with `views`.
proof fn lemma_project_query_items_ok(
    raws: Seq<RawPartitionQueryResultItem>,
    views: Seq<PartitionQueryResultItemView>,
)
    requires
        raws.len() == views.len(),
        forall|j: int|
            0 <= j < raws.len() ==> spec_project_query_item(#[trigger] raws[j]) == Result::<
                PartitionQueryResultItemView,
                Error,
            >::Ok(views[j]),
    ensures
        spec_project_query_items(raws) == Result::<Seq<PartitionQueryResultItemView>, Error>::Ok(
            views,
        ),
    decreases raws.len(),
{
    if raws.len() == 0 {
        assert(views =~= Seq::<PartitionQueryResultItemView>::empty());
    } else {
        lemma_project_query_items_ok(raws.drop_first(), views.drop_first());
        assert(seq![views[0]] + views.drop_first() =~= views);
    }
}

/// Round trip through projection: a partition-information record whose kind
/// tag names its payload projects to the matching tagged variant with every
/// field copied exactly; a named partition's name is the decoding of its
/// wide-character buffer.
pub proof fn lemma_information_round_trip(raw: RawPartitionInformation)
    ensures
        match raw.value {
            RawPartitionInformationValue::Singleton(s) => raw.kind == PARTITION_KIND_SINGLETON
                ==> spec_project_information(raw) == Result::<
                ServicePartitionInformationView,
                Error,
            >::Ok(ServicePartitionInformationView::Singleton { id: s.id }),
            RawPartitionInformationValue::Int64Range(r) => raw.kind == PARTITION_KIND_INT64_RANGE
                ==> spec_project_information(raw) == Result::<
                ServicePartitionInformationView,
                Error,
            >::Ok(
                ServicePartitionInformationView::Int64Range {
                    id: r.id,
                    low_key: r.low_key,
                    high_key: r.high_key,
                },
            ),
            RawPartitionInformationValue::Named(n) => (raw.kind == PARTITION_KIND_NAMED
                && wide_ok(n.name@)) ==> spec_project_information(raw) == Result::<
                ServicePartitionInformationView,
                Error,
            >::Ok(ServicePartitionInformationView::Named { id: n.id, name: wide_decode(n.name@) }),
        },
{
}

/// An unrecognized partition-kind tag is the modeled error, whatever the
/// payload holds — never a crash, never a partial value.
pub proof fn lemma_unrecognized_partition_kind(raw: RawPartitionInformation)
    requires
        raw.kind != PARTITION_KIND_SINGLETON,
        raw.kind != PARTITION_KIND_INT64_RANGE,
        raw.kind != PARTITION_KIND_NAMED,
    ensures
        spec_project_information(raw) == Result::<ServicePartitionInformationView, Error>::Err(
            Error::InvalidServicePartitionKind,
        ),
{
}

/// An unrecognized service-kind tag on a query item is the modeled error,
/// whatever the payload holds.
pub proof fn lemma_unrecognized_service_kind(raw: RawPartitionQueryResultItem)
    requires
        raw.kind != SERVICE_KIND_STATEFUL,
        raw.kind != SERVICE_KIND_STATELESS,
    ensures
        spec_project_query_item(raw) == Result::<PartitionQueryResultItemView, Error>::Err(
            Error::InvalidServiceKind,
        ),
{
}

/// An endpoint array of length zero projects to the empty sequence, not an
/// error: a partition with no resolvable replica is still a valid result.
pub proof fn lemma_empty_endpoint_array_projects_empty(raw: RawServicePartition)
    requires
        raw.endpoints@.len() == 0,
        wide_ok(raw.service_name@),
    ensures
        spec_partition_decodable(raw),
        spec_project_partition(raw).endpoints == Seq::<ServiceEndpointView>::empty(),
{
    assert(spec_project_partition(raw).endpoints =~= Seq::<ServiceEndpointView>::empty());
}

/// One endpoint whose address is not valid UTF-16 makes the whole partition
/// undecodable: projection then fails as a whole, returning no partial or
/// corrupt partition.
pub proof fn lemma_bad_address_fails_whole_projection(raw: RawServicePartition, i: int)
    requires
        0 <= i < raw.endpoints@.len(),
        !wide_ok(raw.endpoints@[i].address@),
    ensures
        !spec_partition_decodable(raw),
{
}

} // verus!
