//! The unified error type of the library, and the symbolic status-code table.
//!
//! Every failure a caller can see is one of the variants of [`Error`]: a raw
//! native status code, a wide-string decoding failure, an operation whose
//! callback never fired, or a result record carrying an unrecognized kind tag.
//! [`FabricErrorCode`] names the known native status codes; the retry policy
//! classifies errors by looking a raw code up in this table.

use vstd::prelude::*;

verus! {

/// The error type shared by every fallible operation of this library.
#[derive(Debug, Clone)]
pub enum Error {
    /// A native call reported failure; carries the numeric status code
    /// (an HRESULT, widened to its unsigned form).
    Windows(u32),
    /// A wide-character text field was not valid UTF-16.
    Utf16StringDecode,
    /// The awaited operation's callback never fired: its channel closed
    /// without a value. Carries the operation name for diagnostics.
    Abandoned(String),
    /// A query result item carried an unrecognized service-kind tag.
    InvalidServiceKind,
    /// A partition-information record carried an unrecognized
    /// partition-kind tag.
    InvalidServicePartitionKind,
}

/// What equality of two [`Error`] values means: same variant, and equal
/// payloads (the operation name of an abandoned call is compared by content).
pub open spec fn spec_error_eq(a: &Error, b: &Error) -> bool {
    match (a, b) {
        (Error::Windows(x), Error::Windows(y)) => x == y,
        (Error::Utf16StringDecode, Error::Utf16StringDecode) => true,
        (Error::Abandoned(x), Error::Abandoned(y)) => x@ == y@,
        (Error::InvalidServiceKind, Error::InvalidServiceKind) => true,
        (Error::InvalidServicePartitionKind, Error::InvalidServicePartitionKind) => true,
        _ => false,
    }
}

impl PartialEq for Error {
    fn eq(&self, other: &Error) -> (r: bool) {
        match (self, other) {
            (Error::Windows(x), Error::Windows(y)) => x == y,
            (Error::Utf16StringDecode, Error::Utf16StringDecode) => true,
            (Error::Abandoned(x), Error::Abandoned(y)) => *x == *y,
            (Error::InvalidServiceKind, Error::InvalidServiceKind) => true,
            (Error::InvalidServicePartitionKind, Error::InvalidServicePartitionKind) => true,
            _ => false,
        }
    }
}

impl vstd::std_specs::cmp::PartialEqSpecImpl for Error {
    open spec fn obeys_eq_spec() -> bool {
        true
    }

    open spec fn eq_spec(&self, other: &Error) -> bool {
        spec_error_eq(self, other)
    }
}

/// Symbolic names for the native status codes the cluster runtime can
/// report. The table exists for retry classification and diagnostics; the
/// library never fabricates codes beyond looking raw values up here.
#[derive(Debug, Copy, Clone, PartialEq, Eq, Structural)]
pub enum FabricErrorCode {
    Unknown,
    InvalidPartitionKey,
    UserRoleClientCertificateNotConfigured,
    NameAlreadyExists,
    ServiceAlreadyExists,
    ServiceGroupAlreadyExists,
    ApplicationTypeProvisionInProgress,
    ApplicationTypeAlreadyExists,
    ApplicationAlreadyExists,
    NameNotFound,
    PropertyNotFound,
    PropertyValueEmpty,
    ServiceNotFound,
    AuxiliaryFeatureDisabled,
    ServiceGroupNotFound,
    ApplicationTypeNotFound,
    ApplicationTypeInUse,
    ApplicationNotFound,
    ServiceTypeNotFound,
    ServiceManifestNotFound,
    NameNotEmpty,
    NodeNotFound,
    NodeTypeNotFound,
    NodeIsUp,
    NotPrimary,
    NoWriteQuorum,
    ReconfigurationPending,
    ReplicationQueueFull,
    ReplicationOperationTooLarge,
    InvalidAtomicGroup,
    ServiceOffline,
    PartitionNotFound,
    ServiceMetadataMismatch,
    ServiceAffinityChainNotSupported,
    WriteConflict,
    ApplicationUpgradeValidationError,
    ServiceTypeMismatch,
    ServiceTemplateNotFound,
    ServiceTypeAlreadyRegistered,
    ServiceTypeNotRegistered,
    ApplicationUpgradeInProgress,
    ApplicationUpdateInProgress,
    UpgradeDomainAlreadyCompleted,
    FabricVersionNotFound,
    FabricVersionInUse,
    FabricVersionAlreadyExists,
    FabricAlreadyInTargetVersion,
    FabricNotUpgrading,
    FabricUpgradeInProgress,
    FabricUpgradeValidationError,
    FabricHealthMaxReportsReached,
    FabricHealthStaleReport,
    FabricHealthEntityNotFound,
    ServiceTooBusy,
    CommunicationError,
    GatewayNotReachable,
    ObjectClosed,
    PropertyCheckFailed,
    EnumerationCompleted,
    ConfigurationSectionNotFound,
    ConfigurationParameterNotFound,
    InvalidConfiguration,
    ImageBuilderValidationError,
    ImageBuilderReservedDirectoryError,
    ReplicaDoesNotExist,
    ProcessDeactivated,
    ProcessAborted,
    InvalidAddress,
    InvalidNameUri,
    ValueTooLarge,
    DirectoryNotFound,
    PathTooLong,
    FileNotFound,
    NotReady,
    OperationTimedOut,
    OperationNotComplete,
    CodePackageNotFound,
    ConfigurationPackageNotFound,
    DataPackageNotFound,
    EndpointResourceNotFound,
    InvalidCredentialType,
    InvalidX509FindType,
    InvalidX509StoreLocation,
    InvalidX509StoreName,
    InvalidX509Thumbprint,
    InvalidProtectionLevel,
    InvalidX509Store,
    InvalidSubjectName,
    InvalidAllowedCommonNameList,
    InvalidCredentials,
    DecryptionFailed,
    EncryptionFailed,
    CorruptedImageStoreObjectFound,
    ImageBuilderUnexpectedError,
    ImageBuilderTimeoutError,
    ImageBuilderAccessDeniedError,
    ImageBuilderInvalidMsiFile,
    ImageStoreIOException,
    ImageStoreAcquireFileLockFailed,
    InvalidServiceType,
    ApplicationNotUpgrading,
    ApplicationAlreadyInTargetVersion,
    KeyTooLarge,
    KeyNotFound,
    SequenceNumberCheckFailed,
    TransactionNotActive,
    TransactionTooLarge,
    MultithreadedTransactionsNotAllowed,
    TransactionAborted,
    ReliableSessionTransportStartupFailure,
    ReliableSessionAlreadyExists,
    ReliableSessionCannotConnect,
    ReliableSessionManagerExists,
    ReliableSessionRejected,
    ReliableSessionNotFound,
    ReliableSessionQueueEmpty,
    ReliableSessionQuotaExceeded,
    ReliableSessionServiceFaulted,
    ReliableSessionManagerAlreadyListening,
    ReliableSessionManagerNotFound,
    ReliableSessionManagerNotListening,
    ReliableSessionInvalidTargetPartition,
    RepairTaskAlreadyExists,
    RepairTaskNotFound,
    InstanceIdMismatch,
    NodeHasNotStoppedYet,
    InsufficientClusterCapacity,
    ConstraintKeyUndefined,
    InvalidPackageSharingPolicy,
    PreDeploymentNotAllowed,
    InvalidBackupSetting,
    InvalidReplicaOperation,
    InvalidReplicaStateForReplicaOperation,
    MissingFullBackup,
    BackupInProgress,
    PLBNotReady,
    DuplicateServiceNotificationFilterName,
    InvalidPartitionOperation,
    AlreadyPrimaryReplica,
    AlreadySecondaryReplica,
    AlreadyInstance,
    AlreadyAuxiliaryReplica,
    BackupDirectoryNotEmpty,
    ForceNotSupportedForReplicaControlOperation,
    ConnectionDenied,
    ServerAuthenticationFailed,
    FabricCannotConnect,
    FabricConnectionClosedByRemoteEnd,
    FabricMessageTooLarge,
    ConstraintNotSatisfied,
    FabricEndpointNotFound,
    DuplicateWaitObject,
    EntryPointNotFound,
    DeleteBackupFileFailed,
    OperationCanceled,
    InvalidTestCommandState,
    TestCommandOperationIdAlreadyExists,
    ChaosAlreadyRunning,
    CMOperationFailed,
    FabricDataRootNotFound,
    InvalidRestoreData,
    DuplicateBackups,
    InvalidBackupChain,
    StopInProgress,
    AlreadyStopped,
    NodeIsDown,
    NodeTransitionInProgress,
    InvalidInstanceId,
    InvalidDuration,
    InvalidBackup,
    RestoreSafeCheckFailed,
    ConfigUpgradeFailed,
    UploadSessionRangeNotSatisfiable,
    UploadSessionIdConflict,
    InvalidPartitionSelector,
    InvalidReplicaSelector,
    DnsServiceNotFound,
    InvalidDnsName,
    DnsNameInUse,
    ComposeDeploymentAlreadyExists,
    ComposeDeploymentNotFound,
    InvalidForStatefulServices,
    InvalidForStatelessServices,
    OnlyValidForStatefulPersistentServices,
    InvalidUploadSessionId,
    BackupNotEnabled,
    BackupEnabled,
    BackupPolicyDoesNotExist,
    BackupPolicyAlreayExists,
    RestoreAlreadyInProgress,
    RestoreSourceTargetPartitionMismatch,
    FaultAnalysisServiceNotEnabled,
    ContainerNotFound,
    ObjectDisposed,
    NotReadable,
    InvalidOperation,
    SingleInstanceApplicationAlreadyExists,
    SingleInstanceApplicationNotFound,
    VolumeAlreadyExists,
    VolumeNotFound,
    InvalidServiceScalingPolicy,
    DatabaseMigrationInProgress,
    CentralSecretServiceGenericError,
    ComposeDeploymentNotUpgrading,
    SecretInvalid,
    SecretVersionAlreadyExists,
    SingleInstanceApplicationUpgradeInProgress,
    OperationNotSupported,
    NetworkNotFound,
    NetworkInUse,
    EndpointNotReferenced,
    CopyAborted,
    IncompatibleRunToCompletion,
    VersionStoreOutOfMemory,
    BackupNotFound,
    SkipRestoreOperation,
    StoreOutOfSessions,
    RestoreWaitingForUserIntervention,
    DatabaseFilesCorrupted,
    InsufficientMaxLoadCapacity,
    StoreDiskError,
    ServiceAlreadyInRequestedState,
    DisableEnableServiceFeatureDisabled,
    MaxAllowedDisabledServicesReached,
    ServiceDisabled,
    ServiceDisableInProgress,
    StoreOutOfLongValueIDs,
}

/// The numeric status code that each symbolic name stands for.
pub open spec fn spec_code_value(c: FabricErrorCode) -> u32 {
    match c {
        FabricErrorCode::Unknown => 0x0,
        FabricErrorCode::InvalidPartitionKey => 0x80071bbf,
        FabricErrorCode::UserRoleClientCertificateNotConfigured => 0x80071c4a,
        FabricErrorCode::NameAlreadyExists => 0x80071bc0,
        FabricErrorCode::ServiceAlreadyExists => 0x80071bcc,
        FabricErrorCode::ServiceGroupAlreadyExists => 0x80071be9,
        FabricErrorCode::ApplicationTypeProvisionInProgress => 0x80071bd8,
        FabricErrorCode::ApplicationTypeAlreadyExists => 0x80071bd9,
        FabricErrorCode::ApplicationAlreadyExists => 0x80071bdc,
        FabricErrorCode::NameNotFound => 0x80071bc1,
        FabricErrorCode::PropertyNotFound => 0x80071bc9,
        FabricErrorCode::PropertyValueEmpty => 0x80071bd4,
        FabricErrorCode::ServiceNotFound => 0x80071bcd,
        FabricErrorCode::AuxiliaryFeatureDisabled => 0x87b00005,
        FabricErrorCode::ServiceGroupNotFound => 0x80071bea,
        FabricErrorCode::ApplicationTypeNotFound => 0x80071bda,
        FabricErrorCode::ApplicationTypeInUse => 0x80071bdb,
        FabricErrorCode::ApplicationNotFound => 0x80071bdd,
        FabricErrorCode::ServiceTypeNotFound => 0x80071be0,
        FabricErrorCode::ServiceManifestNotFound => 0x80071c18,
        FabricErrorCode::NameNotEmpty => 0x80071bc2,
        FabricErrorCode::NodeNotFound => 0x80071bc3,
        FabricErrorCode::NodeTypeNotFound => 0x87b00001,
        FabricErrorCode::NodeIsUp => 0x80071bc4,
        FabricErrorCode::NotPrimary => 0x80071bc6,
        FabricErrorCode::NoWriteQuorum => 0x80071bc5,
        FabricErrorCode::ReconfigurationPending => 0x80071bca,
        FabricErrorCode::ReplicationQueueFull => 0x80071bcb,
        FabricErrorCode::ReplicationOperationTooLarge => 0x80071c2f,
        FabricErrorCode::InvalidAtomicGroup => 0x80071c16,
        FabricErrorCode::ServiceOffline => 0x80071bce,
        FabricErrorCode::PartitionNotFound => 0x80071be7,
        FabricErrorCode::ServiceMetadataMismatch => 0x80071bcf,
        FabricErrorCode::ServiceAffinityChainNotSupported => 0x80071bd0,
        FabricErrorCode::WriteConflict => 0x80071bd6,
        FabricErrorCode::ApplicationUpgradeValidationError => 0x80071bdf,
        FabricErrorCode::ServiceTypeMismatch => 0x80071be1,
        FabricErrorCode::ServiceTemplateNotFound => 0x80071be2,
        FabricErrorCode::ServiceTypeAlreadyRegistered => 0x80071bd1,
        FabricErrorCode::ServiceTypeNotRegistered => 0x80071bd2,
        FabricErrorCode::ApplicationUpgradeInProgress => 0x80071bde,
        FabricErrorCode::ApplicationUpdateInProgress => 0x80071c50,
        FabricErrorCode::UpgradeDomainAlreadyCompleted => 0x80071c31,
        FabricErrorCode::FabricVersionNotFound => 0x80071c09,
        FabricErrorCode::FabricVersionInUse => 0x80071c0a,
        FabricErrorCode::FabricVersionAlreadyExists => 0x80071c0b,
        FabricErrorCode::FabricAlreadyInTargetVersion => 0x80071c0c,
        FabricErrorCode::FabricNotUpgrading => 0x80071c0d,
        FabricErrorCode::FabricUpgradeInProgress => 0x80071c0e,
        FabricErrorCode::FabricUpgradeValidationError => 0x80071c0f,
        FabricErrorCode::FabricHealthMaxReportsReached => 0x80071c10,
        FabricErrorCode::FabricHealthStaleReport => 0x80071c11,
        FabricErrorCode::FabricHealthEntityNotFound => 0x80071c17,
        FabricErrorCode::ServiceTooBusy => 0x80071c25,
        FabricErrorCode::CommunicationError => 0x80071bbc,
        FabricErrorCode::GatewayNotReachable => 0x80071c49,
        FabricErrorCode::ObjectClosed => 0x80071bfe,
        FabricErrorCode::PropertyCheckFailed => 0x80071bd5,
        FabricErrorCode::EnumerationCompleted => 0x80071bd7,
        FabricErrorCode::ConfigurationSectionNotFound => 0x80071be3,
        FabricErrorCode::ConfigurationParameterNotFound => 0x80071be4,
        FabricErrorCode::InvalidConfiguration => 0x80071be5,
        FabricErrorCode::ImageBuilderValidationError => 0x80071be6,
        FabricErrorCode::ImageBuilderReservedDirectoryError => 0x80071c56,
        FabricErrorCode::ReplicaDoesNotExist => 0x80071be8,
        FabricErrorCode::ProcessDeactivated => 0x80071beb,
        FabricErrorCode::ProcessAborted => 0x80071bec,
        FabricErrorCode::InvalidAddress => 0x80071bbd,
        FabricErrorCode::InvalidNameUri => 0x80071bbe,
        FabricErrorCode::ValueTooLarge => 0x80071bd3,
        FabricErrorCode::DirectoryNotFound => 0x80071c01,
        FabricErrorCode::PathTooLong => 0x80071c03,
        FabricErrorCode::FileNotFound => 0x80071c00,
        FabricErrorCode::NotReady => 0x80071bc7,
        FabricErrorCode::OperationTimedOut => 0x80071bff,
        FabricErrorCode::OperationNotComplete => 0x80071bc8,
        FabricErrorCode::CodePackageNotFound => 0x80071bfb,
        FabricErrorCode::ConfigurationPackageNotFound => 0x80071bf9,
        FabricErrorCode::DataPackageNotFound => 0x80071bfa,
        FabricErrorCode::EndpointResourceNotFound => 0x80071bfc,
        FabricErrorCode::InvalidCredentialType => 0x80071bee,
        FabricErrorCode::InvalidX509FindType => 0x80071bef,
        FabricErrorCode::InvalidX509StoreLocation => 0x80071bf0,
        FabricErrorCode::InvalidX509StoreName => 0x80071bf1,
        FabricErrorCode::InvalidX509Thumbprint => 0x80071bf2,
        FabricErrorCode::InvalidProtectionLevel => 0x80071bf3,
        FabricErrorCode::InvalidX509Store => 0x80071bf4,
        FabricErrorCode::InvalidSubjectName => 0x80071bf5,
        FabricErrorCode::InvalidAllowedCommonNameList => 0x80071bf6,
        FabricErrorCode::InvalidCredentials => 0x80071bf7,
        FabricErrorCode::DecryptionFailed => 0x80071bf8,
        FabricErrorCode::EncryptionFailed => 0x80071c15,
        FabricErrorCode::CorruptedImageStoreObjectFound => 0x80071c05,
        FabricErrorCode::ImageBuilderUnexpectedError => 0x80071c08,
        FabricErrorCode::ImageBuilderTimeoutError => 0x80071c22,
        FabricErrorCode::ImageBuilderAccessDeniedError => 0x80071c23,
        FabricErrorCode::ImageBuilderInvalidMsiFile => 0x80071c24,
        FabricErrorCode::ImageStoreIOException => 0x80071c04,
        FabricErrorCode::ImageStoreAcquireFileLockFailed => 0x80071c42,
        FabricErrorCode::InvalidServiceType => 0x80071c21,
        FabricErrorCode::ApplicationNotUpgrading => 0x80071c06,
        FabricErrorCode::ApplicationAlreadyInTargetVersion => 0x80071c07,
        FabricErrorCode::KeyTooLarge => 0x80071c12,
        FabricErrorCode::KeyNotFound => 0x80071c13,
        FabricErrorCode::SequenceNumberCheckFailed => 0x80071c14,
        FabricErrorCode::TransactionNotActive => 0x80071c26,
        FabricErrorCode::TransactionTooLarge => 0x80071c2e,
        FabricErrorCode::MultithreadedTransactionsNotAllowed => 0x80071c46,
        FabricErrorCode::TransactionAborted => 0x80071c4b,
        FabricErrorCode::ReliableSessionTransportStartupFailure => 0x80071c19,
        FabricErrorCode::ReliableSessionAlreadyExists => 0x80071c1a,
        FabricErrorCode::ReliableSessionCannotConnect => 0x80071c1b,
        FabricErrorCode::ReliableSessionManagerExists => 0x80071c1c,
        FabricErrorCode::ReliableSessionRejected => 0x80071c1d,
        FabricErrorCode::ReliableSessionNotFound => 0x80071c29,
        FabricErrorCode::ReliableSessionQueueEmpty => 0x80071c2a,
        FabricErrorCode::ReliableSessionQuotaExceeded => 0x80071c2b,
        FabricErrorCode::ReliableSessionServiceFaulted => 0x80071c2c,
        FabricErrorCode::ReliableSessionManagerAlreadyListening => 0x80071c1e,
        FabricErrorCode::ReliableSessionManagerNotFound => 0x80071c1f,
        FabricErrorCode::ReliableSessionManagerNotListening => 0x80071c20,
        FabricErrorCode::ReliableSessionInvalidTargetPartition => 0x80071c2d,
        FabricErrorCode::RepairTaskAlreadyExists => 0x80071c27,
        FabricErrorCode::RepairTaskNotFound => 0x80071c28,
        FabricErrorCode::InstanceIdMismatch => 0x80071c30,
        FabricErrorCode::NodeHasNotStoppedYet => 0x80071c32,
        FabricErrorCode::InsufficientClusterCapacity => 0x80071c33,
        FabricErrorCode::ConstraintKeyUndefined => 0x80071c45,
        FabricErrorCode::InvalidPackageSharingPolicy => 0x80071c34,
        FabricErrorCode::PreDeploymentNotAllowed => 0x80071c35,
        FabricErrorCode::InvalidBackupSetting => 0x80071c36,
        FabricErrorCode::InvalidReplicaOperation => 0x80071c3a,
        FabricErrorCode::InvalidReplicaStateForReplicaOperation => 0x80071c3b,
        FabricErrorCode::MissingFullBackup => 0x80071c37,
        FabricErrorCode::BackupInProgress => 0x80071c38,
        FabricErrorCode::PLBNotReady => 0x80071c3c,
        FabricErrorCode::DuplicateServiceNotificationFilterName => 0x80071c39,
        FabricErrorCode::InvalidPartitionOperation => 0x80071c3d,
        FabricErrorCode::AlreadyPrimaryReplica => 0x80071c3e,
        FabricErrorCode::AlreadySecondaryReplica => 0x80071c3f,
        FabricErrorCode::AlreadyInstance => 0x87b00000,
        FabricErrorCode::AlreadyAuxiliaryReplica => 0x87b00004,
        FabricErrorCode::BackupDirectoryNotEmpty => 0x80071c40,
        FabricErrorCode::ForceNotSupportedForReplicaControlOperation => 0x80071c41,
        FabricErrorCode::ConnectionDenied => 0x80071c43,
        FabricErrorCode::ServerAuthenticationFailed => 0x80071c44,
        FabricErrorCode::FabricCannotConnect => 0x80071c4c,
        FabricErrorCode::FabricConnectionClosedByRemoteEnd => 0x80071c52,
        FabricErrorCode::FabricMessageTooLarge => 0x80071c4d,
        FabricErrorCode::ConstraintNotSatisfied => 0x80071c4e,
        FabricErrorCode::FabricEndpointNotFound => 0x80071c4f,
        FabricErrorCode::DuplicateWaitObject => 0x80131529,
        FabricErrorCode::EntryPointNotFound => 0x80131522,
        FabricErrorCode::DeleteBackupFileFailed => 0x80071c51,
        FabricErrorCode::OperationCanceled => 0x80004004,
        FabricErrorCode::InvalidTestCommandState => 0x80071c53,
        FabricErrorCode::TestCommandOperationIdAlreadyExists => 0x80071c54,
        FabricErrorCode::ChaosAlreadyRunning => 0x80071c58,
        FabricErrorCode::CMOperationFailed => 0x80071c55,
        FabricErrorCode::FabricDataRootNotFound => 0x80071c59,
        FabricErrorCode::InvalidRestoreData => 0x80071c5a,
        FabricErrorCode::DuplicateBackups => 0x80071c5b,
        FabricErrorCode::InvalidBackupChain => 0x80071c5c,
        FabricErrorCode::StopInProgress => 0x80071c5d,
        FabricErrorCode::AlreadyStopped => 0x80071c5e,
        FabricErrorCode::NodeIsDown => 0x80071c5f,
        FabricErrorCode::NodeTransitionInProgress => 0x80071c60,
        FabricErrorCode::InvalidInstanceId => 0x80071c62,
        FabricErrorCode::InvalidDuration => 0x80071c63,
        FabricErrorCode::InvalidBackup => 0x80071c61,
        FabricErrorCode::RestoreSafeCheckFailed => 0x80071c64,
        FabricErrorCode::ConfigUpgradeFailed => 0x80071c65,
        FabricErrorCode::UploadSessionRangeNotSatisfiable => 0x80071c66,
        FabricErrorCode::UploadSessionIdConflict => 0x80071c67,
        FabricErrorCode::InvalidPartitionSelector => 0x80071c68,
        FabricErrorCode::InvalidReplicaSelector => 0x80071c69,
        FabricErrorCode::DnsServiceNotFound => 0x80071c6a,
        FabricErrorCode::InvalidDnsName => 0x80071c6b,
        FabricErrorCode::DnsNameInUse => 0x80071c6c,
        FabricErrorCode::ComposeDeploymentAlreadyExists => 0x80071c6d,
        FabricErrorCode::ComposeDeploymentNotFound => 0x80071c6e,
        FabricErrorCode::InvalidForStatefulServices => 0x80071c6f,
        FabricErrorCode::InvalidForStatelessServices => 0x80071c70,
        FabricErrorCode::OnlyValidForStatefulPersistentServices => 0x80071c71,
        FabricErrorCode::InvalidUploadSessionId => 0x80071c72,
        FabricErrorCode::BackupNotEnabled => 0x80071c73,
        FabricErrorCode::BackupEnabled => 0x80071c74,
        FabricErrorCode::BackupPolicyDoesNotExist => 0x80071c75,
        FabricErrorCode::BackupPolicyAlreayExists => 0x80071c76,
        FabricErrorCode::RestoreAlreadyInProgress => 0x80071c77,
        FabricErrorCode::RestoreSourceTargetPartitionMismatch => 0x80071c78,
        FabricErrorCode::FaultAnalysisServiceNotEnabled => 0x80071c79,
        FabricErrorCode::ContainerNotFound => 0x80071c7a,
        FabricErrorCode::ObjectDisposed => 0x80071c7b,
        FabricErrorCode::NotReadable => 0x80071c7c,
        FabricErrorCode::InvalidOperation => 0x80071bfd,
        FabricErrorCode::SingleInstanceApplicationAlreadyExists => 0x80071c81,
        FabricErrorCode::SingleInstanceApplicationNotFound => 0x80071c82,
        FabricErrorCode::VolumeAlreadyExists => 0x80071c83,
        FabricErrorCode::VolumeNotFound => 0x80071c84,
        FabricErrorCode::InvalidServiceScalingPolicy => 0x80071c80,
        FabricErrorCode::DatabaseMigrationInProgress => 0x80071c85,
        FabricErrorCode::CentralSecretServiceGenericError => 0x80071c86,
        FabricErrorCode::ComposeDeploymentNotUpgrading => 0x80071c8b,
        FabricErrorCode::SecretInvalid => 0x80071c87,
        FabricErrorCode::SecretVersionAlreadyExists => 0x80071c88,
        FabricErrorCode::SingleInstanceApplicationUpgradeInProgress => 0x80071c89,
        FabricErrorCode::OperationNotSupported => 0x80071c8a,
        FabricErrorCode::NetworkNotFound => 0x80071c8d,
        FabricErrorCode::NetworkInUse => 0x80071c8e,
        FabricErrorCode::EndpointNotReferenced => 0x80071c8f,
        FabricErrorCode::CopyAborted => 0x87b00003,
        FabricErrorCode::IncompatibleRunToCompletion => 0x87b00006,
        FabricErrorCode::VersionStoreOutOfMemory => 0x87b00007,
        FabricErrorCode::BackupNotFound => 0x87b00008,
        FabricErrorCode::SkipRestoreOperation => 0x87b00009,
        FabricErrorCode::StoreOutOfSessions => 0x87b0000a,
        FabricErrorCode::RestoreWaitingForUserIntervention => 0x87b0000b,
        FabricErrorCode::DatabaseFilesCorrupted => 0x87b0000c,
        FabricErrorCode::InsufficientMaxLoadCapacity => 0x87b0000d,
        FabricErrorCode::StoreDiskError => 0x87b0000e,
        FabricErrorCode::ServiceAlreadyInRequestedState => 0x87b0000f,
        FabricErrorCode::DisableEnableServiceFeatureDisabled => 0x87b00010,
        FabricErrorCode::MaxAllowedDisabledServicesReached => 0x87b00011,
        FabricErrorCode::ServiceDisabled => 0x87b00012,
        FabricErrorCode::ServiceDisableInProgress => 0x87b00013,
        FabricErrorCode::StoreOutOfLongValueIDs => 0x87b00014,
    }
}

/// The symbolic name of a raw status code, if the table knows it.
pub open spec fn spec_code_from_u32(v: u32) -> Option<FabricErrorCode> {
    match v {
        0x0u32 => Some(FabricErrorCode::Unknown),
        0x80071bbfu32 => Some(FabricErrorCode::InvalidPartitionKey),
        0x80071c4au32 => Some(FabricErrorCode::UserRoleClientCertificateNotConfigured),
        0x80071bc0u32 => Some(FabricErrorCode::NameAlreadyExists),
        0x80071bccu32 => Some(FabricErrorCode::ServiceAlreadyExists),
        0x80071be9u32 => Some(FabricErrorCode::ServiceGroupAlreadyExists),
        0x80071bd8u32 => Some(FabricErrorCode::ApplicationTypeProvisionInProgress),
        0x80071bd9u32 => Some(FabricErrorCode::ApplicationTypeAlreadyExists),
        0x80071bdcu32 => Some(FabricErrorCode::ApplicationAlreadyExists),
        0x80071bc1u32 => Some(FabricErrorCode::NameNotFound),
        0x80071bc9u32 => Some(FabricErrorCode::PropertyNotFound),
        0x80071bd4u32 => Some(FabricErrorCode::PropertyValueEmpty),
        0x80071bcdu32 => Some(FabricErrorCode::ServiceNotFound),
        0x87b00005u32 => Some(FabricErrorCode::AuxiliaryFeatureDisabled),
        0x80071beau32 => Some(FabricErrorCode::ServiceGroupNotFound),
        0x80071bdau32 => Some(FabricErrorCode::ApplicationTypeNotFound),
        0x80071bdbu32 => Some(FabricErrorCode::ApplicationTypeInUse),
        0x80071bddu32 => Some(FabricErrorCode::ApplicationNotFound),
        0x80071be0u32 => Some(FabricErrorCode::ServiceTypeNotFound),
        0x80071c18u32 => Some(FabricErrorCode::ServiceManifestNotFound),
        0x80071bc2u32 => Some(FabricErrorCode::NameNotEmpty),
        0x80071bc3u32 => Some(FabricErrorCode::NodeNotFound),
        0x87b00001u32 => Some(FabricErrorCode::NodeTypeNotFound),
        0x80071bc4u32 => Some(FabricErrorCode::NodeIsUp),
        0x80071bc6u32 => Some(FabricErrorCode::NotPrimary),
        0x80071bc5u32 => Some(FabricErrorCode::NoWriteQuorum),
        0x80071bcau32 => Some(FabricErrorCode::ReconfigurationPending),
        0x80071bcbu32 => Some(FabricErrorCode::ReplicationQueueFull),
        0x80071c2fu32 => Some(FabricErrorCode::ReplicationOperationTooLarge),
        0x80071c16u32 => Some(FabricErrorCode::InvalidAtomicGroup),
        0x80071bceu32 => Some(FabricErrorCode::ServiceOffline),
        0x80071be7u32 => Some(FabricErrorCode::PartitionNotFound),
        0x80071bcfu32 => Some(FabricErrorCode::ServiceMetadataMismatch),
        0x80071bd0u32 => Some(FabricErrorCode::ServiceAffinityChainNotSupported),
        0x80071bd6u32 => Some(FabricErrorCode::WriteConflict),
        0x80071bdfu32 => Some(FabricErrorCode::ApplicationUpgradeValidationError),
        0x80071be1u32 => Some(FabricErrorCode::ServiceTypeMismatch),
        0x80071be2u32 => Some(FabricErrorCode::ServiceTemplateNotFound),
        0x80071bd1u32 => Some(FabricErrorCode::ServiceTypeAlreadyRegistered),
        0x80071bd2u32 => Some(FabricErrorCode::ServiceTypeNotRegistered),
        0x80071bdeu32 => Some(FabricErrorCode::ApplicationUpgradeInProgress),
        0x80071c50u32 => Some(FabricErrorCode::ApplicationUpdateInProgress),
        0x80071c31u32 => Some(FabricErrorCode::UpgradeDomainAlreadyCompleted),
        0x80071c09u32 => Some(FabricErrorCode::FabricVersionNotFound),
        0x80071c0au32 => Some(FabricErrorCode::FabricVersionInUse),
        0x80071c0bu32 => Some(FabricErrorCode::FabricVersionAlreadyExists),
        0x80071c0cu32 => Some(FabricErrorCode::FabricAlreadyInTargetVersion),
        0x80071c0du32 => Some(FabricErrorCode::FabricNotUpgrading),
        0x80071c0eu32 => Some(FabricErrorCode::FabricUpgradeInProgress),
        0x80071c0fu32 => Some(FabricErrorCode::FabricUpgradeValidationError),
        0x80071c10u32 => Some(FabricErrorCode::FabricHealthMaxReportsReached),
        0x80071c11u32 => Some(FabricErrorCode::FabricHealthStaleReport),
        0x80071c17u32 => Some(FabricErrorCode::FabricHealthEntityNotFound),
        0x80071c25u32 => Some(FabricErrorCode::ServiceTooBusy),
        0x80071bbcu32 => Some(FabricErrorCode::CommunicationError),
        0x80071c49u32 => Some(FabricErrorCode::GatewayNotReachable),
        0x80071bfeu32 => Some(FabricErrorCode::ObjectClosed),
        0x80071bd5u32 => Some(FabricErrorCode::PropertyCheckFailed),
        0x80071bd7u32 => Some(FabricErrorCode::EnumerationCompleted),
        0x80071be3u32 => Some(FabricErrorCode::ConfigurationSectionNotFound),
        0x80071be4u32 => Some(FabricErrorCode::ConfigurationParameterNotFound),
        0x80071be5u32 => Some(FabricErrorCode::InvalidConfiguration),
        0x80071be6u32 => Some(FabricErrorCode::ImageBuilderValidationError),
        0x80071c56u32 => Some(FabricErrorCode::ImageBuilderReservedDirectoryError),
        0x80071be8u32 => Some(FabricErrorCode::ReplicaDoesNotExist),
        0x80071bebu32 => Some(FabricErrorCode::ProcessDeactivated),
        0x80071becu32 => Some(FabricErrorCode::ProcessAborted),
        0x80071bbdu32 => Some(FabricErrorCode::InvalidAddress),
        0x80071bbeu32 => Some(FabricErrorCode::InvalidNameUri),
        0x80071bd3u32 => Some(FabricErrorCode::ValueTooLarge),
        0x80071c01u32 => Some(FabricErrorCode::DirectoryNotFound),
        0x80071c03u32 => Some(FabricErrorCode::PathTooLong),
        0x80071c00u32 => Some(FabricErrorCode::FileNotFound),
        0x80071bc7u32 => Some(FabricErrorCode::NotReady),
        0x80071bffu32 => Some(FabricErrorCode::OperationTimedOut),
        0x80071bc8u32 => Some(FabricErrorCode::OperationNotComplete),
        0x80071bfbu32 => Some(FabricErrorCode::CodePackageNotFound),
        0x80071bf9u32 => Some(FabricErrorCode::ConfigurationPackageNotFound),
        0x80071bfau32 => Some(FabricErrorCode::DataPackageNotFound),
        0x80071bfcu32 => Some(FabricErrorCode::EndpointResourceNotFound),
        0x80071beeu32 => Some(FabricErrorCode::InvalidCredentialType),
        0x80071befu32 => Some(FabricErrorCode::InvalidX509FindType),
        0x80071bf0u32 => Some(FabricErrorCode::InvalidX509StoreLocation),
        0x80071bf1u32 => Some(FabricErrorCode::InvalidX509StoreName),
        0x80071bf2u32 => Some(FabricErrorCode::InvalidX509Thumbprint),
        0x80071bf3u32 => Some(FabricErrorCode::InvalidProtectionLevel),
        0x80071bf4u32 => Some(FabricErrorCode::InvalidX509Store),
        0x80071bf5u32 => Some(FabricErrorCode::InvalidSubjectName),
        0x80071bf6u32 => Some(FabricErrorCode::InvalidAllowedCommonNameList),
        0x80071bf7u32 => Some(FabricErrorCode::InvalidCredentials),
        0x80071bf8u32 => Some(FabricErrorCode::DecryptionFailed),
        0x80071c15u32 => Some(FabricErrorCode::EncryptionFailed),
        0x80071c05u32 => Some(FabricErrorCode::CorruptedImageStoreObjectFound),
        0x80071c08u32 => Some(FabricErrorCode::ImageBuilderUnexpectedError),
        0x80071c22u32 => Some(FabricErrorCode::ImageBuilderTimeoutError),
        0x80071c23u32 => Some(FabricErrorCode::ImageBuilderAccessDeniedError),
        0x80071c24u32 => Some(FabricErrorCode::ImageBuilderInvalidMsiFile),
        0x80071c04u32 => Some(FabricErrorCode::ImageStoreIOException),
        0x80071c42u32 => Some(FabricErrorCode::ImageStoreAcquireFileLockFailed),
        0x80071c21u32 => Some(FabricErrorCode::InvalidServiceType),
        0x80071c06u32 => Some(FabricErrorCode::ApplicationNotUpgrading),
        0x80071c07u32 => Some(FabricErrorCode::ApplicationAlreadyInTargetVersion),
        0x80071c12u32 => Some(FabricErrorCode::KeyTooLarge),
        0x80071c13u32 => Some(FabricErrorCode::KeyNotFound),
        0x80071c14u32 => Some(FabricErrorCode::SequenceNumberCheckFailed),
        0x80071c26u32 => Some(FabricErrorCode::TransactionNotActive),
        0x80071c2eu32 => Some(FabricErrorCode::TransactionTooLarge),
        0x80071c46u32 => Some(FabricErrorCode::MultithreadedTransactionsNotAllowed),
        0x80071c4bu32 => Some(FabricErrorCode::TransactionAborted),
        0x80071c19u32 => Some(FabricErrorCode::ReliableSessionTransportStartupFailure),
        0x80071c1au32 => Some(FabricErrorCode::ReliableSessionAlreadyExists),
        0x80071c1bu32 => Some(FabricErrorCode::ReliableSessionCannotConnect),
        0x80071c1cu32 => Some(FabricErrorCode::ReliableSessionManagerExists),
        0x80071c1du32 => Some(FabricErrorCode::ReliableSessionRejected),
        0x80071c29u32 => Some(FabricErrorCode::ReliableSessionNotFound),
        0x80071c2au32 => Some(FabricErrorCode::ReliableSessionQueueEmpty),
        0x80071c2bu32 => Some(FabricErrorCode::ReliableSessionQuotaExceeded),
        0x80071c2cu32 => Some(FabricErrorCode::ReliableSessionServiceFaulted),
        0x80071c1eu32 => Some(FabricErrorCode::ReliableSessionManagerAlreadyListening),
        0x80071c1fu32 => Some(FabricErrorCode::ReliableSessionManagerNotFound),
        0x80071c20u32 => Some(FabricErrorCode::ReliableSessionManagerNotListening),
        0x80071c2du32 => Some(FabricErrorCode::ReliableSessionInvalidTargetPartition),
        0x80071c27u32 => Some(FabricErrorCode::RepairTaskAlreadyExists),
        0x80071c28u32 => Some(FabricErrorCode::RepairTaskNotFound),
        0x80071c30u32 => Some(FabricErrorCode::InstanceIdMismatch),
        0x80071c32u32 => Some(FabricErrorCode::NodeHasNotStoppedYet),
        0x80071c33u32 => Some(FabricErrorCode::InsufficientClusterCapacity),
        0x80071c45u32 => Some(FabricErrorCode::ConstraintKeyUndefined),
        0x80071c34u32 => Some(FabricErrorCode::InvalidPackageSharingPolicy),
        0x80071c35u32 => Some(FabricErrorCode::PreDeploymentNotAllowed),
        0x80071c36u32 => Some(FabricErrorCode::InvalidBackupSetting),
        0x80071c3au32 => Some(FabricErrorCode::InvalidReplicaOperation),
        0x80071c3bu32 => Some(FabricErrorCode::InvalidReplicaStateForReplicaOperation),
        0x80071c37u32 => Some(FabricErrorCode::MissingFullBackup),
        0x80071c38u32 => Some(FabricErrorCode::BackupInProgress),
        0x80071c3cu32 => Some(FabricErrorCode::PLBNotReady),
        0x80071c39u32 => Some(FabricErrorCode::DuplicateServiceNotificationFilterName),
        0x80071c3du32 => Some(FabricErrorCode::InvalidPartitionOperation),
        0x80071c3eu32 => Some(FabricErrorCode::AlreadyPrimaryReplica),
        0x80071c3fu32 => Some(FabricErrorCode::AlreadySecondaryReplica),
        0x87b00000u32 => Some(FabricErrorCode::AlreadyInstance),
        0x87b00004u32 => Some(FabricErrorCode::AlreadyAuxiliaryReplica),
        0x80071c40u32 => Some(FabricErrorCode::BackupDirectoryNotEmpty),
        0x80071c41u32 => Some(FabricErrorCode::ForceNotSupportedForReplicaControlOperation),
        0x80071c43u32 => Some(FabricErrorCode::ConnectionDenied),
        0x80071c44u32 => Some(FabricErrorCode::ServerAuthenticationFailed),
        0x80071c4cu32 => Some(FabricErrorCode::FabricCannotConnect),
        0x80071c52u32 => Some(FabricErrorCode::FabricConnectionClosedByRemoteEnd),
        0x80071c4du32 => Some(FabricErrorCode::FabricMessageTooLarge),
        0x80071c4eu32 => Some(FabricErrorCode::ConstraintNotSatisfied),
        0x80071c4fu32 => Some(FabricErrorCode::FabricEndpointNotFound),
        0x80131529u32 => Some(FabricErrorCode::DuplicateWaitObject),
        0x80131522u32 => Some(FabricErrorCode::EntryPointNotFound),
        0x80071c51u32 => Some(FabricErrorCode::DeleteBackupFileFailed),
        0x80004004u32 => Some(FabricErrorCode::OperationCanceled),
        0x80071c53u32 => Some(FabricErrorCode::InvalidTestCommandState),
        0x80071c54u32 => Some(FabricErrorCode::TestCommandOperationIdAlreadyExists),
        0x80071c58u32 => Some(FabricErrorCode::ChaosAlreadyRunning),
        0x80071c55u32 => Some(FabricErrorCode::CMOperationFailed),
        0x80071c59u32 => Some(FabricErrorCode::FabricDataRootNotFound),
        0x80071c5au32 => Some(FabricErrorCode::InvalidRestoreData),
        0x80071c5bu32 => Some(FabricErrorCode::DuplicateBackups),
        0x80071c5cu32 => Some(FabricErrorCode::InvalidBackupChain),
        0x80071c5du32 => Some(FabricErrorCode::StopInProgress),
        0x80071c5eu32 => Some(FabricErrorCode::AlreadyStopped),
        0x80071c5fu32 => Some(FabricErrorCode::NodeIsDown),
        0x80071c60u32 => Some(FabricErrorCode::NodeTransitionInProgress),
        0x80071c62u32 => Some(FabricErrorCode::InvalidInstanceId),
        0x80071c63u32 => Some(FabricErrorCode::InvalidDuration),
        0x80071c61u32 => Some(FabricErrorCode::InvalidBackup),
        0x80071c64u32 => Some(FabricErrorCode::RestoreSafeCheckFailed),
        0x80071c65u32 => Some(FabricErrorCode::ConfigUpgradeFailed),
        0x80071c66u32 => Some(FabricErrorCode::UploadSessionRangeNotSatisfiable),
        0x80071c67u32 => Some(FabricErrorCode::UploadSessionIdConflict),
        0x80071c68u32 => Some(FabricErrorCode::InvalidPartitionSelector),
        0x80071c69u32 => Some(FabricErrorCode::InvalidReplicaSelector),
        0x80071c6au32 => Some(FabricErrorCode::DnsServiceNotFound),
        0x80071c6bu32 => Some(FabricErrorCode::InvalidDnsName),
        0x80071c6cu32 => Some(FabricErrorCode::DnsNameInUse),
        0x80071c6du32 => Some(FabricErrorCode::ComposeDeploymentAlreadyExists),
        0x80071c6eu32 => Some(FabricErrorCode::ComposeDeploymentNotFound),
        0x80071c6fu32 => Some(FabricErrorCode::InvalidForStatefulServices),
        0x80071c70u32 => Some(FabricErrorCode::InvalidForStatelessServices),
        0x80071c71u32 => Some(FabricErrorCode::OnlyValidForStatefulPersistentServices),
        0x80071c72u32 => Some(FabricErrorCode::InvalidUploadSessionId),
        0x80071c73u32 => Some(FabricErrorCode::BackupNotEnabled),
        0x80071c74u32 => Some(FabricErrorCode::BackupEnabled),
        0x80071c75u32 => Some(FabricErrorCode::BackupPolicyDoesNotExist),
        0x80071c76u32 => Some(FabricErrorCode::BackupPolicyAlreayExists),
        0x80071c77u32 => Some(FabricErrorCode::RestoreAlreadyInProgress),
        0x80071c78u32 => Some(FabricErrorCode::RestoreSourceTargetPartitionMismatch),
        0x80071c79u32 => Some(FabricErrorCode::FaultAnalysisServiceNotEnabled),
        0x80071c7au32 => Some(FabricErrorCode::ContainerNotFound),
        0x80071c7bu32 => Some(FabricErrorCode::ObjectDisposed),
        0x80071c7cu32 => Some(FabricErrorCode::NotReadable),
        0x80071bfdu32 => Some(FabricErrorCode::InvalidOperation),
        0x80071c81u32 => Some(FabricErrorCode::SingleInstanceApplicationAlreadyExists),
        0x80071c82u32 => Some(FabricErrorCode::SingleInstanceApplicationNotFound),
        0x80071c83u32 => Some(FabricErrorCode::VolumeAlreadyExists),
        0x80071c84u32 => Some(FabricErrorCode::VolumeNotFound),
        0x80071c80u32 => Some(FabricErrorCode::InvalidServiceScalingPolicy),
        0x80071c85u32 => Some(FabricErrorCode::DatabaseMigrationInProgress),
        0x80071c86u32 => Some(FabricErrorCode::CentralSecretServiceGenericError),
        0x80071c8bu32 => Some(FabricErrorCode::ComposeDeploymentNotUpgrading),
        0x80071c87u32 => Some(FabricErrorCode::SecretInvalid),
        0x80071c88u32 => Some(FabricErrorCode::SecretVersionAlreadyExists),
        0x80071c89u32 => Some(FabricErrorCode::SingleInstanceApplicationUpgradeInProgress),
        0x80071c8au32 => Some(FabricErrorCode::OperationNotSupported),
        0x80071c8du32 => Some(FabricErrorCode::NetworkNotFound),
        0x80071c8eu32 => Some(FabricErrorCode::NetworkInUse),
        0x80071c8fu32 => Some(FabricErrorCode::EndpointNotReferenced),
        0x87b00003u32 => Some(FabricErrorCode::CopyAborted),
        0x87b00006u32 => Some(FabricErrorCode::IncompatibleRunToCompletion),
        0x87b00007u32 => Some(FabricErrorCode::VersionStoreOutOfMemory),
        0x87b00008u32 => Some(FabricErrorCode::BackupNotFound),
        0x87b00009u32 => Some(FabricErrorCode::SkipRestoreOperation),
        0x87b0000au32 => Some(FabricErrorCode::StoreOutOfSessions),
        0x87b0000bu32 => Some(FabricErrorCode::RestoreWaitingForUserIntervention),
        0x87b0000cu32 => Some(FabricErrorCode::DatabaseFilesCorrupted),
        0x87b0000du32 => Some(FabricErrorCode::InsufficientMaxLoadCapacity),
        0x87b0000eu32 => Some(FabricErrorCode::StoreDiskError),
        0x87b0000fu32 => Some(FabricErrorCode::ServiceAlreadyInRequestedState),
        0x87b00010u32 => Some(FabricErrorCode::DisableEnableServiceFeatureDisabled),
        0x87b00011u32 => Some(FabricErrorCode::MaxAllowedDisabledServicesReached),
        0x87b00012u32 => Some(FabricErrorCode::ServiceDisabled),
        0x87b00013u32 => Some(FabricErrorCode::ServiceDisableInProgress),
        0x87b00014u32 => Some(FabricErrorCode::StoreOutOfLongValueIDs),
        _ => None,
    }
}

impl FabricErrorCode {
    /// The numeric status code this symbolic name stands for.
    pub fn code_value(self) -> (r: u32)
        ensures
            r == spec_code_value(self),
    {
        match self {
            FabricErrorCode::Unknown => 0x0,
            FabricErrorCode::InvalidPartitionKey => 0x80071bbf,
            FabricErrorCode::UserRoleClientCertificateNotConfigured => 0x80071c4a,
            FabricErrorCode::NameAlreadyExists => 0x80071bc0,
            FabricErrorCode::ServiceAlreadyExists => 0x80071bcc,
            FabricErrorCode::ServiceGroupAlreadyExists => 0x80071be9,
            FabricErrorCode::ApplicationTypeProvisionInProgress => 0x80071bd8,
            FabricErrorCode::ApplicationTypeAlreadyExists => 0x80071bd9,
            FabricErrorCode::ApplicationAlreadyExists => 0x80071bdc,
            FabricErrorCode::NameNotFound => 0x80071bc1,
            FabricErrorCode::PropertyNotFound => 0x80071bc9,
            FabricErrorCode::PropertyValueEmpty => 0x80071bd4,
            FabricErrorCode::ServiceNotFound => 0x80071bcd,
            FabricErrorCode::AuxiliaryFeatureDisabled => 0x87b00005,
            FabricErrorCode::ServiceGroupNotFound => 0x80071bea,
            FabricErrorCode::ApplicationTypeNotFound => 0x80071bda,
            FabricErrorCode::ApplicationTypeInUse => 0x80071bdb,
            FabricErrorCode::ApplicationNotFound => 0x80071bdd,
            FabricErrorCode::ServiceTypeNotFound => 0x80071be0,
            FabricErrorCode::ServiceManifestNotFound => 0x80071c18,
            FabricErrorCode::NameNotEmpty => 0x80071bc2,
            FabricErrorCode::NodeNotFound => 0x80071bc3,
            FabricErrorCode::NodeTypeNotFound => 0x87b00001,
            FabricErrorCode::NodeIsUp => 0x80071bc4,
            FabricErrorCode::NotPrimary => 0x80071bc6,
            FabricErrorCode::NoWriteQuorum => 0x80071bc5,
            FabricErrorCode::ReconfigurationPending => 0x80071bca,
            FabricErrorCode::ReplicationQueueFull => 0x80071bcb,
            FabricErrorCode::ReplicationOperationTooLarge => 0x80071c2f,
            FabricErrorCode::InvalidAtomicGroup => 0x80071c16,
            FabricErrorCode::ServiceOffline => 0x80071bce,
            FabricErrorCode::PartitionNotFound => 0x80071be7,
            FabricErrorCode::ServiceMetadataMismatch => 0x80071bcf,
            FabricErrorCode::ServiceAffinityChainNotSupported => 0x80071bd0,
            FabricErrorCode::WriteConflict => 0x80071bd6,
            FabricErrorCode::ApplicationUpgradeValidationError => 0x80071bdf,
            FabricErrorCode::ServiceTypeMismatch => 0x80071be1,
            FabricErrorCode::ServiceTemplateNotFound => 0x80071be2,
            FabricErrorCode::ServiceTypeAlreadyRegistered => 0x80071bd1,
            FabricErrorCode::ServiceTypeNotRegistered => 0x80071bd2,
            FabricErrorCode::ApplicationUpgradeInProgress => 0x80071bde,
            FabricErrorCode::ApplicationUpdateInProgress => 0x80071c50,
            FabricErrorCode::UpgradeDomainAlreadyCompleted => 0x80071c31,
            FabricErrorCode::FabricVersionNotFound => 0x80071c09,
            FabricErrorCode::FabricVersionInUse => 0x80071c0a,
            FabricErrorCode::FabricVersionAlreadyExists => 0x80071c0b,
            FabricErrorCode::FabricAlreadyInTargetVersion => 0x80071c0c,
            FabricErrorCode::FabricNotUpgrading => 0x80071c0d,
            FabricErrorCode::FabricUpgradeInProgress => 0x80071c0e,
            FabricErrorCode::FabricUpgradeValidationError => 0x80071c0f,
            FabricErrorCode::FabricHealthMaxReportsReached => 0x80071c10,
            FabricErrorCode::FabricHealthStaleReport => 0x80071c11,
            FabricErrorCode::FabricHealthEntityNotFound => 0x80071c17,
            FabricErrorCode::ServiceTooBusy => 0x80071c25,
            FabricErrorCode::CommunicationError => 0x80071bbc,
            FabricErrorCode::GatewayNotReachable => 0x80071c49,
            FabricErrorCode::ObjectClosed => 0x80071bfe,
            FabricErrorCode::PropertyCheckFailed => 0x80071bd5,
            FabricErrorCode::EnumerationCompleted => 0x80071bd7,
            FabricErrorCode::ConfigurationSectionNotFound => 0x80071be3,
            FabricErrorCode::ConfigurationParameterNotFound => 0x80071be4,
            FabricErrorCode::InvalidConfiguration => 0x80071be5,
            FabricErrorCode::ImageBuilderValidationError => 0x80071be6,
            FabricErrorCode::ImageBuilderReservedDirectoryError => 0x80071c56,
            FabricErrorCode::ReplicaDoesNotExist => 0x80071be8,
            FabricErrorCode::ProcessDeactivated => 0x80071beb,
            FabricErrorCode::ProcessAborted => 0x80071bec,
            FabricErrorCode::InvalidAddress => 0x80071bbd,
            FabricErrorCode::InvalidNameUri => 0x80071bbe,
            FabricErrorCode::ValueTooLarge => 0x80071bd3,
            FabricErrorCode::DirectoryNotFound => 0x80071c01,
            FabricErrorCode::PathTooLong => 0x80071c03,
            FabricErrorCode::FileNotFound => 0x80071c00,
            FabricErrorCode::NotReady => 0x80071bc7,
            FabricErrorCode::OperationTimedOut => 0x80071bff,
            FabricErrorCode::OperationNotComplete => 0x80071bc8,
            FabricErrorCode::CodePackageNotFound => 0x80071bfb,
            FabricErrorCode::ConfigurationPackageNotFound => 0x80071bf9,
            FabricErrorCode::DataPackageNotFound => 0x80071bfa,
            FabricErrorCode::EndpointResourceNotFound => 0x80071bfc,
            FabricErrorCode::InvalidCredentialType => 0x80071bee,
            FabricErrorCode::InvalidX509FindType => 0x80071bef,
            FabricErrorCode::InvalidX509StoreLocation => 0x80071bf0,
            FabricErrorCode::InvalidX509StoreName => 0x80071bf1,
            FabricErrorCode::InvalidX509Thumbprint => 0x80071bf2,
            FabricErrorCode::InvalidProtectionLevel => 0x80071bf3,
            FabricErrorCode::InvalidX509Store => 0x80071bf4,
            FabricErrorCode::InvalidSubjectName => 0x80071bf5,
            FabricErrorCode::InvalidAllowedCommonNameList => 0x80071bf6,
            FabricErrorCode::InvalidCredentials => 0x80071bf7,
            FabricErrorCode::DecryptionFailed => 0x80071bf8,
            FabricErrorCode::EncryptionFailed => 0x80071c15,
            FabricErrorCode::CorruptedImageStoreObjectFound => 0x80071c05,
            FabricErrorCode::ImageBuilderUnexpectedError => 0x80071c08,
            FabricErrorCode::ImageBuilderTimeoutError => 0x80071c22,
            FabricErrorCode::ImageBuilderAccessDeniedError => 0x80071c23,
            FabricErrorCode::ImageBuilderInvalidMsiFile => 0x80071c24,
            FabricErrorCode::ImageStoreIOException => 0x80071c04,
            FabricErrorCode::ImageStoreAcquireFileLockFailed => 0x80071c42,
            FabricErrorCode::InvalidServiceType => 0x80071c21,
            FabricErrorCode::ApplicationNotUpgrading => 0x80071c06,
            FabricErrorCode::ApplicationAlreadyInTargetVersion => 0x80071c07,
            FabricErrorCode::KeyTooLarge => 0x80071c12,
            FabricErrorCode::KeyNotFound => 0x80071c13,
            FabricErrorCode::SequenceNumberCheckFailed => 0x80071c14,
            FabricErrorCode::TransactionNotActive => 0x80071c26,
            FabricErrorCode::TransactionTooLarge => 0x80071c2e,
            FabricErrorCode::MultithreadedTransactionsNotAllowed => 0x80071c46,
            FabricErrorCode::TransactionAborted => 0x80071c4b,
            FabricErrorCode::ReliableSessionTransportStartupFailure => 0x80071c19,
            FabricErrorCode::ReliableSessionAlreadyExists => 0x80071c1a,
            FabricErrorCode::ReliableSessionCannotConnect => 0x80071c1b,
            FabricErrorCode::ReliableSessionManagerExists => 0x80071c1c,
            FabricErrorCode::ReliableSessionRejected => 0x80071c1d,
            FabricErrorCode::ReliableSessionNotFound => 0x80071c29,
            FabricErrorCode::ReliableSessionQueueEmpty => 0x80071c2a,
            FabricErrorCode::ReliableSessionQuotaExceeded => 0x80071c2b,
            FabricErrorCode::ReliableSessionServiceFaulted => 0x80071c2c,
            FabricErrorCode::ReliableSessionManagerAlreadyListening => 0x80071c1e,
            FabricErrorCode::ReliableSessionManagerNotFound => 0x80071c1f,
            FabricErrorCode::ReliableSessionManagerNotListening => 0x80071c20,
            FabricErrorCode::ReliableSessionInvalidTargetPartition => 0x80071c2d,
            FabricErrorCode::RepairTaskAlreadyExists => 0x80071c27,
            FabricErrorCode::RepairTaskNotFound => 0x80071c28,
            FabricErrorCode::InstanceIdMismatch => 0x80071c30,
            FabricErrorCode::NodeHasNotStoppedYet => 0x80071c32,
            FabricErrorCode::InsufficientClusterCapacity => 0x80071c33,
            FabricErrorCode::ConstraintKeyUndefined => 0x80071c45,
            FabricErrorCode::InvalidPackageSharingPolicy => 0x80071c34,
            FabricErrorCode::PreDeploymentNotAllowed => 0x80071c35,
            FabricErrorCode::InvalidBackupSetting => 0x80071c36,
            FabricErrorCode::InvalidReplicaOperation => 0x80071c3a,
            FabricErrorCode::InvalidReplicaStateForReplicaOperation => 0x80071c3b,
            FabricErrorCode::MissingFullBackup => 0x80071c37,
            FabricErrorCode::BackupInProgress => 0x80071c38,
            FabricErrorCode::PLBNotReady => 0x80071c3c,
            FabricErrorCode::DuplicateServiceNotificationFilterName => 0x80071c39,
            FabricErrorCode::InvalidPartitionOperation => 0x80071c3d,
            FabricErrorCode::AlreadyPrimaryReplica => 0x80071c3e,
            FabricErrorCode::AlreadySecondaryReplica => 0x80071c3f,
            FabricErrorCode::AlreadyInstance => 0x87b00000,
            FabricErrorCode::AlreadyAuxiliaryReplica => 0x87b00004,
            FabricErrorCode::BackupDirectoryNotEmpty => 0x80071c40,
            FabricErrorCode::ForceNotSupportedForReplicaControlOperation => 0x80071c41,
            FabricErrorCode::ConnectionDenied => 0x80071c43,
            FabricErrorCode::ServerAuthenticationFailed => 0x80071c44,
            FabricErrorCode::FabricCannotConnect => 0x80071c4c,
            FabricErrorCode::FabricConnectionClosedByRemoteEnd => 0x80071c52,
            FabricErrorCode::FabricMessageTooLarge => 0x80071c4d,
            FabricErrorCode::ConstraintNotSatisfied => 0x80071c4e,
            FabricErrorCode::FabricEndpointNotFound => 0x80071c4f,
            FabricErrorCode::DuplicateWaitObject => 0x80131529,
            FabricErrorCode::EntryPointNotFound => 0x80131522,
            FabricErrorCode::DeleteBackupFileFailed => 0x80071c51,
            FabricErrorCode::OperationCanceled => 0x80004004,
            FabricErrorCode::InvalidTestCommandState => 0x80071c53,
            FabricErrorCode::TestCommandOperationIdAlreadyExists => 0x80071c54,
            FabricErrorCode::ChaosAlreadyRunning => 0x80071c58,
            FabricErrorCode::CMOperationFailed => 0x80071c55,
            FabricErrorCode::FabricDataRootNotFound => 0x80071c59,
            FabricErrorCode::InvalidRestoreData => 0x80071c5a,
            FabricErrorCode::DuplicateBackups => 0x80071c5b,
            FabricErrorCode::InvalidBackupChain => 0x80071c5c,
            FabricErrorCode::StopInProgress => 0x80071c5d,
            FabricErrorCode::AlreadyStopped => 0x80071c5e,
            FabricErrorCode::NodeIsDown => 0x80071c5f,
            FabricErrorCode::NodeTransitionInProgress => 0x80071c60,
            FabricErrorCode::InvalidInstanceId => 0x80071c62,
            FabricErrorCode::InvalidDuration => 0x80071c63,
            FabricErrorCode::InvalidBackup => 0x80071c61,
            FabricErrorCode::RestoreSafeCheckFailed => 0x80071c64,
            FabricErrorCode::ConfigUpgradeFailed => 0x80071c65,
            FabricErrorCode::UploadSessionRangeNotSatisfiable => 0x80071c66,
            FabricErrorCode::UploadSessionIdConflict => 0x80071c67,
            FabricErrorCode::InvalidPartitionSelector => 0x80071c68,
            FabricErrorCode::InvalidReplicaSelector => 0x80071c69,
            FabricErrorCode::DnsServiceNotFound => 0x80071c6a,
            FabricErrorCode::InvalidDnsName => 0x80071c6b,
            FabricErrorCode::DnsNameInUse => 0x80071c6c,
            FabricErrorCode::ComposeDeploymentAlreadyExists => 0x80071c6d,
            FabricErrorCode::ComposeDeploymentNotFound => 0x80071c6e,
            FabricErrorCode::InvalidForStatefulServices => 0x80071c6f,
            FabricErrorCode::InvalidForStatelessServices => 0x80071c70,
            FabricErrorCode::OnlyValidForStatefulPersistentServices => 0x80071c71,
            FabricErrorCode::InvalidUploadSessionId => 0x80071c72,
            FabricErrorCode::BackupNotEnabled => 0x80071c73,
            FabricErrorCode::BackupEnabled => 0x80071c74,
            FabricErrorCode::BackupPolicyDoesNotExist => 0x80071c75,
            FabricErrorCode::BackupPolicyAlreayExists => 0x80071c76,
            FabricErrorCode::RestoreAlreadyInProgress => 0x80071c77,
            FabricErrorCode::RestoreSourceTargetPartitionMismatch => 0x80071c78,
            FabricErrorCode::FaultAnalysisServiceNotEnabled => 0x80071c79,
            FabricErrorCode::ContainerNotFound => 0x80071c7a,
            FabricErrorCode::ObjectDisposed => 0x80071c7b,
            FabricErrorCode::NotReadable => 0x80071c7c,
            FabricErrorCode::InvalidOperation => 0x80071bfd,
            FabricErrorCode::SingleInstanceApplicationAlreadyExists => 0x80071c81,
            FabricErrorCode::SingleInstanceApplicationNotFound => 0x80071c82,
            FabricErrorCode::VolumeAlreadyExists => 0x80071c83,
            FabricErrorCode::VolumeNotFound => 0x80071c84,
            FabricErrorCode::InvalidServiceScalingPolicy => 0x80071c80,
            FabricErrorCode::DatabaseMigrationInProgress => 0x80071c85,
            FabricErrorCode::CentralSecretServiceGenericError => 0x80071c86,
            FabricErrorCode::ComposeDeploymentNotUpgrading => 0x80071c8b,
            FabricErrorCode::SecretInvalid => 0x80071c87,
            FabricErrorCode::SecretVersionAlreadyExists => 0x80071c88,
            FabricErrorCode::SingleInstanceApplicationUpgradeInProgress => 0x80071c89,
            FabricErrorCode::OperationNotSupported => 0x80071c8a,
            FabricErrorCode::NetworkNotFound => 0x80071c8d,
            FabricErrorCode::NetworkInUse => 0x80071c8e,
            FabricErrorCode::EndpointNotReferenced => 0x80071c8f,
            FabricErrorCode::CopyAborted => 0x87b00003,
            FabricErrorCode::IncompatibleRunToCompletion => 0x87b00006,
            FabricErrorCode::VersionStoreOutOfMemory => 0x87b00007,
            FabricErrorCode::BackupNotFound => 0x87b00008,
            FabricErrorCode::SkipRestoreOperation => 0x87b00009,
            FabricErrorCode::StoreOutOfSessions => 0x87b0000a,
            FabricErrorCode::RestoreWaitingForUserIntervention => 0x87b0000b,
            FabricErrorCode::DatabaseFilesCorrupted => 0x87b0000c,
            FabricErrorCode::InsufficientMaxLoadCapacity => 0x87b0000d,
            FabricErrorCode::StoreDiskError => 0x87b0000e,
            FabricErrorCode::ServiceAlreadyInRequestedState => 0x87b0000f,
            FabricErrorCode::DisableEnableServiceFeatureDisabled => 0x87b00010,
            FabricErrorCode::MaxAllowedDisabledServicesReached => 0x87b00011,
            FabricErrorCode::ServiceDisabled => 0x87b00012,
            FabricErrorCode::ServiceDisableInProgress => 0x87b00013,
            FabricErrorCode::StoreOutOfLongValueIDs => 0x87b00014,
        }
    }

    /// Looks a raw status code up in the table: `Some` exactly when some
    /// symbolic name stands for it.
    pub fn from_u32(v: u32) -> (r: Option<FabricErrorCode>)
        ensures
            r == spec_code_from_u32(v),
    {
        match v {
            0x0u32 => Some(FabricErrorCode::Unknown),
            0x80071bbfu32 => Some(FabricErrorCode::InvalidPartitionKey),
            0x80071c4au32 => Some(FabricErrorCode::UserRoleClientCertificateNotConfigured),
            0x80071bc0u32 => Some(FabricErrorCode::NameAlreadyExists),
            0x80071bccu32 => Some(FabricErrorCode::ServiceAlreadyExists),
            0x80071be9u32 => Some(FabricErrorCode::ServiceGroupAlreadyExists),
            0x80071bd8u32 => Some(FabricErrorCode::ApplicationTypeProvisionInProgress),
            0x80071bd9u32 => Some(FabricErrorCode::ApplicationTypeAlreadyExists),
            0x80071bdcu32 => Some(FabricErrorCode::ApplicationAlreadyExists),
            0x80071bc1u32 => Some(FabricErrorCode::NameNotFound),
            0x80071bc9u32 => Some(FabricErrorCode::PropertyNotFound),
            0x80071bd4u32 => Some(FabricErrorCode::PropertyValueEmpty),
            0x80071bcdu32 => Some(FabricErrorCode::ServiceNotFound),
            0x87b00005u32 => Some(FabricErrorCode::AuxiliaryFeatureDisabled),
            0x80071beau32 => Some(FabricErrorCode::ServiceGroupNotFound),
            0x80071bdau32 => Some(FabricErrorCode::ApplicationTypeNotFound),
            0x80071bdbu32 => Some(FabricErrorCode::ApplicationTypeInUse),
            0x80071bddu32 => Some(FabricErrorCode::ApplicationNotFound),
            0x80071be0u32 => Some(FabricErrorCode::ServiceTypeNotFound),
            0x80071c18u32 => Some(FabricErrorCode::ServiceManifestNotFound),
            0x80071bc2u32 => Some(FabricErrorCode::NameNotEmpty),
            0x80071bc3u32 => Some(FabricErrorCode::NodeNotFound),
            0x87b00001u32 => Some(FabricErrorCode::NodeTypeNotFound),
            0x80071bc4u32 => Some(FabricErrorCode::NodeIsUp),
            0x80071bc6u32 => Some(FabricErrorCode::NotPrimary),
            0x80071bc5u32 => Some(FabricErrorCode::NoWriteQuorum),
            0x80071bcau32 => Some(FabricErrorCode::ReconfigurationPending),
            0x80071bcbu32 => Some(FabricErrorCode::ReplicationQueueFull),
            0x80071c2fu32 => Some(FabricErrorCode::ReplicationOperationTooLarge),
            0x80071c16u32 => Some(FabricErrorCode::InvalidAtomicGroup),
            0x80071bceu32 => Some(FabricErrorCode::ServiceOffline),
            0x80071be7u32 => Some(FabricErrorCode::PartitionNotFound),
            0x80071bcfu32 => Some(FabricErrorCode::ServiceMetadataMismatch),
            0x80071bd0u32 => Some(FabricErrorCode::ServiceAffinityChainNotSupported),
            0x80071bd6u32 => Some(FabricErrorCode::WriteConflict),
            0x80071bdfu32 => Some(FabricErrorCode::ApplicationUpgradeValidationError),
            0x80071be1u32 => Some(FabricErrorCode::ServiceTypeMismatch),
            0x80071be2u32 => Some(FabricErrorCode::ServiceTemplateNotFound),
            0x80071bd1u32 => Some(FabricErrorCode::ServiceTypeAlreadyRegistered),
            0x80071bd2u32 => Some(FabricErrorCode::ServiceTypeNotRegistered),
            0x80071bdeu32 => Some(FabricErrorCode::ApplicationUpgradeInProgress),
            0x80071c50u32 => Some(FabricErrorCode::ApplicationUpdateInProgress),
            0x80071c31u32 => Some(FabricErrorCode::UpgradeDomainAlreadyCompleted),
            0x80071c09u32 => Some(FabricErrorCode::FabricVersionNotFound),
            0x80071c0au32 => Some(FabricErrorCode::FabricVersionInUse),
            0x80071c0bu32 => Some(FabricErrorCode::FabricVersionAlreadyExists),
            0x80071c0cu32 => Some(FabricErrorCode::FabricAlreadyInTargetVersion),
            0x80071c0du32 => Some(FabricErrorCode::FabricNotUpgrading),
            0x80071c0eu32 => Some(FabricErrorCode::FabricUpgradeInProgress),
            0x80071c0fu32 => Some(FabricErrorCode::FabricUpgradeValidationError),
            0x80071c10u32 => Some(FabricErrorCode::FabricHealthMaxReportsReached),
            0x80071c11u32 => Some(FabricErrorCode::FabricHealthStaleReport),
            0x80071c17u32 => Some(FabricErrorCode::FabricHealthEntityNotFound),
            0x80071c25u32 => Some(FabricErrorCode::ServiceTooBusy),
            0x80071bbcu32 => Some(FabricErrorCode::CommunicationError),
            0x80071c49u32 => Some(FabricErrorCode::GatewayNotReachable),
            0x80071bfeu32 => Some(FabricErrorCode::ObjectClosed),
            0x80071bd5u32 => Some(FabricErrorCode::PropertyCheckFailed),
            0x80071bd7u32 => Some(FabricErrorCode::EnumerationCompleted),
            0x80071be3u32 => Some(FabricErrorCode::ConfigurationSectionNotFound),
            0x80071be4u32 => Some(FabricErrorCode::ConfigurationParameterNotFound),
            0x80071be5u32 => Some(FabricErrorCode::InvalidConfiguration),
            0x80071be6u32 => Some(FabricErrorCode::ImageBuilderValidationError),
            0x80071c56u32 => Some(FabricErrorCode::ImageBuilderReservedDirectoryError),
            0x80071be8u32 => Some(FabricErrorCode::ReplicaDoesNotExist),
            0x80071bebu32 => Some(FabricErrorCode::ProcessDeactivated),
            0x80071becu32 => Some(FabricErrorCode::ProcessAborted),
            0x80071bbdu32 => Some(FabricErrorCode::InvalidAddress),
            0x80071bbeu32 => Some(FabricErrorCode::InvalidNameUri),
            0x80071bd3u32 => Some(FabricErrorCode::ValueTooLarge),
            0x80071c01u32 => Some(FabricErrorCode::DirectoryNotFound),
            0x80071c03u32 => Some(FabricErrorCode::PathTooLong),
            0x80071c00u32 => Some(FabricErrorCode::FileNotFound),
            0x80071bc7u32 => Some(FabricErrorCode::NotReady),
            0x80071bffu32 => Some(FabricErrorCode::OperationTimedOut),
            0x80071bc8u32 => Some(FabricErrorCode::OperationNotComplete),
            0x80071bfbu32 => Some(FabricErrorCode::CodePackageNotFound),
            0x80071bf9u32 => Some(FabricErrorCode::ConfigurationPackageNotFound),
            0x80071bfau32 => Some(FabricErrorCode::DataPackageNotFound),
            0x80071bfcu32 => Some(FabricErrorCode::EndpointResourceNotFound),
            0x80071beeu32 => Some(FabricErrorCode::InvalidCredentialType),
            0x80071befu32 => Some(FabricErrorCode::InvalidX509FindType),
            0x80071bf0u32 => Some(FabricErrorCode::InvalidX509StoreLocation),
            0x80071bf1u32 => Some(FabricErrorCode::InvalidX509StoreName),
            0x80071bf2u32 => Some(FabricErrorCode::InvalidX509Thumbprint),
            0x80071bf3u32 => Some(FabricErrorCode::InvalidProtectionLevel),
            0x80071bf4u32 => Some(FabricErrorCode::InvalidX509Store),
            0x80071bf5u32 => Some(FabricErrorCode::InvalidSubjectName),
            0x80071bf6u32 => Some(FabricErrorCode::InvalidAllowedCommonNameList),
            0x80071bf7u32 => Some(FabricErrorCode::InvalidCredentials),
            0x80071bf8u32 => Some(FabricErrorCode::DecryptionFailed),
            0x80071c15u32 => Some(FabricErrorCode::EncryptionFailed),
            0x80071c05u32 => Some(FabricErrorCode::CorruptedImageStoreObjectFound),
            0x80071c08u32 => Some(FabricErrorCode::ImageBuilderUnexpectedError),
            0x80071c22u32 => Some(FabricErrorCode::ImageBuilderTimeoutError),
            0x80071c23u32 => Some(FabricErrorCode::ImageBuilderAccessDeniedError),
            0x80071c24u32 => Some(FabricErrorCode::ImageBuilderInvalidMsiFile),
            0x80071c04u32 => Some(FabricErrorCode::ImageStoreIOException),
            0x80071c42u32 => Some(FabricErrorCode::ImageStoreAcquireFileLockFailed),
            0x80071c21u32 => Some(FabricErrorCode::InvalidServiceType),
            0x80071c06u32 => Some(FabricErrorCode::ApplicationNotUpgrading),
            0x80071c07u32 => Some(FabricErrorCode::ApplicationAlreadyInTargetVersion),
            0x80071c12u32 => Some(FabricErrorCode::KeyTooLarge),
            0x80071c13u32 => Some(FabricErrorCode::KeyNotFound),
            0x80071c14u32 => Some(FabricErrorCode::SequenceNumberCheckFailed),
            0x80071c26u32 => Some(FabricErrorCode::TransactionNotActive),
            0x80071c2eu32 => Some(FabricErrorCode::TransactionTooLarge),
            0x80071c46u32 => Some(FabricErrorCode::MultithreadedTransactionsNotAllowed),
            0x80071c4bu32 => Some(FabricErrorCode::TransactionAborted),
            0x80071c19u32 => Some(FabricErrorCode::ReliableSessionTransportStartupFailure),
            0x80071c1au32 => Some(FabricErrorCode::ReliableSessionAlreadyExists),
            0x80071c1bu32 => Some(FabricErrorCode::ReliableSessionCannotConnect),
            0x80071c1cu32 => Some(FabricErrorCode::ReliableSessionManagerExists),
            0x80071c1du32 => Some(FabricErrorCode::ReliableSessionRejected),
            0x80071c29u32 => Some(FabricErrorCode::ReliableSessionNotFound),
            0x80071c2au32 => Some(FabricErrorCode::ReliableSessionQueueEmpty),
            0x80071c2bu32 => Some(FabricErrorCode::ReliableSessionQuotaExceeded),
            0x80071c2cu32 => Some(FabricErrorCode::ReliableSessionServiceFaulted),
            0x80071c1eu32 => Some(FabricErrorCode::ReliableSessionManagerAlreadyListening),
            0x80071c1fu32 => Some(FabricErrorCode::ReliableSessionManagerNotFound),
            0x80071c20u32 => Some(FabricErrorCode::ReliableSessionManagerNotListening),
            0x80071c2du32 => Some(FabricErrorCode::ReliableSessionInvalidTargetPartition),
            0x80071c27u32 => Some(FabricErrorCode::RepairTaskAlreadyExists),
            0x80071c28u32 => Some(FabricErrorCode::RepairTaskNotFound),
            0x80071c30u32 => Some(FabricErrorCode::InstanceIdMismatch),
            0x80071c32u32 => Some(FabricErrorCode::NodeHasNotStoppedYet),
            0x80071c33u32 => Some(FabricErrorCode::InsufficientClusterCapacity),
            0x80071c45u32 => Some(FabricErrorCode::ConstraintKeyUndefined),
            0x80071c34u32 => Some(FabricErrorCode::InvalidPackageSharingPolicy),
            0x80071c35u32 => Some(FabricErrorCode::PreDeploymentNotAllowed),
            0x80071c36u32 => Some(FabricErrorCode::InvalidBackupSetting),
            0x80071c3au32 => Some(FabricErrorCode::InvalidReplicaOperation),
            0x80071c3bu32 => Some(FabricErrorCode::InvalidReplicaStateForReplicaOperation),
            0x80071c37u32 => Some(FabricErrorCode::MissingFullBackup),
            0x80071c38u32 => Some(FabricErrorCode::BackupInProgress),
            0x80071c3cu32 => Some(FabricErrorCode::PLBNotReady),
            0x80071c39u32 => Some(FabricErrorCode::DuplicateServiceNotificationFilterName),
            0x80071c3du32 => Some(FabricErrorCode::InvalidPartitionOperation),
            0x80071c3eu32 => Some(FabricErrorCode::AlreadyPrimaryReplica),
            0x80071c3fu32 => Some(FabricErrorCode::AlreadySecondaryReplica),
            0x87b00000u32 => Some(FabricErrorCode::AlreadyInstance),
            0x87b00004u32 => Some(FabricErrorCode::AlreadyAuxiliaryReplica),
            0x80071c40u32 => Some(FabricErrorCode::BackupDirectoryNotEmpty),
            0x80071c41u32 => Some(FabricErrorCode::ForceNotSupportedForReplicaControlOperation),
            0x80071c43u32 => Some(FabricErrorCode::ConnectionDenied),
            0x80071c44u32 => Some(FabricErrorCode::ServerAuthenticationFailed),
            0x80071c4cu32 => Some(FabricErrorCode::FabricCannotConnect),
            0x80071c52u32 => Some(FabricErrorCode::FabricConnectionClosedByRemoteEnd),
            0x80071c4du32 => Some(FabricErrorCode::FabricMessageTooLarge),
            0x80071c4eu32 => Some(FabricErrorCode::ConstraintNotSatisfied),
            0x80071c4fu32 => Some(FabricErrorCode::FabricEndpointNotFound),
            0x80131529u32 => Some(FabricErrorCode::DuplicateWaitObject),
            0x80131522u32 => Some(FabricErrorCode::EntryPointNotFound),
            0x80071c51u32 => Some(FabricErrorCode::DeleteBackupFileFailed),
            0x80004004u32 => Some(FabricErrorCode::OperationCanceled),
            0x80071c53u32 => Some(FabricErrorCode::InvalidTestCommandState),
            0x80071c54u32 => Some(FabricErrorCode::TestCommandOperationIdAlreadyExists),
            0x80071c58u32 => Some(FabricErrorCode::ChaosAlreadyRunning),
            0x80071c55u32 => Some(FabricErrorCode::CMOperationFailed),
            0x80071c59u32 => Some(FabricErrorCode::FabricDataRootNotFound),
            0x80071c5au32 => Some(FabricErrorCode::InvalidRestoreData),
            0x80071c5bu32 => Some(FabricErrorCode::DuplicateBackups),
            0x80071c5cu32 => Some(FabricErrorCode::InvalidBackupChain),
            0x80071c5du32 => Some(FabricErrorCode::StopInProgress),
            0x80071c5eu32 => Some(FabricErrorCode::AlreadyStopped),
            0x80071c5fu32 => Some(FabricErrorCode::NodeIsDown),
            0x80071c60u32 => Some(FabricErrorCode::NodeTransitionInProgress),
            0x80071c62u32 => Some(FabricErrorCode::InvalidInstanceId),
            0x80071c63u32 => Some(FabricErrorCode::InvalidDuration),
            0x80071c61u32 => Some(FabricErrorCode::InvalidBackup),
            0x80071c64u32 => Some(FabricErrorCode::RestoreSafeCheckFailed),
            0x80071c65u32 => Some(FabricErrorCode::ConfigUpgradeFailed),
            0x80071c66u32 => Some(FabricErrorCode::UploadSessionRangeNotSatisfiable),
            0x80071c67u32 => Some(FabricErrorCode::UploadSessionIdConflict),
            0x80071c68u32 => Some(FabricErrorCode::InvalidPartitionSelector),
            0x80071c69u32 => Some(FabricErrorCode::InvalidReplicaSelector),
            0x80071c6au32 => Some(FabricErrorCode::DnsServiceNotFound),
            0x80071c6bu32 => Some(FabricErrorCode::InvalidDnsName),
            0x80071c6cu32 => Some(FabricErrorCode::DnsNameInUse),
            0x80071c6du32 => Some(FabricErrorCode::ComposeDeploymentAlreadyExists),
            0x80071c6eu32 => Some(FabricErrorCode::ComposeDeploymentNotFound),
            0x80071c6fu32 => Some(FabricErrorCode::InvalidForStatefulServices),
            0x80071c70u32 => Some(FabricErrorCode::InvalidForStatelessServices),
            0x80071c71u32 => Some(FabricErrorCode::OnlyValidForStatefulPersistentServices),
            0x80071c72u32 => Some(FabricErrorCode::InvalidUploadSessionId),
            0x80071c73u32 => Some(FabricErrorCode::BackupNotEnabled),
            0x80071c74u32 => Some(FabricErrorCode::BackupEnabled),
            0x80071c75u32 => Some(FabricErrorCode::BackupPolicyDoesNotExist),
            0x80071c76u32 => Some(FabricErrorCode::BackupPolicyAlreayExists),
            0x80071c77u32 => Some(FabricErrorCode::RestoreAlreadyInProgress),
            0x80071c78u32 => Some(FabricErrorCode::RestoreSourceTargetPartitionMismatch),
            0x80071c79u32 => Some(FabricErrorCode::FaultAnalysisServiceNotEnabled),
            0x80071c7au32 => Some(FabricErrorCode::ContainerNotFound),
            0x80071c7bu32 => Some(FabricErrorCode::ObjectDisposed),
            0x80071c7cu32 => Some(FabricErrorCode::NotReadable),
            0x80071bfdu32 => Some(FabricErrorCode::InvalidOperation),
            0x80071c81u32 => Some(FabricErrorCode::SingleInstanceApplicationAlreadyExists),
            0x80071c82u32 => Some(FabricErrorCode::SingleInstanceApplicationNotFound),
            0x80071c83u32 => Some(FabricErrorCode::VolumeAlreadyExists),
            0x80071c84u32 => Some(FabricErrorCode::VolumeNotFound),
            0x80071c80u32 => Some(FabricErrorCode::InvalidServiceScalingPolicy),
            0x80071c85u32 => Some(FabricErrorCode::DatabaseMigrationInProgress),
            0x80071c86u32 => Some(FabricErrorCode::CentralSecretServiceGenericError),
            0x80071c8bu32 => Some(FabricErrorCode::ComposeDeploymentNotUpgrading),
            0x80071c87u32 => Some(FabricErrorCode::SecretInvalid),
            0x80071c88u32 => Some(FabricErrorCode::SecretVersionAlreadyExists),
            0x80071c89u32 => Some(FabricErrorCode::SingleInstanceApplicationUpgradeInProgress),
            0x80071c8au32 => Some(FabricErrorCode::OperationNotSupported),
            0x80071c8du32 => Some(FabricErrorCode::NetworkNotFound),
            0x80071c8eu32 => Some(FabricErrorCode::NetworkInUse),
            0x80071c8fu32 => Some(FabricErrorCode::EndpointNotReferenced),
            0x87b00003u32 => Some(FabricErrorCode::CopyAborted),
            0x87b00006u32 => Some(FabricErrorCode::IncompatibleRunToCompletion),
            0x87b00007u32 => Some(FabricErrorCode::VersionStoreOutOfMemory),
            0x87b00008u32 => Some(FabricErrorCode::BackupNotFound),
            0x87b00009u32 => Some(FabricErrorCode::SkipRestoreOperation),
            0x87b0000au32 => Some(FabricErrorCode::StoreOutOfSessions),
            0x87b0000bu32 => Some(FabricErrorCode::RestoreWaitingForUserIntervention),
            0x87b0000cu32 => Some(FabricErrorCode::DatabaseFilesCorrupted),
            0x87b0000du32 => Some(FabricErrorCode::InsufficientMaxLoadCapacity),
            0x87b0000eu32 => Some(FabricErrorCode::StoreDiskError),
            0x87b0000fu32 => Some(FabricErrorCode::ServiceAlreadyInRequestedState),
            0x87b00010u32 => Some(FabricErrorCode::DisableEnableServiceFeatureDisabled),
            0x87b00011u32 => Some(FabricErrorCode::MaxAllowedDisabledServicesReached),
            0x87b00012u32 => Some(FabricErrorCode::ServiceDisabled),
            0x87b00013u32 => Some(FabricErrorCode::ServiceDisableInProgress),
            0x87b00014u32 => Some(FabricErrorCode::StoreOutOfLongValueIDs),
            _ => None,
        }
    }
}

} // verus!
