//! The retry policy and the status-code table it classifies by.

use sf_rs::error::FabricErrorCode;
use sf_rs::retry::{
    is_retryable_code, is_retryable_error, RetryDecision, RetryRun, RetryState, MAX_ATTEMPTS,
    RETRY_INTERVAL_MS,
};
use sf_rs::{run_with_retry, Error};

const PLB_NOT_READY: u32 = 0x80071c3c;
const INVALID_PARTITION_KEY: u32 = 0x80071bbf;

#[test]
fn code_table_maps_known_codes_both_ways() {
    assert_eq!(
        FabricErrorCode::from_u32(PLB_NOT_READY),
        Some(FabricErrorCode::PLBNotReady)
    );
    assert_eq!(FabricErrorCode::PLBNotReady.code_value(), PLB_NOT_READY);
    assert_eq!(
        FabricErrorCode::from_u32(0x80071bcd),
        Some(FabricErrorCode::ServiceNotFound)
    );
    assert_eq!(
        FabricErrorCode::from_u32(0x80071c5d),
        Some(FabricErrorCode::StopInProgress)
    );
    assert_eq!(
        FabricErrorCode::from_u32(0x87b00000),
        Some(FabricErrorCode::AlreadyInstance)
    );
    assert_eq!(
        FabricErrorCode::from_u32(0x80004004),
        Some(FabricErrorCode::OperationCanceled)
    );
    assert_eq!(FabricErrorCode::from_u32(0), Some(FabricErrorCode::Unknown));
    assert_eq!(FabricErrorCode::from_u32(0xdeadbeef), None);
}

#[test]
fn code_table_round_trips_sample_codes() {
    for code in [
        FabricErrorCode::FabricHealthEntityNotFound,
        FabricErrorCode::ObjectClosed,
        FabricErrorCode::FabricVersionAlreadyExists,
        FabricErrorCode::FabricUpgradeInProgress,
        FabricErrorCode::FabricAlreadyInTargetVersion,
        FabricErrorCode::AlreadyAuxiliaryReplica,
        FabricErrorCode::AlreadySecondaryReplica,
        FabricErrorCode::AlreadyPrimaryReplica,
        FabricErrorCode::InvalidReplicaStateForReplicaOperation,
        FabricErrorCode::EntryPointNotFound,
        FabricErrorCode::StoreOutOfLongValueIDs,
    ] {
        assert_eq!(FabricErrorCode::from_u32(code.code_value()), Some(code));
    }
}

#[test]
fn whitelist_classifies_exactly_the_transient_codes() {
    let transient = [
        FabricErrorCode::FabricHealthEntityNotFound,
        FabricErrorCode::PLBNotReady,
        FabricErrorCode::InvalidReplicaStateForReplicaOperation,
        FabricErrorCode::ObjectClosed,
        FabricErrorCode::ServiceNotFound,
        FabricErrorCode::AlreadyAuxiliaryReplica,
        FabricErrorCode::AlreadyInstance,
        FabricErrorCode::AlreadySecondaryReplica,
        FabricErrorCode::AlreadyPrimaryReplica,
        FabricErrorCode::FabricVersionAlreadyExists,
        FabricErrorCode::FabricUpgradeInProgress,
        FabricErrorCode::FabricAlreadyInTargetVersion,
        FabricErrorCode::StopInProgress,
    ];
    for code in transient {
        assert!(is_retryable_code(code), "{:?} should be transient", code);
    }
    for code in [
        FabricErrorCode::Unknown,
        FabricErrorCode::InvalidPartitionKey,
        FabricErrorCode::CommunicationError,
        FabricErrorCode::OperationTimedOut,
        FabricErrorCode::GatewayNotReachable,
    ] {
        assert!(!is_retryable_code(code), "{:?} should not be transient", code);
    }
}

#[test]
fn only_native_whitelisted_errors_are_retryable() {
    assert!(is_retryable_error(&Error::Windows(PLB_NOT_READY)));
    assert!(!is_retryable_error(&Error::Windows(INVALID_PARTITION_KEY)));
    assert!(!is_retryable_error(&Error::Windows(0xdeadbeef)));
    assert!(!is_retryable_error(&Error::Utf16StringDecode));
    assert!(!is_retryable_error(&Error::Abandoned(String::from("Op"))));
    assert!(!is_retryable_error(&Error::InvalidServiceKind));
    assert!(!is_retryable_error(&Error::InvalidServicePartitionKind));
}

#[test]
fn non_whitelisted_error_attempts_exactly_once() {
    let outcomes: Vec<Result<u32, Error>> = vec![
        Err(Error::Windows(INVALID_PARTITION_KEY)),
        Ok(1),
        Ok(2),
    ];
    match run_with_retry(outcomes) {
        RetryRun::Finished { attempts, result } => {
            assert_eq!(attempts, 1);
            assert_eq!(result, Err(Error::Windows(INVALID_PARTITION_KEY)));
        }
        RetryRun::Exhausted { .. } => panic!("should have finished"),
    }
}

#[test]
fn abandonment_is_not_retried() {
    let outcomes: Vec<Result<u32, Error>> =
        vec![Err(Error::Abandoned(String::from("GetPartitionList"))), Ok(1)];
    match run_with_retry(outcomes) {
        RetryRun::Finished { attempts, result } => {
            assert_eq!(attempts, 1);
            assert_eq!(
                result,
                Err(Error::Abandoned(String::from("GetPartitionList")))
            );
        }
        RetryRun::Exhausted { .. } => panic!("should have finished"),
    }
}

#[test]
fn three_transient_failures_then_success_retries_three_times() {
    let transient = || Err(Error::Windows(PLB_NOT_READY));
    let outcomes: Vec<Result<u32, Error>> = vec![transient(), transient(), transient(), Ok(42)];
    match run_with_retry(outcomes) {
        RetryRun::Finished { attempts, result } => {
            assert_eq!(attempts, 4); // three retries after the first attempt
            assert_eq!(result, Ok(42));
        }
        RetryRun::Exhausted { .. } => panic!("should have finished"),
    }
}

#[test]
fn each_retry_waits_the_fixed_interval() {
    let mut state = RetryState::new();
    let d = state.step::<u32>(Err(Error::Windows(PLB_NOT_READY)));
    match d {
        RetryDecision::Retry { delay_ms, error } => {
            assert_eq!(delay_ms, RETRY_INTERVAL_MS);
            assert_eq!(delay_ms, 200);
            assert_eq!(error, Error::Windows(PLB_NOT_READY));
        }
        RetryDecision::Done(_) => panic!("should retry"),
    }
    assert_eq!(state.attempts, 1);
}

#[test]
fn persistent_transient_failure_stops_at_the_attempt_cap() {
    let outcomes: Vec<Result<u32, Error>> = (0..20)
        .map(|_| Err(Error::Windows(PLB_NOT_READY)))
        .collect();
    match run_with_retry(outcomes) {
        RetryRun::Finished { attempts, result } => {
            assert_eq!(attempts, MAX_ATTEMPTS);
            assert_eq!(attempts, 10);
            assert_eq!(result, Err(Error::Windows(PLB_NOT_READY)));
        }
        RetryRun::Exhausted { .. } => panic!("should have finished"),
    }
}

#[test]
fn script_shorter_than_the_loop_reports_exhaustion() {
    let outcomes: Vec<Result<u32, Error>> = vec![Err(Error::Windows(PLB_NOT_READY))];
    match run_with_retry(outcomes) {
        RetryRun::Exhausted { attempts } => assert_eq!(attempts, 1),
        RetryRun::Finished { .. } => panic!("should be exhausted"),
    }
}

#[test]
fn success_on_first_attempt_makes_no_retry() {
    let outcomes: Vec<Result<u32, Error>> = vec![Ok(7), Err(Error::Windows(PLB_NOT_READY))];
    match run_with_retry(outcomes) {
        RetryRun::Finished { attempts, result } => {
            assert_eq!(attempts, 1);
            assert_eq!(result, Ok(7));
        }
        RetryRun::Exhausted { .. } => panic!("should have finished"),
    }
}

#[test]
fn error_equality_distinguishes_variants_and_payloads() {
    assert_eq!(Error::Windows(1), Error::Windows(1));
    assert_ne!(Error::Windows(1), Error::Windows(2));
    assert_ne!(Error::Windows(1), Error::Utf16StringDecode);
    assert_eq!(
        Error::Abandoned(String::from("A")),
        Error::Abandoned(String::from("A"))
    );
    assert_ne!(
        Error::Abandoned(String::from("A")),
        Error::Abandoned(String::from("B"))
    );
    assert_eq!(Error::InvalidServiceKind, Error::InvalidServiceKind);
    assert_ne!(Error::InvalidServiceKind, Error::InvalidServicePartitionKind);
}
