//! The one-shot channel bridge, run against tokio's real channel.

use sf_rs::bridge::{
    await_operation, channel_send, classify_received, operation_result, pending_operation_channel,
    send_route, OperationOutcome, OperationPhase, OperationTracker, SendOutcome, SendRoute,
};
use sf_rs::Error;

#[test]
fn published_value_reaches_the_awaiting_caller() {
    let (tx, mut rx) = pending_operation_channel::<Result<u32, Error>>();
    match channel_send(tx, Ok(42)) {
        SendOutcome::Sent(delivered) => assert!(delivered),
        SendOutcome::Deferred(..) => panic!("no runtime is active in this test"),
    }
    let r = await_operation(&mut rx, "ResolveServicePartition");
    assert_eq!(r, Ok(42));
}

#[test]
fn published_error_passes_through_unchanged() {
    let (tx, mut rx) = pending_operation_channel::<Result<u32, Error>>();
    match channel_send(tx, Err(Error::Windows(0x80071bbf))) {
        SendOutcome::Sent(delivered) => assert!(delivered),
        SendOutcome::Deferred(..) => panic!("no runtime is active in this test"),
    }
    let r = await_operation(&mut rx, "ResolveServicePartition");
    assert_eq!(r, Err(Error::Windows(0x80071bbf)));
}

#[test]
fn dropped_channel_surfaces_abandonment_with_the_operation_name() {
    let (tx, mut rx) = pending_operation_channel::<Result<u32, Error>>();
    drop(tx); // the callback never fires
    let r = await_operation(&mut rx, "GetPartitionList");
    assert_eq!(r, Err(Error::Abandoned(String::from("GetPartitionList"))));
}

#[test]
fn abandonment_is_reported_exactly_once_per_operation() {
    // Two independent operations, each with its own channel: each reports
    // its own abandonment once, under its own name.
    let (tx_a, mut rx_a) = pending_operation_channel::<Result<u32, Error>>();
    let (tx_b, mut rx_b) = pending_operation_channel::<Result<u32, Error>>();
    drop(tx_a);
    drop(tx_b);
    assert_eq!(
        await_operation(&mut rx_a, "OpA"),
        Err(Error::Abandoned(String::from("OpA")))
    );
    assert_eq!(
        await_operation(&mut rx_b, "OpB"),
        Err(Error::Abandoned(String::from("OpB")))
    );
}

#[test]
fn send_inside_a_runtime_is_deferred_to_a_task() {
    let rt = tokio::runtime::Runtime::new().unwrap();
    let r = rt.block_on(async {
        let (tx, mut rx) = pending_operation_channel::<Result<u32, Error>>();
        match channel_send(tx, Ok(5)) {
            SendOutcome::Deferred(tx, val) => {
                // The verified decision hands the send to a spawned task.
                tokio::spawn(async move {
                    let _ = tx.send(val).await;
                });
            }
            SendOutcome::Sent(_) => panic!("a blocking send inside a runtime would panic"),
        }
        let received = rx.recv().await;
        operation_result("ResolveServicePartition", classify_received(received))
    });
    assert_eq!(r, Ok(5));
}

#[test]
fn send_route_depends_only_on_runtime_presence() {
    assert_eq!(send_route(true), SendRoute::SpawnTask);
    assert_eq!(send_route(false), SendRoute::DirectBlockingSend);
}

#[test]
fn classification_covers_all_three_outcomes() {
    assert!(matches!(
        classify_received::<u32>(Some(Ok(3))),
        OperationOutcome::Completed(3)
    ));
    assert!(matches!(
        classify_received::<u32>(Some(Err(Error::InvalidServiceKind))),
        OperationOutcome::Failed(Error::InvalidServiceKind)
    ));
    assert!(matches!(
        classify_received::<u32>(None),
        OperationOutcome::Abandoned
    ));
}

#[test]
fn operation_result_maps_each_outcome() {
    assert_eq!(
        operation_result("Op", OperationOutcome::Completed(9u32)),
        Ok(9)
    );
    assert_eq!(
        operation_result::<u32>("Op", OperationOutcome::Failed(Error::Utf16StringDecode)),
        Err(Error::Utf16StringDecode)
    );
    assert_eq!(
        operation_result::<u32>("Op", OperationOutcome::Abandoned),
        Err(Error::Abandoned(String::from("Op")))
    );
}

#[test]
fn operation_lifecycle_follows_the_state_machine() {
    let mut op = OperationTracker::new();
    assert_eq!(op.phase, OperationPhase::Created);
    assert!(!op.is_terminal());
    op.begin_invoked();
    assert_eq!(op.phase, OperationPhase::BeginInvoked);
    assert!(!op.is_terminal());
    op.callback_fired();
    assert_eq!(op.phase, OperationPhase::Completed);
    assert!(op.is_terminal());

    let mut failed = OperationTracker::new();
    failed.begin_failed();
    assert_eq!(failed.phase, OperationPhase::Failed);
    assert!(failed.is_terminal());

    let mut abandoned = OperationTracker::new();
    abandoned.begin_invoked();
    abandoned.dropped_before_callback();
    assert_eq!(abandoned.phase, OperationPhase::Abandoned);
    assert!(abandoned.is_terminal());
}
