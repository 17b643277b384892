//! The async callback bridge: one native call, one one-shot channel, one
//! awaited outcome.
//!
//! Each asynchronous operation gets a fresh bounded channel of capacity one.
//! The native runtime's callback publishes exactly one `Result` onto it, from
//! whatever thread it happens to run on; the caller consumes the channel once.
//! A channel that closes without a value means the callback never fired: the
//! operation was abandoned, which is reported, never silently ignored.
//!
//! The channel itself is tokio's bounded multi-producer channel, reached
//! through the trusted declarations below; every decision around it — how a
//! native thread may publish without blocking an async executor, and what the
//! received value means to the caller — is verified code in this module.

use vstd::prelude::*;

use crate::error::Error;

verus! {

/// Declares tokio's bounded-channel sender so it can stand in signatures.
#[verifier::external_type_specification]
#[verifier::external_body]
#[verifier::reject_recursive_types(T)]
pub struct ExSender<T>(tokio::sync::mpsc::Sender<T>);

/// Declares tokio's bounded-channel receiver so it can stand in signatures.
#[verifier::external_type_specification]
#[verifier::external_body]
#[verifier::reject_recursive_types(T)]
pub struct ExReceiver<T>(tokio::sync::mpsc::Receiver<T>);

/// Relies on tokio::sync::mpsc::channel: creates a bounded channel with the
/// given capacity and hands back its two ends. tokio panics on capacity 0
/// and on capacities above its semaphore's permit cap, `usize::MAX >> 3`;
/// both inputs are excluded here.
#[verifier::external_body]
fn bounded_channel<T>(capacity: usize) -> (ends: (
    tokio::sync::mpsc::Sender<T>,
    tokio::sync::mpsc::Receiver<T>,
))
    requires
        1 <= capacity <= usize::MAX >> 3,
{
    tokio::sync::mpsc::channel(capacity)
}

/// Relies on tokio::sync::mpsc::Sender::blocking_send: delivers the value
/// unless every receiver is gone, blocking the calling thread meanwhile.
/// tokio panics when this is called from inside an asynchronous runtime;
/// [`channel_send`] only reaches it on the branch where no runtime is
/// active on the calling thread.
#[verifier::external_body]
fn blocking_send<T>(tx: &tokio::sync::mpsc::Sender<T>, value: T) -> (delivered: bool) {
    tx.blocking_send(value).is_ok()
}

/// Relies on tokio::sync::mpsc::Receiver::blocking_recv: blocks until a
/// value arrives, or returns `None` once every sender is gone without one
/// having been sent. tokio panics when this is called from inside an
/// asynchronous runtime; [`await_operation`] is for callers outside one.
#[verifier::external_body]
fn blocking_recv<T>(rx: &mut tokio::sync::mpsc::Receiver<T>) -> (received: Option<T>) {
    rx.blocking_recv()
}

/// Relies on tokio::runtime::Handle::try_current: succeeds exactly when the
/// calling thread is inside a tokio runtime context.
#[verifier::external_body]
fn in_tokio_runtime() -> (active: bool) {
    tokio::runtime::Handle::try_current().is_ok()
}

/// Makes the one-shot channel of a pending operation: capacity one, created
/// fresh per invocation, consumed once by the awaiting caller.
pub fn pending_operation_channel<T>() -> (ends: (
    tokio::sync::mpsc::Sender<T>,
    tokio::sync::mpsc::Receiver<T>,
)) {
    proof {
        vstd::bits::lemma_usize_shr_is_div(usize::MAX, 3usize);
        vstd::arithmetic::power2::lemma2_to64();
        assert(1usize <= usize::MAX >> 3usize);
    }
    bounded_channel(1)
}

/// How a native callback thread may publish a value onto the channel.
#[derive(Debug, Copy, Clone, PartialEq, Eq, Structural)]
pub enum SendRoute {
    /// The thread belongs to an async runtime: a blocking send would stall
    /// (and tokio forbids it), so the send must run on a spawned task.
    SpawnTask,
    /// No runtime is active on this thread: send directly, blocking it.
    DirectBlockingSend,
}

/// The publishing rule: spawn when inside a runtime, block otherwise.
pub open spec fn spec_send_route(runtime_active: bool) -> SendRoute {
    if runtime_active {
        SendRoute::SpawnTask
    } else {
        SendRoute::DirectBlockingSend
    }
}

/// Decides how a value must be published, given whether the calling thread
/// is inside an async runtime.
pub fn send_route(runtime_active: bool) -> (r: SendRoute)
    ensures
        r == spec_send_route(runtime_active),
{
    if runtime_active {
        SendRoute::SpawnTask
    } else {
        SendRoute::DirectBlockingSend
    }
}

/// What became of a value handed to [`channel_send`].
#[verifier::reject_recursive_types(T)]
pub enum SendOutcome<T> {
    /// The value was sent directly; `true` when a receiver took it, `false`
    /// when the receiving end was already gone.
    Sent(bool),
    /// The calling thread is inside an async runtime, where a blocking send
    /// is forbidden: the sender and the value come back to the caller, to be
    /// sent from a spawned task.
    Deferred(tokio::sync::mpsc::Sender<T>, T),
}

/// Publishes a value by the given route. Verified for both values of
/// `runtime_active`; nothing is dropped and nothing blocks a runtime thread.
pub fn publish<T>(runtime_active: bool, tx: tokio::sync::mpsc::Sender<T>, val: T) -> (r:
    SendOutcome<T>)
    ensures
        runtime_active ==> r == SendOutcome::Deferred(tx, val),
        !runtime_active ==> r is Sent,
{
    match send_route(runtime_active) {
        SendRoute::SpawnTask => SendOutcome::Deferred(tx, val),
        SendRoute::DirectBlockingSend => SendOutcome::Sent(blocking_send(&tx, val)),
    }
}

/// Publishes an operation's result from an arbitrary thread: sends directly
/// where that cannot stall an async executor, and otherwise hands sender and
/// value back for the caller's task to send.
pub fn channel_send<T>(tx: tokio::sync::mpsc::Sender<T>, val: T) -> (r: SendOutcome<T>)
    ensures
        r matches SendOutcome::Deferred(t, v) ==> t == tx && v == val,
{
    let active = in_tokio_runtime();
    publish(active, tx, val)
}

/// A completed operation's outcome, as the awaiting caller sees it.
pub enum OperationOutcome<T> {
    /// The callback fired and published a successful projection.
    Completed(T),
    /// The callback fired and published an error.
    Failed(Error),
    /// The channel closed without a value: the callback never fired.
    Abandoned,
}

/// What a value received from the one-shot channel means: a missing value is
/// abandonment, a present value carries the operation's own result.
pub open spec fn spec_classify_received<T>(received: Option<Result<T, Error>>) -> OperationOutcome<
    T,
> {
    match received {
        Option::Some(Result::Ok(v)) => OperationOutcome::Completed(v),
        Option::Some(Result::Err(e)) => OperationOutcome::Failed(e),
        Option::None => OperationOutcome::Abandoned,
    }
}

/// Classifies what the one-shot channel handed back.
pub fn classify_received<T>(received: Option<Result<T, Error>>) -> (o: OperationOutcome<T>)
    ensures
        o == spec_classify_received(received),
{
    match received {
        Option::Some(Result::Ok(v)) => OperationOutcome::Completed(v),
        Option::Some(Result::Err(e)) => OperationOutcome::Failed(e),
        Option::None => OperationOutcome::Abandoned,
    }
}

/// Resolves an outcome into the caller's result: a completed value or error
/// passes through unchanged, abandonment becomes [`Error::Abandoned`]
/// carrying the operation's name — exactly once, never silent success.
pub fn operation_result<T>(op_name: &str, outcome: OperationOutcome<T>) -> (r: Result<T, Error>)
    ensures
        outcome matches OperationOutcome::Completed(v) ==> r == Result::<T, Error>::Ok(v),
        outcome matches OperationOutcome::Failed(e) ==> r == Result::<T, Error>::Err(e),
        outcome is Abandoned ==> (r matches Result::Err(e) && e matches Error::Abandoned(n)
            && n@ == op_name@),
{
    match outcome {
        OperationOutcome::Completed(v) => Result::Ok(v),
        OperationOutcome::Failed(e) => Result::Err(e),
        OperationOutcome::Abandoned => Result::Err(
            Error::Abandoned(<String as vstd::string::StringExecFns>::from_str(op_name)),
        ),
    }
}

/// How a received channel value must be resolved into the caller's result:
/// a published result passes through unchanged, and a closed, empty channel
/// is reported as abandonment under the operation's name.
pub open spec fn spec_resolves_received<T>(
    received: Option<Result<T, Error>>,
    op_name: Seq<char>,
    r: Result<T, Error>,
) -> bool {
    match spec_classify_received(received) {
        OperationOutcome::Completed(v) => r == Result::<T, Error>::Ok(v),
        OperationOutcome::Failed(e) => r == Result::<T, Error>::Err(e),
        OperationOutcome::Abandoned => r matches Result::Err(e) && e matches Error::Abandoned(n)
            && n@ == op_name,
    }
}

/// Waits for an operation's single published value and resolves it, naming
/// the operation in the abandoned case. The channel decides which value
/// arrives — the contract says the result resolves whatever it was. For
/// callers outside an async runtime; an async host awaits the receiver
/// itself and resolves what it got through [`classify_received`] and
/// [`operation_result`].
pub fn await_operation<T>(rx: &mut tokio::sync::mpsc::Receiver<Result<T, Error>>, op_name: &str) -> (r:
    Result<T, Error>)
    ensures
        exists|received: Option<Result<T, Error>>|
            spec_resolves_received(received, op_name@, r),
{
    let received = blocking_recv(rx);
    let ghost witness: Option<Result<T, Error>> = received;
    let outcome = classify_received(received);
    let r = operation_result(op_name, outcome);
    proof {
        assert(spec_resolves_received(witness, op_name@, r));
    }
    r
}

/// Where a single operation stands in its lifecycle.
#[derive(Debug, Copy, Clone, PartialEq, Eq, Structural)]
pub enum OperationPhase {
    /// Descriptor, channel and callback exist; the native call has not run.
    Created,
    /// The native begin call returned a context token; a callback is due.
    BeginInvoked,
    /// The callback fired and its result was published.
    Completed,
    /// The native begin call itself reported failure; no callback will fire.
    Failed,
    /// The channel closed before the callback fired.
    Abandoned,
}

/// The transitions an operation may take: a begin call either starts the
/// wait or fails synchronously, and a started wait ends in exactly one of
/// completion, failure or abandonment.
pub open spec fn spec_phase_step_allowed(from: OperationPhase, to: OperationPhase) -> bool {
    match (from, to) {
        (OperationPhase::Created, OperationPhase::BeginInvoked) => true,
        (OperationPhase::Created, OperationPhase::Failed) => true,
        (OperationPhase::BeginInvoked, OperationPhase::Completed) => true,
        (OperationPhase::BeginInvoked, OperationPhase::Abandoned) => true,
        _ => false,
    }
}

/// A phase from which no further transition is allowed.
pub open spec fn spec_phase_is_terminal(p: OperationPhase) -> bool {
    match p {
        OperationPhase::Completed => true,
        OperationPhase::Failed => true,
        OperationPhase::Abandoned => true,
        _ => false,
    }
}

/// Tracks one operation through its lifecycle; each method is one allowed
/// transition, so a tracked operation can never reach a terminal phase twice
/// or skip the begin call.
pub struct OperationTracker {
    /// The operation's current phase.
    pub phase: OperationPhase,
}

impl OperationTracker {
    /// A freshly created operation.
    pub fn new() -> (t: OperationTracker)
        ensures
            t.phase == OperationPhase::Created,
    {
        OperationTracker { phase: OperationPhase::Created }
    }

    /// The native begin call returned a context token.
    pub fn begin_invoked(&mut self)
        requires
            old(self).phase == OperationPhase::Created,
        ensures
            final(self).phase == OperationPhase::BeginInvoked,
            spec_phase_step_allowed(old(self).phase, final(self).phase),
    {
        self.phase = OperationPhase::BeginInvoked;
    }

    /// The native begin call failed synchronously; no callback will fire.
    pub fn begin_failed(&mut self)
        requires
            old(self).phase == OperationPhase::Created,
        ensures
            final(self).phase == OperationPhase::Failed,
            spec_phase_step_allowed(old(self).phase, final(self).phase),
    {
        self.phase = OperationPhase::Failed;
    }

    /// The callback fired and its result was published.
    pub fn callback_fired(&mut self)
        requires
            old(self).phase == OperationPhase::BeginInvoked,
        ensures
            final(self).phase == OperationPhase::Completed,
            spec_phase_step_allowed(old(self).phase, final(self).phase),
    {
        self.phase = OperationPhase::Completed;
    }

    /// The channel closed before the callback fired.
    pub fn dropped_before_callback(&mut self)
        requires
            old(self).phase == OperationPhase::BeginInvoked,
        ensures
            final(self).phase == OperationPhase::Abandoned,
            spec_phase_step_allowed(old(self).phase, final(self).phase),
    {
        self.phase = OperationPhase::Abandoned;
    }

    /// Whether the operation can move no further.
    pub fn is_terminal(&self) -> (r: bool)
        ensures
            r == spec_phase_is_terminal(self.phase),
    {
        match self.phase {
            OperationPhase::Completed => true,
            OperationPhase::Failed => true,
            OperationPhase::Abandoned => true,
            _ => false,
        }
    }
}

/// No transition leaves a terminal phase: once an operation is completed,
/// failed or abandoned, its outcome can never be superseded.
pub proof fn lemma_terminal_phase_is_final(from: OperationPhase, to: OperationPhase)
    requires
        spec_phase_is_terminal(from),
    ensures
        !spec_phase_step_allowed(from, to),
{
}

} // verus!
