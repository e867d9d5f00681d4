//! The supervising discovery-and-session loop, as a state machine.
//!
//! The loop waits for pairing credentials from the discovery service, runs
//! one session against them until it ends, and goes back to waiting, for
//! the lifetime of the process, across any number of pairing cycles. The
//! caller performs the waiting and the session itself and feeds each outcome
//! back in as an event; `supervise` decides what happens next.

use vstd::prelude::*;

verus! {

/// Where the supervising loop stands.
#[derive(Clone, Copy, Debug, PartialEq, Eq, Structural)]
pub enum LoopState {
    /// No session is live; the loop is waiting on the discovery service.
    AwaitingCredentials,
    /// A session is live and its event stream is being consumed.
    SessionRunning,
    /// The discovery service closed; the loop is over.
    Finished,
}

/// What the loop just observed.
#[derive(Clone, Copy, Debug, PartialEq, Eq, Structural)]
pub enum LoopEvent {
    /// The discovery service yielded a credentials object.
    CredentialsReady,
    /// The live session (or its event stream) ended.
    SessionEnded,
    /// The discovery service's stream ended.
    DiscoveryClosed,
}

/// What the caller must do next.
#[derive(Clone, Copy, Debug, PartialEq, Eq, Structural)]
pub enum LoopAction {
    /// Establish a session and player against the received credentials and
    /// consume its events.
    OpenSession,
    /// Wait for the discovery service's next credentials object.
    AwaitNext,
    /// Stop: no further sessions will be accepted.
    Shutdown,
}

/// A setup step of the loop that can fail for good: by default each of these
/// conditions is unrecoverable and ends the loop.
#[derive(Clone, Copy, Debug, PartialEq, Eq, Structural)]
pub enum SetupFailure {
    /// The discovery listener could not be launched.
    DiscoveryLaunch,
    /// No audio sink backend is available.
    SinkUnavailable,
    /// The mixer could not be constructed.
    MixerUnavailable,
    /// The protocol session could not be established.
    SessionCreate,
}

/// Which fatal setup conditions send the loop back to waiting instead of
/// ending it: an explicit configuration choice rather than an implicit
/// abort.
#[derive(Clone, Copy, Debug, PartialEq, Eq, Structural)]
pub struct RecoveryPolicy {
    pub retry_discovery: bool,
    pub retry_sink: bool,
    pub retry_mixer: bool,
    pub retry_session: bool,
}

impl Default for RecoveryPolicy {
    /// The stock policy: every setup failure ends the loop.
    fn default() -> (p: Self)
        ensures
            !p.retry_discovery && !p.retry_sink && !p.retry_mixer && !p.retry_session,
    {
        RecoveryPolicy {
            retry_discovery: false,
            retry_sink: false,
            retry_mixer: false,
            retry_session: false,
        }
    }
}

/// Whether the policy retries the given setup failure.
pub open spec fn spec_failure_retried(policy: RecoveryPolicy, failure: SetupFailure) -> bool {
    match failure {
        SetupFailure::DiscoveryLaunch => policy.retry_discovery,
        SetupFailure::SinkUnavailable => policy.retry_sink,
        SetupFailure::MixerUnavailable => policy.retry_mixer,
        SetupFailure::SessionCreate => policy.retry_session,
    }
}

/// What a fatal setup condition does to the loop: back to waiting for the
/// next credentials where the policy retries it, shutdown where it does not.
pub fn setup_failure_action(policy: &RecoveryPolicy, failure: SetupFailure) -> (r: (
    LoopState,
    LoopAction,
))
    ensures
        r == if spec_failure_retried(*policy, failure) {
            (LoopState::AwaitingCredentials, LoopAction::AwaitNext)
        } else {
            (LoopState::Finished, LoopAction::Shutdown)
        },
{
    let retried = match failure {
        SetupFailure::DiscoveryLaunch => policy.retry_discovery,
        SetupFailure::SinkUnavailable => policy.retry_sink,
        SetupFailure::MixerUnavailable => policy.retry_mixer,
        SetupFailure::SessionCreate => policy.retry_session,
    };
    if retried {
        (LoopState::AwaitingCredentials, LoopAction::AwaitNext)
    } else {
        (LoopState::Finished, LoopAction::Shutdown)
    }
}

/// One step of the supervising loop: fresh credentials open a session, a
/// session's end sends the loop back to waiting, and a closed discovery
/// service ends the loop for good. A session is only ever opened for a
/// credentials object received while waiting, never twice for the same one.
pub fn supervise(state: LoopState, event: LoopEvent) -> (r: (LoopState, LoopAction))
    ensures
        r == match (state, event) {
            (LoopState::AwaitingCredentials, LoopEvent::CredentialsReady) => (
                LoopState::SessionRunning,
                LoopAction::OpenSession,
            ),
            (LoopState::AwaitingCredentials, LoopEvent::SessionEnded) => (
                LoopState::AwaitingCredentials,
                LoopAction::AwaitNext,
            ),
            (LoopState::SessionRunning, LoopEvent::CredentialsReady) => (
                LoopState::SessionRunning,
                LoopAction::AwaitNext,
            ),
            (LoopState::SessionRunning, LoopEvent::SessionEnded) => (
                LoopState::AwaitingCredentials,
                LoopAction::AwaitNext,
            ),
            (_, LoopEvent::DiscoveryClosed) => (LoopState::Finished, LoopAction::Shutdown),
            (LoopState::Finished, _) => (LoopState::Finished, LoopAction::Shutdown),
        },
        r.1 == LoopAction::OpenSession ==> state == LoopState::AwaitingCredentials && event
            == LoopEvent::CredentialsReady,
{
    match (state, event) {
        (_, LoopEvent::DiscoveryClosed) => (LoopState::Finished, LoopAction::Shutdown),
        (LoopState::Finished, _) => (LoopState::Finished, LoopAction::Shutdown),
        (LoopState::AwaitingCredentials, LoopEvent::CredentialsReady) => (
            LoopState::SessionRunning,
            LoopAction::OpenSession,
        ),
        (LoopState::AwaitingCredentials, LoopEvent::SessionEnded) => (
            LoopState::AwaitingCredentials,
            LoopAction::AwaitNext,
        ),
        (LoopState::SessionRunning, LoopEvent::CredentialsReady) => (
            LoopState::SessionRunning,
            LoopAction::AwaitNext,
        ),
        (LoopState::SessionRunning, LoopEvent::SessionEnded) => (
            LoopState::AwaitingCredentials,
            LoopAction::AwaitNext,
        ),
    }
}

} // verus!
