//! What can go wrong in the pipeline, and what is done about it.
//!
//! Nothing is retried. A failure either ends the session, or costs one
//! element or packet, or is the ordinary end of the stream.

use vstd::prelude::*;

verus! {

/// The kinds of failure that the pipeline tells apart.
#[derive(Clone, Copy, Debug, PartialEq, Eq, Structural)]
pub enum FailureKind {
    /// The chunk source failed, before or while streaming.
    Source,
    /// A container element was malformed.
    Parse,
    /// The codec rejected a packet.
    Decode,
    /// No scaler could be built after a change of picture size.
    DimensionChange,
    /// One end of the frame queue was closed.
    ChannelClosed,
}

/// What is done about a failure.
#[derive(Clone, Copy, Debug, PartialEq, Eq, Structural)]
pub enum Policy {
    /// Hand the failure on and end the session.
    Fatal,
    /// Pass over what failed and go on with what comes next.
    Skip,
    /// Wind down as at the end of the stream, without reporting a failure.
    Shutdown,
}

/// The policy for each kind of failure.
pub open spec fn policy_of(kind: FailureKind) -> Policy {
    match kind {
        FailureKind::Source => Policy::Fatal,
        FailureKind::Parse => Policy::Skip,
        FailureKind::Decode => Policy::Skip,
        FailureKind::DimensionChange => Policy::Fatal,
        FailureKind::ChannelClosed => Policy::Shutdown,
    }
}

/// Looks up the policy for a kind of failure.
pub fn policy(kind: FailureKind) -> (policy: Policy)
    ensures
        policy == policy_of(kind),
{
    match kind {
        FailureKind::Source => Policy::Fatal,
        FailureKind::Parse => Policy::Skip,
        FailureKind::Decode => Policy::Skip,
        FailureKind::DimensionChange => Policy::Fatal,
        FailureKind::ChannelClosed => Policy::Shutdown,
    }
}

/// Tells whether a failure of this kind ends the session.
pub fn ends_session(kind: FailureKind) -> (ends: bool)
    ensures
        ends == !(policy_of(kind) is Skip),
{
    match policy(kind) {
        Policy::Skip => false,
        _ => true,
    }
}

/// Tells whether a failure of this kind is shown to the user as an error.
pub fn is_reported(kind: FailureKind) -> (reported: bool)
    ensures
        reported == (policy_of(kind) is Fatal),
{
    match policy(kind) {
        Policy::Fatal => true,
        _ => false,
    }
}

} // verus!
