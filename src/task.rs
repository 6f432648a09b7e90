//! The decisions of the per-link polling task. The task itself (connecting,
//! sleeping, taking the table's lock) runs outside; after each connect
//! attempt and each published poll pass it asks what to do next.

use vstd::prelude::*;
use crate::device_link::Tag;
use crate::model::LinkStatus;

verus! {

/// The kinds of background task.
#[derive(Clone, Copy, Debug, PartialEq, Eq, Structural)]
pub enum TaskType {
    DeviceLink,
    Logging,
    Eval,
}

/// Messages that tasks may exchange.
#[derive(Clone, Debug, PartialEq, Eq)]
pub enum TaskMessage {
    LinkConfig,
    DeviceWrite(Tag),
}

/// Milliseconds that a task waits before it tries to connect again.
pub const RECONNECT_BACKOFF_MS: u64 = 2000;

/// What a link task does next.
#[derive(Clone, Copy, Debug, PartialEq, Eq, Structural)]
pub enum TaskStep {
    /// Keep the session: wait this many milliseconds, then poll.
    PollAfter(u64),
    /// Drop the session: wait this many milliseconds, then take a fresh
    /// snapshot of the link and connect again.
    ReconnectAfter(u64),
}

/// The step after a connect attempt: poll at once on success, else back off
/// and reconnect.
pub fn after_connect(connected: bool) -> (r: TaskStep)
    ensures
        connected ==> r == TaskStep::PollAfter(0),
        !connected ==> r == TaskStep::ReconnectAfter(RECONNECT_BACKOFF_MS),
{
    if connected {
        TaskStep::PollAfter(0)
    } else {
        TaskStep::ReconnectAfter(RECONNECT_BACKOFF_MS)
    }
}

/// The step after a poll pass has been published: a `Normal` link waits its
/// poll interval and polls again; `Error` and `NeedsToReconnect` both drop
/// the session and reconnect after the back-off.
pub fn after_poll(status: &LinkStatus, poll_wait_duration: u64) -> (r: TaskStep)
    ensures
        status is Normal ==> r == TaskStep::PollAfter(poll_wait_duration),
        !(status is Normal) ==> r == TaskStep::ReconnectAfter(RECONNECT_BACKOFF_MS),
{
    match status {
        LinkStatus::Normal => TaskStep::PollAfter(poll_wait_duration),
        LinkStatus::NeedsToReconnect => TaskStep::ReconnectAfter(RECONNECT_BACKOFF_MS),
        LinkStatus::Error(_) => TaskStep::ReconnectAfter(RECONNECT_BACKOFF_MS),
    }
}

/// The step after trying to publish a poll pass: a stale copy (the record
/// was replaced meanwhile) reconnects at once from a fresh snapshot;
/// otherwise as `after_poll`.
pub fn after_publish(published: bool, status: &LinkStatus, poll_wait_duration: u64) -> (r: TaskStep)
    ensures
        !published ==> r == TaskStep::ReconnectAfter(0),
        published && status is Normal ==> r == TaskStep::PollAfter(poll_wait_duration),
        published && !(status is Normal) ==> r == TaskStep::ReconnectAfter(RECONNECT_BACKOFF_MS),
{
    if !published {
        TaskStep::ReconnectAfter(0)
    } else {
        after_poll(status, poll_wait_duration)
    }
}

} // verus!
