//! Native signal sources, as far as their readings are plain values: what
//! each kind of source reports, and how a raw reading is classified.

use vstd::prelude::*;

verus! {

/// The identifier of the session-change message in a native message queue.
pub const SESSION_CHANGE_MESSAGE: u32 = 0x02B1;

/// The sub-code of a session-change message that reports a lock.
pub const SESSION_LOCK_CODE: u32 = 0x7;

/// The sub-code of a session-change message that reports an unlock.
pub const SESSION_UNLOCK_CODE: u32 = 0x8;

/// What a message pump returns when its queue has been closed.
pub const PUMP_CLOSED: i32 = 0;

/// What a message pump returns when it failed.
pub const PUMP_FAILED: i32 = -1;

/// The two ways in which a source fails.
#[derive(Clone, Copy, Debug, PartialEq, Eq, Structural)]
pub enum FailureKind {
    /// The source could not be set up.
    Acquisition,
    /// The source was set up and then could not be read.
    Read,
}

/// Why a native signal source failed. Every failure ends the monitoring task.
#[derive(Clone, Copy, Debug, PartialEq, Eq, Structural)]
pub enum SourceError {
    /// The connection to the session manager could not be opened.
    Connection,
    /// The proxy to the session's properties could not be created.
    Proxy,
    /// The hidden window could not be created or registered.
    Window,
    /// The session dictionary could not be read.
    Dictionary,
    /// The locked property could not be read after a change notification.
    PropertyRead,
    /// The native message loop reported an error.
    MessageLoop,
    /// The stream of notifications ended.
    StreamEnded,
}

impl SourceError {
    /// Whether the failure is one of setting the source up or of reading it.
    pub open spec fn kind_of(self) -> FailureKind {
        match self {
            SourceError::Connection => FailureKind::Acquisition,
            SourceError::Proxy => FailureKind::Acquisition,
            SourceError::Window => FailureKind::Acquisition,
            SourceError::Dictionary => FailureKind::Acquisition,
            SourceError::PropertyRead => FailureKind::Read,
            SourceError::MessageLoop => FailureKind::Read,
            SourceError::StreamEnded => FailureKind::Read,
        }
    }

    /// Whether the failure is one of setting the source up or of reading it.
    pub fn kind(self) -> (kind: FailureKind)
        ensures
            kind == self.kind_of(),
    {
        match self {
            SourceError::Connection | SourceError::Proxy | SourceError::Window
            | SourceError::Dictionary => FailureKind::Acquisition,
            SourceError::PropertyRead | SourceError::MessageLoop | SourceError::StreamEnded =>
                FailureKind::Read,
        }
    }
}

/// What the monitoring task learns from its source in one step.
#[derive(Clone, Copy, Debug, PartialEq, Eq, Structural)]
pub enum Event {
    /// The source has been set up.
    Acquired,
    /// The source reported the lock state (`true` is locked).
    Observed(bool),
    /// The source reported something that is neither a lock nor an unlock.
    Unrecognized,
    /// The source failed.
    Failed(SourceError),
}

/// The reading of a property-watch source after waiting for the next change
/// notification.
///
/// `change` is `None` when the stream of notifications ended, `Some(None)`
/// when a notification came and the property could not be read, and
/// `Some(Some(locked))` when the property was read.
pub open spec fn property_reading(change: Option<Option<bool>>) -> Event {
    match change {
        None => Event::Failed(SourceError::StreamEnded),
        Some(None) => Event::Failed(SourceError::PropertyRead),
        Some(Some(locked)) => Event::Observed(locked),
    }
}

/// Classifies what a property-watch source got from waiting for the next
/// change notification and then reading the property.
pub fn from_property_change(change: Option<Option<bool>>) -> (event: Event)
    ensures
        event == property_reading(change),
{
    match change {
        None => Event::Failed(SourceError::StreamEnded),
        Some(None) => Event::Failed(SourceError::PropertyRead),
        Some(Some(locked)) => Event::Observed(locked),
    }
}

/// The reading of an event-loop source for one message: a session-change
/// message with the lock or the unlock sub-code is a reading of the lock
/// state, every other message is unrecognized.
pub open spec fn message_reading(message: u32, sub_code: u32) -> Event {
    if message == SESSION_CHANGE_MESSAGE && sub_code == SESSION_LOCK_CODE {
        Event::Observed(true)
    } else if message == SESSION_CHANGE_MESSAGE && sub_code == SESSION_UNLOCK_CODE {
        Event::Observed(false)
    } else {
        Event::Unrecognized
    }
}

/// Classifies one message of the native queue by its identifier and by its
/// sub-code, the low 32 bits of the message's first parameter.
pub fn from_session_message(message: u32, sub_code: u32) -> (event: Event)
    ensures
        event == message_reading(message, sub_code),
{
    if message != SESSION_CHANGE_MESSAGE {
        Event::Unrecognized
    } else if sub_code == SESSION_LOCK_CODE {
        Event::Observed(true)
    } else if sub_code == SESSION_UNLOCK_CODE {
        Event::Observed(false)
    } else {
        Event::Unrecognized
    }
}

/// The reading of an event-loop source for one turn of its message pump:
/// a closed queue and a failed pump are failures, anything else is the
/// message's own reading.
pub open spec fn pump_reading(status: i32, message: u32, sub_code: u32) -> Event {
    if status == PUMP_CLOSED {
        Event::Failed(SourceError::StreamEnded)
    } else if status == PUMP_FAILED {
        Event::Failed(SourceError::MessageLoop)
    } else {
        message_reading(message, sub_code)
    }
}

/// Classifies one turn of the native message pump: `status` is what the pump
/// returned, `message` and `sub_code` describe the message that it fetched.
pub fn from_pump_result(status: i32, message: u32, sub_code: u32) -> (event: Event)
    ensures
        event == pump_reading(status, message, sub_code),
{
    if status == PUMP_CLOSED {
        Event::Failed(SourceError::StreamEnded)
    } else if status == PUMP_FAILED {
        Event::Failed(SourceError::MessageLoop)
    } else {
        from_session_message(message, sub_code)
    }
}

/// The reading of a poll-dictionary source for one snapshot.
///
/// `snapshot` is `None` when the dictionary could not be had, else whether it
/// holds the lock-indicator key. The key's presence alone means locked,
/// whatever its value.
pub open spec fn snapshot_reading(snapshot: Option<bool>) -> Event {
    match snapshot {
        None => Event::Failed(SourceError::Dictionary),
        Some(key_present) => Event::Observed(key_present),
    }
}

/// Classifies one snapshot of the session dictionary.
pub fn from_dictionary_snapshot(snapshot: Option<bool>) -> (event: Event)
    ensures
        event == snapshot_reading(snapshot),
{
    match snapshot {
        None => Event::Failed(SourceError::Dictionary),
        Some(key_present) => Event::Observed(key_present),
    }
}

/// The name of the lock-indicator key in the session dictionary.
pub const LOCK_INDICATOR_KEY: &'static str = "CGSSessionScreenIsLocked";

} // verus!
