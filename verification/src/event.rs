//! The change event: a fixed name and one of two payloads.

use vstd::prelude::*;

verus! {

/// The name under which every change of the session's lock state is published.
pub const EVENT_NAME: &'static str = "window_screen_lock_status://change_session_status";

/// What a change event carries.
#[derive(Clone, Copy, Debug, PartialEq, Eq, Structural)]
pub enum Payload {
    /// The session became locked.
    Lock,
    /// The session became unlocked.
    Unlock,
}

impl Payload {
    /// The payload that announces the lock state `locked`.
    pub open spec fn of(locked: bool) -> Payload {
        if locked {
            Payload::Lock
        } else {
            Payload::Unlock
        }
    }

    /// The payload as it travels: `"lock"` or `"unlock"`.
    pub open spec fn text(self) -> Seq<char> {
        match self {
            Payload::Lock => "lock"@,
            Payload::Unlock => "unlock"@,
        }
    }

    /// The payload for a new lock state: `Lock` for `true`, `Unlock` for `false`.
    pub fn from_state(locked: bool) -> (payload: Payload)
        ensures
            payload == Payload::of(locked),
    {
        if locked {
            Payload::Lock
        } else {
            Payload::Unlock
        }
    }

    /// The lock state that this payload announces.
    pub fn locked(self) -> (locked: bool)
        ensures
            Payload::of(locked) == self,
            locked <==> self == Payload::Lock,
    {
        match self {
            Payload::Lock => true,
            Payload::Unlock => false,
        }
    }

    /// The string handed to the subscriber.
    pub fn as_str(self) -> (text: &'static str)
        ensures
            text@ == self.text(),
    {
        match self {
            Payload::Lock => "lock",
            Payload::Unlock => "unlock",
        }
    }
}

/// One notification to the subscriber. Its name is always [`EVENT_NAME`].
#[derive(Clone, Copy, Debug, PartialEq, Eq, Structural)]
pub struct ChangeEvent {
    pub payload: Payload,
}

impl ChangeEvent {
    /// The event that announces the new lock state `locked`.
    pub fn for_state(locked: bool) -> (event: ChangeEvent)
        ensures
            event.payload == Payload::of(locked),
    {
        ChangeEvent { payload: Payload::from_state(locked) }
    }

    /// The name to publish under.
    pub fn name(&self) -> (name: &'static str)
        ensures
            name@ == EVENT_NAME@,
    {
        EVENT_NAME
    }

    /// The payload string to publish: `"lock"` or `"unlock"`.
    pub fn payload_str(&self) -> (text: &'static str)
        ensures
            text@ == self.payload.text(),
    {
        self.payload.as_str()
    }
}

/// The two payload strings differ, so the string alone tells the subscriber
/// which state the session entered.
pub proof fn payload_text_tells_state(a: bool, b: bool)
    ensures
        Payload::of(a).text() == Payload::of(b).text() <==> a == b,
{
    reveal_strlit("lock");
    reveal_strlit("unlock");
    assert("lock"@.len() == 4);
    assert("unlock"@.len() == 6);
}

} // verus!
