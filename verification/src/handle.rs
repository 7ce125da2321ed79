//! The session handle: a write-once place for the subscriber's publishing
//! capability, and the emitter that reads it.

use vstd::prelude::*;
use crate::event::{ChangeEvent, Payload};

verus! {

/// A write-once holder of the hosting application's publishing capability.
///
/// It starts empty, is filled at most once, and is never emptied or replaced
/// afterwards. Reading it while it is empty is an ordinary outcome.
pub struct SessionHandle<H> {
    slot: Option<H>,
}

impl<H> View for SessionHandle<H> {
    type V = Option<H>;

    closed spec fn view(&self) -> Option<H> {
        self.slot
    }
}

impl<H> SessionHandle<H> {
    /// An empty handle.
    pub fn new() -> (handle: Self)
        ensures
            handle@ is None,
    {
        SessionHandle { slot: None }
    }

    /// Stores `capability` if nothing is stored yet.
    ///
    /// A second attempt changes nothing and gives the rejected value back.
    pub fn set(&mut self, capability: H) -> (outcome: Result<(), H>)
        ensures
            old(self)@ is None ==> outcome is Ok && final(self)@ == Some(capability),
            old(self)@ is Some ==> outcome == Err::<(), H>(capability) && final(self)@ == old(
                self,
            )@,
    {
        if self.slot.is_none() {
            self.slot = Some(capability);
            Ok(())
        } else {
            Err(capability)
        }
    }

    /// Whether the capability has been stored.
    pub fn is_set(&self) -> (ready: bool)
        ensures
            ready <==> self@ is Some,
    {
        self.slot.is_some()
    }

    /// The stored capability, or `None` while the handle is empty.
    pub fn get(&self) -> (capability: Option<&H>)
        ensures
            capability is Some <==> self@ is Some,
            capability is Some ==> *capability->0 == self@->0,
    {
        self.slot.as_ref()
    }
}

/// What the emitter hands over for the new lock state `new_state`: nothing
/// while the sink is empty, else the sink's capability with the event to
/// publish through it.
pub open spec fn emission<H>(sink: Option<H>, new_state: bool) -> Option<(H, ChangeEvent)> {
    match sink {
        None => None,
        Some(capability) => Some((capability, ChangeEvent { payload: Payload::of(new_state) })),
    }
}

/// Prepares the notification of a new lock state.
///
/// While the sink is empty nothing is to be published: the transition is
/// dropped, and the caller goes on. Otherwise the caller publishes the
/// returned event through the returned capability.
pub fn emit<H>(sink: &SessionHandle<H>, new_state: bool) -> (out: Option<(&H, ChangeEvent)>)
    ensures
        out is Some <==> sink@ is Some,
        out is Some ==> emission(sink@, new_state) == Some((*(out->0).0, (out->0).1)),
{
    match sink.get() {
        None => None,
        Some(capability) => Some((capability, ChangeEvent::for_state(new_state))),
    }
}

} // verus!
