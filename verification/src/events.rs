//! The events that handlers report to the hosting environment.

use vstd::prelude::*;
use crate::account::AccountId;

verus! {

/// The result that a handler reports: the caller it ran for, and either the
/// counter's value after the call or the text of an error.
#[derive(Debug, PartialEq, Eq)]
pub struct IncResult {
    pub caller: AccountId,
    pub current_value: Result<i32, String>,
}

/// An event as plain values: the caller's bytes, and the counter's value or
/// the characters of the error text.
pub struct IncResultView {
    pub caller: Seq<u8>,
    pub current_value: Result<int, Seq<char>>,
}

impl View for IncResult {
    type V = IncResultView;

    open spec fn view(&self) -> IncResultView {
        IncResultView {
            caller: self.caller@,
            current_value: match self.current_value {
                Ok(value) => Ok(value as int),
                Err(message) => Err(message@),
            },
        }
    }
}

/// The channel on which handlers publish events. It keeps them in the order
/// in which they were emitted; nothing is merged, dropped or reordered.
pub struct EventEmitter {
    events: Vec<IncResult>,
}

impl View for EventEmitter {
    type V = Seq<IncResultView>;

    /// The events emitted so far, oldest first.
    closed spec fn view(&self) -> Seq<IncResultView> {
        self.events@.map_values(|event: IncResult| event@)
    }
}

impl EventEmitter {
    /// A channel on which nothing has been emitted yet.
    pub fn new() -> (emitter: EventEmitter)
        ensures
            emitter@ == Seq::<IncResultView>::empty(),
    {
        let emitter = EventEmitter { events: Vec::new() };
        assert(emitter@ =~= Seq::<IncResultView>::empty());
        emitter
    }

    /// Publishes `event` after all events emitted before it.
    pub fn emit(&mut self, event: IncResult)
        ensures
            final(self)@ == old(self)@.push(event@),
    {
        self.events.push(event);
        assert(self@ =~= old(self)@.push(event@));
    }

    /// The events emitted so far, oldest first.
    pub fn events(&self) -> (log: &Vec<IncResult>)
        ensures
            log@.len() == self@.len(),
            forall|i: int| 0 <= i < log@.len() ==> (#[trigger] log@[i])@ == self@[i],
    {
        &self.events
    }
}

} // verus!
