//! State handling for the experimental front-end counter widget.

use vstd::prelude::*;

verus! {

/// The state behind the front-end counter widget.
#[derive(Clone, Copy, Debug, PartialEq, Eq, Structural)]
pub struct Counter {
    /// The number of times the counter has been incremented.
    pub value: u64,
}

impl Default for Counter {
    /// A counter starts at zero.
    fn default() -> (counter: Counter)
        ensures
            counter.value == 0,
    {
        Counter { value: 0 }
    }
}

/// A message the front end can send to the counter state.
#[derive(Clone, Copy, Debug, PartialEq, Eq, Structural)]
pub enum Message {
    /// Ask for the counter to grow by one.
    Increment,
}

/// Apply a front-end message to the counter state.
pub fn update(counter: &mut Counter, message: Message)
    requires
        old(counter).value < u64::MAX,
    ensures
        message == Message::Increment ==> final(counter).value == old(counter).value + 1,
{
    match message {
        Message::Increment => counter.value = counter.value + 1,
    }
}

} // verus!
