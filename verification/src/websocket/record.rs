//! What the queue of a stream has answered so far. The record exists in proofs alone.

use crate::websocket::stream::QueuePoll;
use vstd::prelude::*;

verus! {

/// A look at a queue.
pub struct Look {
    /// Whether the task is woken when an entry comes, where the look found none.
    pub wakes: bool,
    /// What the look found.
    pub found: QueuePoll,
}

/// The looks at a queue with their answers, in the order in which they came. Only a look at the queue adds to it.
pub struct Answers {
    log: Ghost<Seq<Look>>,
}

impl View for Answers {
    type V = Seq<Look>;

    closed spec fn view(&self) -> Seq<Look> {
        self.log@
    }
}

impl Answers {
    /// The record of a queue that nobody has looked at.
    pub fn new() -> (r: Self)
        ensures
            r@ == Seq::<Look>::empty(),
    {
        Answers { log: Ghost(Seq::empty()) }
    }
}

} // verus!
