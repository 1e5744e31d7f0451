//! The queue of unsolicited messages: everything that arrived for no waiter.
use crate::responses::ChatSrvResponse;
use std::collections::VecDeque;
use vstd::prelude::*;

verus! {

broadcast use vstd::std_specs::vecdeque::group_vec_dequeue_axioms;

/// Messages in the order in which the listener read them, oldest first.
/// Nothing bounds its length.
pub struct UnsolicitedQueue {
    messages: VecDeque<ChatSrvResponse>,
}

impl UnsolicitedQueue {
    /// The queued messages, oldest first.
    pub closed spec fn view(self) -> Seq<ChatSrvResponse> {
        self.messages@
    }

    /// A queue that holds nothing.
    pub fn new() -> (queue: UnsolicitedQueue)
        ensures
            queue@ == Seq::<ChatSrvResponse>::empty(),
    {
        UnsolicitedQueue { messages: VecDeque::new() }
    }

    /// How many messages wait in the queue.
    pub fn len(&self) -> (len: usize)
        ensures
            len == self@.len(),
    {
        self.messages.len()
    }

    /// Whether no message waits in the queue.
    pub fn is_empty(&self) -> (empty: bool)
        ensures
            empty == (self@.len() == 0),
    {
        self.messages.len() == 0
    }

    /// Puts `message` behind all messages that are already queued.
    pub fn push(&mut self, message: ChatSrvResponse)
        ensures
            final(self)@ == old(self)@.push(message),
    {
        self.messages.push_back(message);
    }

    /// Takes the oldest message out of the queue, if there is one.
    pub fn pop(&mut self) -> (message: Option<ChatSrvResponse>)
        ensures
            match message {
                Some(m) => old(self)@.len() > 0 && m == old(self)@[0] && final(self)@ == old(
                    self,
                )@.drop_first(),
                None => old(self)@.len() == 0 && final(self)@ == old(self)@,
            },
    {
        self.messages.pop_front()
    }
}

} // verus!
