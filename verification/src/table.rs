//! The correlation table: one delivery slot for every call that is under way.
use crate::error::ClientError;
use crate::model::{CallState, Poll, TableState};
use crate::responses::ChatResponse;
use std::collections::HashMap;
use vstd::prelude::*;

verus! {

broadcast use vstd::std_specs::hash::group_hash_axioms;

/// The delivery slot of one call.
enum Slot {
    /// Nothing has arrived yet; the caller waits until `deadline`.
    Waiting { deadline: u64 },
    /// The response has arrived and waits for the caller.
    Filled(ChatResponse),
}

/// The calls of one connection, by correlation id.
///
/// Ids are handed out in rising order from 1 and never again, so an id that
/// is registered now was never registered for another call. Closing the table
/// releases every waiter in one step: a slot that is still empty on a closed
/// table counts as released.
///
/// Every operation is one step on the whole table, so whoever shares a table
/// between the listener and the callers only has to make the steps exclude
/// each other.
pub struct CorrelationTable {
    open: bool,
    last_id: u64,
    slots: HashMap<u64, Slot>,
}

impl CorrelationTable {
    #[verifier::type_invariant]
    spec fn ids_were_handed_out(self) -> bool {
        forall|id: u64| #[trigger] self.slots@.contains_key(id) ==> 1 <= id <= self.last_id
    }

    /// The state of the call behind one slot.
    spec fn state_of(open: bool, slot: Slot) -> CallState {
        match slot {
            Slot::Waiting { deadline } => if open {
                CallState::Sent { deadline }
            } else {
                CallState::ConnectionClosed
            },
            Slot::Filled(resp) => CallState::Delivered(resp),
        }
    }

    /// The table as a mathematical value.
    pub closed spec fn view(self) -> TableState {
        TableState {
            open: self.open,
            last_id: self.last_id,
            calls: Map::new(
                |id: u64| self.slots@.contains_key(id) && 1 <= id <= self.last_id,
                |id: u64| Self::state_of(self.open, self.slots@[id]),
            ),
        }
    }

    /// Every table is well formed.
    pub proof fn lemma_wf(self)
        ensures
            self@.wf(),
    {
    }

    /// The table of a fresh connection: open, and no id handed out.
    pub fn new() -> (table: CorrelationTable)
        ensures
            table@ == TableState::empty(),
    {
        let table = CorrelationTable { open: true, last_id: 0, slots: HashMap::new() };
        assert(table@.calls =~= Map::<u64, CallState>::empty());
        table
    }

    /// A table that hands out its first id after `last_id`, for a connection
    /// that takes up the numbering of an earlier one.
    pub fn starting_after(last_id: u64) -> (table: CorrelationTable)
        ensures
            table@ == (TableState { last_id, ..TableState::empty() }),
    {
        let table = CorrelationTable { open: true, last_id, slots: HashMap::new() };
        assert(table@.calls =~= Map::<u64, CallState>::empty());
        table
    }

    /// Whether the connection is still open.
    pub fn is_open(&self) -> (open: bool)
        ensures
            open == self@.open,
    {
        self.open
    }

    /// The correlation id that was handed out last; zero before the first.
    pub fn last_id(&self) -> (id: u64)
        ensures
            id == self@.last_id,
    {
        self.last_id
    }

    /// Whether the call `id` has an active waiter.
    pub fn is_awaiting(&self, id: u64) -> (awaiting: bool)
        ensures
            awaiting == self@.awaiting(id),
    {
        proof {
            use_type_invariant(self);
        }
        self.open && match self.slots.get(&id) {
            Some(Slot::Waiting { .. }) => true,
            _ => false,
        }
    }

    /// Whether anything is registered under `id`: a waiter, a response that
    /// has not been collected, or a waiter that the closing released.
    pub fn is_registered(&self, id: u64) -> (registered: bool)
        ensures
            registered == self@.calls.contains_key(id),
    {
        proof {
            use_type_invariant(self);
        }
        self.slots.contains_key(&id)
    }

    /// Hands out the next correlation id and registers a waiter under it.
    ///
    /// Fails, and changes nothing, on a closed connection and when the ids
    /// have run out.
    pub fn register(&mut self, deadline: u64) -> (id: Result<u64, ClientError>)
        ensures
            match id {
                Ok(id) => {
                    &&& old(self)@.can_register()
                    &&& id == old(self)@.next_id()
                    &&& !old(self)@.calls.contains_key(id)
                    &&& final(self)@ == old(self)@.register(deadline)
                },
                Err(e) => {
                    &&& !old(self)@.can_register()
                    &&& e == old(self)@.register_error()
                    &&& final(self)@ == old(self)@
                },
            },
    {
        proof {
            use_type_invariant(&*self);
        }
        if !self.open {
            return Err(ClientError::ConnectionClosed);
        }
        if self.last_id == u64::MAX {
            return Err(ClientError::IdsExhausted);
        }
        let id: u64 = self.last_id + 1;
        // The map leaves the table while it changes, so that the table is
        // whole at every moment.
        let mut slots = HashMap::new();
        std::mem::swap(&mut slots, &mut self.slots);
        slots.insert(id, Slot::Waiting { deadline });
        self.last_id = id;
        self.slots = slots;
        assert(final(self)@.calls =~= old(self)@.register(deadline).calls);
        Ok(id)
    }

    /// Delivers `resp` to the waiter of the call `id`, in one step with the
    /// look-up. Where no waiter is active under `id`, the table stays as it
    /// is and the payload comes back.
    pub fn deliver(&mut self, id: u64, resp: ChatResponse) -> (returned: Option<ChatResponse>)
        ensures
            old(self)@.awaiting(id) ==> returned is None && final(self)@ == old(self)@.deliver(
                id,
                resp,
            ),
            !old(self)@.awaiting(id) ==> returned == Some(resp) && final(self)@ == old(self)@,
    {
        proof {
            use_type_invariant(&*self);
        }
        if self.is_awaiting(id) {
            let mut slots = HashMap::new();
            std::mem::swap(&mut slots, &mut self.slots);
            slots.insert(id, Slot::Filled(resp));
            self.slots = slots;
            assert(final(self)@.calls =~= old(self)@.deliver(id, resp).calls);
            None
        } else {
            Some(resp)
        }
    }

    /// Tells the caller of `id` where its call stands at time `now`, and
    /// takes the call off the table once it is over.
    ///
    /// A delivered response is handed out, once. A waiter that the closing of
    /// the connection released ends with `ConnectionClosed`. A call whose
    /// deadline has come ends with `Timeout`. Otherwise the call stays
    /// registered and the time left until its deadline is returned.
    pub fn settle(&mut self, id: u64, now: u64) -> (poll: Poll)
        ensures
            poll == old(self)@.outcome(id, now),
            final(self)@ == old(self)@.settle(id, now),
    {
        proof {
            use_type_invariant(&*self);
        }
        let mut slots = HashMap::new();
        std::mem::swap(&mut slots, &mut self.slots);
        let poll = match slots.remove(&id) {
            None => Poll::Ready(Err(ClientError::UnknownCall)),
            Some(Slot::Filled(resp)) => Poll::Ready(Ok(resp)),
            Some(Slot::Waiting { deadline }) => {
                if !self.open {
                    Poll::Ready(Err(ClientError::ConnectionClosed))
                } else if now >= deadline {
                    Poll::Ready(Err(ClientError::Timeout))
                } else {
                    slots.insert(id, Slot::Waiting { deadline });
                    Poll::Pending { wait: deadline - now }
                }
            },
        };
        self.slots = slots;
        assert(final(self)@.calls =~= old(self)@.settle(id, now).calls);
        poll
    }

    /// Takes the call `id` off the table, whatever its state.
    pub fn forget(&mut self, id: u64)
        ensures
            final(self)@ == old(self)@.forget(id),
    {
        proof {
            use_type_invariant(&*self);
        }
        let mut slots = HashMap::new();
        std::mem::swap(&mut slots, &mut self.slots);
        slots.remove(&id);
        self.slots = slots;
        assert(final(self)@.calls =~= old(self)@.forget(id).calls);
    }

    /// Closes the table: every active waiter is released, and no call can be
    /// registered any more. Closing a closed table changes nothing.
    pub fn close(&mut self)
        ensures
            final(self)@ == old(self)@.close(),
    {
        proof {
            use_type_invariant(&*self);
        }
        self.open = false;
        assert(final(self)@.calls =~= old(self)@.close().calls);
    }
}

} // verus!
