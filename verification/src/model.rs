//! The correlation engine as a state machine over mathematical values.
//!
//! A state holds the correlation table, the queue of unsolicited messages and
//! the timeout. Every operation of the client is a function from a state (and
//! an event) to the next state and to what the caller is told. The executable
//! client is proved to follow these functions step by step.
use crate::decimal::numeral_of;
use crate::error::ClientError;
use crate::responses::{ChatResponse, ChatSrvResponse};
use vstd::prelude::*;

verus! {

/// Where a registered call stands.
///
/// A call is entered as `Sent` just before its frame is written. It ends as
/// `Delivered`, as `ConnectionClosed`, or by timing out; a call that timed
/// out leaves the table at once, so no state is kept for it.
pub enum CallState {
    /// Registered and waiting for its response until `deadline`.
    Sent { deadline: u64 },
    /// The response has arrived and waits to be collected by the caller.
    Delivered(ChatResponse),
    /// The connection was closed while the call was waiting.
    ConnectionClosed,
}

/// What a caller learns when it asks after its call.
#[derive(Debug)]
pub enum Poll {
    /// The call is over, with its response or with the reason why there is none.
    Ready(Result<ChatResponse, ClientError>),
    /// The call is still waiting; its deadline is `wait` milliseconds away.
    Pending { wait: u64 },
}

/// What the reader of the connection hands to the listener.
#[derive(Debug, Clone)]
pub enum Inbound {
    /// A frame that decoded into an envelope.
    Frame(ChatSrvResponse),
    /// A frame that is no well-formed envelope.
    Malformed,
    /// The connection is closed, or reading from it failed for good.
    Closed,
}

/// What the listener did with one inbound event.
#[derive(Debug, Clone, Copy, Hash, PartialEq, Eq, Structural)]
pub enum ListenerStep {
    /// The payload went to the waiter of the call `corr_id`.
    Delivered { corr_id: u64 },
    /// The message went to the queue of unsolicited messages.
    Queued,
    /// The frame was malformed and has been passed over.
    Skipped,
    /// The connection is closed: every waiter was released and the listener ends.
    Stopped,
}

/// The correlation table: the calls that are registered, by correlation id.
pub struct TableState {
    /// Whether the connection is still open.
    pub open: bool,
    /// The correlation id that was handed out last; zero before the first.
    pub last_id: u64,
    /// The registered calls.
    pub calls: Map<u64, CallState>,
}

impl TableState {
    /// The table of a fresh connection.
    pub open spec fn empty() -> TableState {
        TableState { open: true, last_id: 0, calls: Map::empty() }
    }

    /// What holds of every table that a client can reach: only ids that were
    /// handed out are registered, and nothing waits on a closed connection.
    pub open spec fn wf(self) -> bool {
        &&& forall|id: u64| #[trigger] self.calls.contains_key(id) ==> 1 <= id <= self.last_id
        &&& !self.open ==> forall|id: u64| !self.awaiting(id)
    }

    /// Whether the call `id` has an active waiter.
    pub open spec fn awaiting(self, id: u64) -> bool {
        self.calls.contains_key(id) && self.calls[id] is Sent
    }

    /// Whether a new call can be registered.
    pub open spec fn can_register(self) -> bool {
        self.open && self.last_id < u64::MAX
    }

    /// Why no new call can be registered.
    pub open spec fn register_error(self) -> ClientError {
        if self.open {
            ClientError::IdsExhausted
        } else {
            ClientError::ConnectionClosed
        }
    }

    /// The correlation id that the next call gets.
    pub open spec fn next_id(self) -> u64 {
        (self.last_id + 1) as u64
    }

    /// The table after the next call was registered with `deadline`.
    pub open spec fn register(self, deadline: u64) -> TableState {
        TableState {
            last_id: self.next_id(),
            calls: self.calls.insert(self.next_id(), CallState::Sent { deadline }),
            ..self
        }
    }

    /// The call whose waiter a correlation id on the wire names, if any.
    ///
    /// The text has to be exactly the decimal numeral of the id of a call
    /// that is still waiting.
    pub open spec fn waiter_of(self, corr_id: Option<String>) -> Option<u64> {
        match corr_id {
            Some(text) => match numeral_of(text@) {
                Some(id) => if self.awaiting(id) {
                    Some(id)
                } else {
                    None
                },
                None => None,
            },
            None => None,
        }
    }

    /// The table after `resp` was delivered to the waiter of `id`.
    pub open spec fn deliver(self, id: u64, resp: ChatResponse) -> TableState {
        TableState { calls: self.calls.insert(id, CallState::Delivered(resp)), ..self }
    }

    /// The table without the call `id`.
    pub open spec fn forget(self, id: u64) -> TableState {
        TableState { calls: self.calls.remove(id), ..self }
    }

    /// The table after the connection was closed: every waiter is released.
    pub open spec fn close(self) -> TableState {
        TableState {
            open: false,
            calls: Map::new(
                |id: u64| self.calls.contains_key(id),
                |id: u64|
                    if self.calls[id] is Sent {
                        CallState::ConnectionClosed
                    } else {
                        self.calls[id]
                    },
            ),
            ..self
        }
    }

    /// What the caller of `id` is told at time `now`.
    pub open spec fn outcome(self, id: u64, now: u64) -> Poll {
        if !self.calls.contains_key(id) {
            Poll::Ready(Err(ClientError::UnknownCall))
        } else {
            match self.calls[id] {
                CallState::Delivered(resp) => Poll::Ready(Ok(resp)),
                CallState::ConnectionClosed => Poll::Ready(Err(ClientError::ConnectionClosed)),
                CallState::Sent { deadline } => if now >= deadline {
                    Poll::Ready(Err(ClientError::Timeout))
                } else {
                    Poll::Pending { wait: (deadline - now) as u64 }
                },
            }
        }
    }

    /// The table after the caller of `id` asked at time `now`: a call that is
    /// over leaves the table, a call that still waits stays.
    pub open spec fn settle(self, id: u64, now: u64) -> TableState {
        if self.outcome(id, now) is Ready {
            self.forget(id)
        } else {
            self
        }
    }
}

/// The whole state of a client.
pub struct ClientState {
    /// The correlation table.
    pub table: TableState,
    /// The unsolicited messages that nobody has pulled yet, oldest first.
    pub queue: Seq<ChatSrvResponse>,
    /// How long a call waits for its response, in milliseconds.
    pub timeout: u64,
}

impl ClientState {
    /// The timeout of a client that was given no other: three seconds.
    pub open spec fn default_timeout() -> u64 {
        3000
    }

    /// The state of a client that has just connected.
    pub open spec fn initial() -> ClientState {
        ClientState {
            table: TableState::empty(),
            queue: Seq::empty(),
            timeout: Self::default_timeout(),
        }
    }

    /// What holds of every state that a client can reach.
    pub open spec fn wf(self) -> bool {
        self.table.wf()
    }

    /// The deadline of a call that is sent at time `now`: one timeout later,
    /// or the end of time where that would lie beyond it.
    pub open spec fn deadline(self, now: u64) -> u64 {
        if now + self.timeout > u64::MAX {
            u64::MAX
        } else {
            (now + self.timeout) as u64
        }
    }

    /// The state after a call was registered at time `now`.
    pub open spec fn send(self, now: u64) -> ClientState {
        ClientState { table: self.table.register(self.deadline(now)), ..self }
    }

    /// The state after the listener has routed one envelope: to the waiter
    /// that its correlation id names, else to the queue.
    pub open spec fn receive(self, envelope: ChatSrvResponse) -> ClientState {
        match self.table.waiter_of(envelope.corr_id) {
            Some(id) => ClientState { table: self.table.deliver(id, envelope.resp), ..self },
            None => ClientState { queue: self.queue.push(envelope), ..self },
        }
    }

    /// The state after the listener has handled one inbound event.
    pub open spec fn listen(self, event: Inbound) -> ClientState {
        match event {
            Inbound::Frame(envelope) => self.receive(envelope),
            Inbound::Malformed => self,
            Inbound::Closed => ClientState { table: self.table.close(), ..self },
        }
    }

    /// What the listener reports about one inbound event.
    pub open spec fn step(self, event: Inbound) -> ListenerStep {
        match event {
            Inbound::Frame(envelope) => match self.table.waiter_of(envelope.corr_id) {
                Some(id) => ListenerStep::Delivered { corr_id: id },
                None => ListenerStep::Queued,
            },
            Inbound::Malformed => ListenerStep::Skipped,
            Inbound::Closed => ListenerStep::Stopped,
        }
    }

    /// The state after the listener has handled `events`, first to last.
    pub open spec fn listen_all(self, events: Seq<Inbound>) -> ClientState
        decreases events.len(),
    {
        if events.len() == 0 {
            self
        } else {
            self.listen_all(events.drop_last()).listen(events.last())
        }
    }

    /// The state after the caller of `id` asked after its call at time `now`.
    pub open spec fn poll(self, id: u64, now: u64) -> ClientState {
        ClientState { table: self.table.settle(id, now), ..self }
    }

    /// The state after the call `id` was given up.
    pub open spec fn abandon(self, id: u64) -> ClientState {
        ClientState { table: self.table.forget(id), ..self }
    }

    /// The state after the connection was shut down.
    pub open spec fn shutdown(self) -> ClientState {
        ClientState { table: self.table.close(), ..self }
    }

    /// What a consumer that asks for the next unsolicited message gets: the
    /// oldest one; nothing yet while the queue is empty and the connection
    /// open; an error once the queue is empty and the connection closed.
    pub open spec fn next(self) -> Result<Option<ChatSrvResponse>, ClientError> {
        if self.queue.len() > 0 {
            Ok(Some(self.queue[0]))
        } else if self.table.open {
            Ok(None)
        } else {
            Err(ClientError::ConnectionClosed)
        }
    }

    /// The state after a consumer asked for the next unsolicited message.
    pub open spec fn pull(self) -> ClientState {
        if self.queue.len() > 0 {
            ClientState { queue: self.queue.drop_first(), ..self }
        } else {
            self
        }
    }
}

/// One thing that happens to a client: a call of one of its operations.
pub enum Step {
    /// A caller starts a call at time `now`.
    Send { now: u64 },
    /// The listener handles an inbound event.
    Listen(Inbound),
    /// The caller of `id` asks after its call at time `now`.
    Poll { id: u64, now: u64 },
    /// The call `id` is given up because its frame could not be written.
    Abandon { id: u64 },
    /// The connection is shut down.
    Shutdown,
    /// A consumer asks for the next unsolicited message.
    Pull,
    /// The timeout for later calls is set.
    SetTimeout { millis: u64 },
}

impl ClientState {
    /// The state after one step. A call that cannot be started changes nothing.
    pub open spec fn apply(self, step: Step) -> ClientState {
        match step {
            Step::Send { now } => if self.table.can_register() {
                self.send(now)
            } else {
                self
            },
            Step::Listen(event) => self.listen(event),
            Step::Poll { id, now } => self.poll(id, now),
            Step::Abandon { id } => self.abandon(id),
            Step::Shutdown => self.shutdown(),
            Step::Pull => self.pull(),
            Step::SetTimeout { millis } => ClientState { timeout: millis, ..self },
        }
    }

    /// The state after `steps`, first to last, in whatever way the callers,
    /// the listener and the consumers have taken their turns.
    pub open spec fn run(self, steps: Seq<Step>) -> ClientState
        decreases steps.len(),
    {
        if steps.len() == 0 {
            self
        } else {
            self.run(steps.drop_last()).apply(steps.last())
        }
    }
}

} // verus!
