//! The client: dispatcher, listener and connection state in one value.
//!
//! The client does no input or output and never waits. Whoever owns the
//! connection writes the frames that the client hands out, feeds it what
//! arrives, and tells it the time; the client decides what each event means.
//!
//! Time is a count of milliseconds on a clock of the owner's choice that
//! never runs backwards.
use crate::commands;
use crate::decimal::parse_decimal;
use crate::error::ClientError;
use crate::json::{json_string, to_json_string};
use crate::model::{ClientState, Inbound, ListenerStep, Poll};
use crate::queue::UnsolicitedQueue;
use crate::responses::ChatSrvResponse;
use crate::table::CorrelationTable;
use crate::types::ChatType;
use crate::wire::{envelope, frame_request};
use vstd::prelude::*;
use vstd::string::*;

verus! {

/// A call that has been registered and is ready to be written.
#[derive(Debug, Clone)]
pub struct Outbound {
    /// The correlation id of the call; ask after the call under it.
    pub corr_id: u64,
    /// The frame to write to the connection, as one whole message.
    pub frame: String,
}

/// The state of one connection to the chat service: the correlation table,
/// the queue of unsolicited messages and the timeout.
///
/// Each operation is one step of the state machine in `model`. A caller
/// starts a call with `send_command`, writes the frame it gets, and asks
/// after the call with `poll` until the call is over. The reader of the
/// connection hands every event to `message_listener`. Consumers pull
/// unsolicited messages with `next_message`.
pub struct ChatClient {
    uri: String,
    timeout: u64,
    command_waiters: CorrelationTable,
    message_queue: UnsolicitedQueue,
}

impl ChatClient {
    /// The state of the client as a mathematical value.
    pub closed spec fn view(self) -> ClientState {
        ClientState {
            table: self.command_waiters@,
            queue: self.message_queue@,
            timeout: self.timeout,
        }
    }

    /// The address of the service that this client talks to.
    pub closed spec fn address(self) -> Seq<char> {
        self.uri@
    }

    /// Every client is in a well-formed state.
    pub proof fn lemma_wf(self)
        ensures
            self@.wf(),
    {
        self.command_waiters.lemma_wf();
    }

    /// What sending a command that is the JSON value `command_json` does at
    /// time `now`: on an open connection with ids left, the call is
    /// registered under the next id, under which nothing was registered
    /// before, and its frame is handed out; otherwise nothing changes and
    /// the reason is returned.
    pub open spec fn sends(
        before: ClientState,
        command_json: Seq<char>,
        now: u64,
        after: ClientState,
        sent: Result<Outbound, ClientError>,
    ) -> bool {
        if before.table.can_register() {
            &&& after == before.send(now)
            &&& sent matches Ok(out)
            &&& out.corr_id == before.table.next_id()
            &&& !before.table.calls.contains_key(out.corr_id)
            &&& out.frame@ == envelope(out.corr_id, command_json)
        } else {
            &&& after == before
            &&& sent == Err::<Outbound, ClientError>(before.table.register_error())
        }
    }

    /// The client of a connection to `uri` that has just been set up: no
    /// call registered, no message queued, a timeout of three seconds.
    pub fn start(uri: &str) -> (client: ChatClient)
        ensures
            client@ == ClientState::initial(),
            client.address() == uri@,
    {
        ChatClient {
            uri: String::from_str(uri),
            timeout: 3000,
            command_waiters: CorrelationTable::new(),
            message_queue: UnsolicitedQueue::new(),
        }
    }

    /// The address of the service that this client talks to.
    pub fn uri(&self) -> (uri: &str)
        ensures
            uri@ == self.address(),
    {
        self.uri.as_str()
    }

    /// How long a call waits for its response, in milliseconds.
    pub fn timeout(&self) -> (millis: u64)
        ensures
            millis == self@.timeout,
    {
        self.timeout
    }

    /// Sets how long the calls that start from now on wait for their
    /// response. Calls that are under way keep their deadline.
    pub fn set_timeout(&mut self, millis: u64)
        ensures
            final(self).address() == old(self).address(),
            final(self)@ == (ClientState { timeout: millis, ..old(self)@ }),
    {
        self.timeout = millis;
    }

    /// Whether the connection is still open.
    pub fn is_open(&self) -> (open: bool)
        ensures
            open == self@.table.open,
    {
        self.command_waiters.is_open()
    }

    /// Whether the call `corr_id` still waits for its response.
    pub fn is_waiting(&self, corr_id: u64) -> (waiting: bool)
        ensures
            waiting == self@.table.awaiting(corr_id),
    {
        self.command_waiters.is_awaiting(corr_id)
    }

    /// Whether the correlation table holds an entry for `corr_id`.
    pub fn is_registered(&self, corr_id: u64) -> (registered: bool)
        ensures
            registered == self@.table.calls.contains_key(corr_id),
    {
        self.command_waiters.is_registered(corr_id)
    }

    /// How many unsolicited messages wait to be pulled.
    pub fn queued(&self) -> (count: usize)
        ensures
            count == self@.queue.len(),
    {
        self.message_queue.len()
    }

    /// Registers a call for a command that is already a JSON value, and
    /// builds its frame.
    pub fn send_encoded(&mut self, command_json: &str, now: u64) -> (sent: Result<
        Outbound,
        ClientError,
    >)
        ensures
            final(self).address() == old(self).address(),
            Self::sends(old(self)@, command_json@, now, final(self)@, sent),
    {
        let deadline: u64 = now.saturating_add(self.timeout);
        match self.command_waiters.register(deadline) {
            Ok(corr_id) => Ok(Outbound { corr_id, frame: frame_request(corr_id, command_json) }),
            Err(e) => Err(e),
        }
    }

    /// Starts a call: hands out the next correlation id, registers a waiter
    /// under it with the deadline `now` plus the timeout, and builds the
    /// frame that carries `command`.
    ///
    /// The caller writes the frame and then asks after the call with `poll`.
    pub fn send_command(&mut self, command: &str, now: u64) -> (sent: Result<
        Outbound,
        ClientError,
    >)
        ensures
            final(self).address() == old(self).address(),
            Self::sends(old(self)@, json_string(command@), now, final(self)@, sent),
    {
        match to_json_string(command) {
            Ok(literal) => self.send_encoded(literal.as_str(), now),
            Err(error) => Err(error),
        }
    }

    /// Gives up the call `corr_id` because its frame could not be written:
    /// the call leaves the table, and the caller is to be told `Connection`.
    pub fn send_failed(&mut self, corr_id: u64) -> (error: ClientError)
        ensures
            final(self).address() == old(self).address(),
            final(self)@ == old(self)@.abandon(corr_id),
            error == ClientError::Connection,
    {
        self.command_waiters.forget(corr_id);
        ClientError::Connection
    }

    /// Asks after the call `corr_id` at time `now`.
    ///
    /// A call that is over is taken off the table and its outcome returned:
    /// the response, `ConnectionClosed`, or `Timeout` once the deadline has
    /// come. A call that still waits stays, and the time left is returned.
    /// An id under which nothing is registered gives `UnknownCall`.
    pub fn poll(&mut self, corr_id: u64, now: u64) -> (poll: Poll)
        ensures
            final(self).address() == old(self).address(),
            final(self)@ == old(self)@.poll(corr_id, now),
            poll == old(self)@.table.outcome(corr_id, now),
    {
        self.command_waiters.settle(corr_id, now)
    }

    /// One step of the listener: handles one inbound event.
    ///
    /// An envelope whose correlation id names a waiting call is delivered to
    /// that call; every other envelope is queued as unsolicited. A malformed
    /// frame is passed over and changes nothing. When the connection is
    /// closed, every waiter is released.
    pub fn message_listener(&mut self, event: Inbound) -> (step: ListenerStep)
        ensures
            final(self).address() == old(self).address(),
            final(self)@ == old(self)@.listen(event),
            step == old(self)@.step(event),
    {
        match event {
            Inbound::Frame(envelope) => {
                let ChatSrvResponse { corr_id, resp } = envelope;
                let target = match &corr_id {
                    Some(text) => parse_decimal(text.as_str()),
                    None => None,
                };
                match target {
                    Some(id) => match self.command_waiters.deliver(id, resp) {
                        None => ListenerStep::Delivered { corr_id: id },
                        Some(resp) => {
                            self.message_queue.push(ChatSrvResponse { corr_id, resp });
                            ListenerStep::Queued
                        },
                    },
                    None => {
                        self.message_queue.push(ChatSrvResponse { corr_id, resp });
                        ListenerStep::Queued
                    },
                }
            },
            Inbound::Malformed => ListenerStep::Skipped,
            Inbound::Closed => {
                self.command_waiters.close();
                ListenerStep::Stopped
            },
        }
    }

    /// Shuts the connection down: every waiter is released with
    /// `ConnectionClosed`, and no call can be started any more. Messages
    /// that are queued stay for their consumers.
    pub fn shutdown(&mut self)
        ensures
            final(self).address() == old(self).address(),
            final(self)@ == old(self)@.shutdown(),
    {
        self.command_waiters.close();
    }

    /// Pulls the next unsolicited message, oldest first.
    ///
    /// `Ok(None)` says that the queue is empty for now; once the connection
    /// is closed and the queue empty, the answer is `ConnectionClosed`.
    pub fn next_message(&mut self) -> (next: Result<Option<ChatSrvResponse>, ClientError>)
        ensures
            final(self).address() == old(self).address(),
            final(self)@ == old(self)@.pull(),
            next == old(self)@.next(),
    {
        let open = self.command_waiters.is_open();
        match self.message_queue.pop() {
            Some(message) => Ok(Some(message)),
            None => if open {
                Ok(None)
            } else {
                Err(ClientError::ConnectionClosed)
            },
        }
    }
}

impl ChatClient {
    /// Starts the call that asks for the active user. Its response is read
    /// with `ChatResponse::into_active_user`.
    pub fn api_get_active_user(&mut self, now: u64) -> (sent: Result<Outbound, ClientError>)
        ensures
            final(self).address() == old(self).address(),
            Self::sends(old(self)@, json_string(commands::active_user()), now, final(self)@, sent),
    {
        let command = commands::active_user_command();
        self.send_command(command.as_str(), now)
    }

    /// Starts the call that asks for the list of chats. Its response is read
    /// with `ChatResponse::into_chats`.
    pub fn api_chats(&mut self, now: u64) -> (sent: Result<Outbound, ClientError>)
        ensures
            final(self).address() == old(self).address(),
            Self::sends(old(self)@, json_string(commands::chats()), now, final(self)@, sent),
    {
        let command = commands::chats_command();
        self.send_command(command.as_str(), now)
    }

    /// Starts the call that asks for the address of the user. Its response
    /// is read with `ChatResponse::into_user_address`.
    pub fn api_get_user_address(&mut self, now: u64) -> (sent: Result<Outbound, ClientError>)
        ensures
            final(self).address() == old(self).address(),
            Self::sends(
                old(self)@,
                json_string(commands::show_address()),
                now,
                final(self)@,
                sent,
            ),
    {
        let command = commands::show_address_command();
        self.send_command(command.as_str(), now)
    }

    /// Starts the call that creates an address for the user `user_id`. Its
    /// response is read with `ChatResponse::into_created_address`.
    pub fn api_create_user_address(&mut self, user_id: u64, now: u64) -> (sent: Result<
        Outbound,
        ClientError,
    >)
        ensures
            final(self).address() == old(self).address(),
            Self::sends(
                old(self)@,
                json_string(commands::create_address(user_id)),
                now,
                final(self)@,
                sent,
            ),
    {
        let command = commands::create_address_command(user_id);
        self.send_command(command.as_str(), now)
    }

    /// Starts the call that asks for the members of the group `group_id`.
    /// Its response is read with `ChatResponse::into_group_members`.
    pub fn api_list_members(&mut self, group_id: u64, now: u64) -> (sent: Result<
        Outbound,
        ClientError,
    >)
        ensures
            final(self).address() == old(self).address(),
            Self::sends(
                old(self)@,
                json_string(commands::list_members(group_id)),
                now,
                final(self)@,
                sent,
            ),
    {
        let command = commands::list_members_command(group_id);
        self.send_command(command.as_str(), now)
    }

    /// Starts the call that switches the automatic acceptance of contact
    /// requests on or off. Any response ends it well.
    pub fn api_auto_accept(&mut self, on: bool, now: u64) -> (sent: Result<Outbound, ClientError>)
        ensures
            final(self).address() == old(self).address(),
            Self::sends(
                old(self)@,
                json_string(commands::auto_accept(on)),
                now,
                final(self)@,
                sent,
            ),
    {
        let command = commands::auto_accept_command(on);
        self.send_command(command.as_str(), now)
    }

    /// Starts the call that sends the messages in `messages_json`, a JSON
    /// array of composed messages, to the chat `chat_id` of kind
    /// `chat_type`. Its response is read with
    /// `ChatResponse::into_new_chat_items`.
    pub fn api_send_messages(
        &mut self,
        chat_type: ChatType,
        chat_id: u64,
        messages_json: &str,
        now: u64,
    ) -> (sent: Result<Outbound, ClientError>)
        ensures
            final(self).address() == old(self).address(),
            Self::sends(
                old(self)@,
                json_string(commands::send_messages(chat_type, chat_id, messages_json@)),
                now,
                final(self)@,
                sent,
            ),
    {
        let command = commands::send_messages_command(chat_type, chat_id, messages_json);
        self.send_command(command.as_str(), now)
    }

    /// Starts the call that sends `message` as one text message to the chat
    /// `chat_id` of kind `chat_type`. Its response is read with
    /// `ChatResponse::into_new_chat_items`.
    pub fn api_send_text_message(
        &mut self,
        chat_type: ChatType,
        chat_id: u64,
        message: &str,
        now: u64,
    ) -> (sent: Result<Outbound, ClientError>)
        ensures
            final(self).address() == old(self).address(),
            Self::sends(
                old(self)@,
                json_string(
                    commands::send_messages(
                        chat_type,
                        chat_id,
                        commands::text_messages_json(message@),
                    ),
                ),
                now,
                final(self)@,
                sent,
            ),
    {
        match commands::text_messages(message) {
            Ok(messages) => self.api_send_messages(chat_type, chat_id, messages.as_str(), now),
            Err(error) => Err(error),
        }
    }
}

} // verus!
