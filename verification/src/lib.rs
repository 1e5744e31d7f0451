//! Client-side correlation engine for the SimpleX chat service protocol.
//!
//! One message-oriented connection carries many logical calls. Every call gets
//! a correlation id, replies are matched to their caller by that id, and
//! everything the service sends on its own account is kept, in order, for
//! whoever pulls the next message.
pub mod client;
pub mod commands;
pub mod decimal;
pub mod error;
pub mod json;
pub mod model;
pub mod queue;
pub mod responses;
pub mod table;
pub mod theorems;
pub mod types;
pub mod wire;

pub use client::{ChatClient, Outbound};
pub use error::ClientError;
pub use model::{CallState, ClientState, Inbound, ListenerStep, Poll, TableState};
pub use queue::UnsolicitedQueue;
pub use responses::{ChatResponse, ChatSrvResponse};
pub use table::CorrelationTable;
pub use types::{
    AChatItem, AutoAccept, Chat, ChatError, ChatErrorType, ChatInfo, ChatItem, ChatType,
    ComposedMessage, ConnLinkContact, Connection, Contact, ContactLink, Direction, Group,
    GroupInfo, GroupMember, GroupMemberRole, GroupProfile, LocalProfile, Meta, MsgContent,
    Profile, User, UserContactLink, UserContactRequest, UserInfo, UtcTime,
};
