//! What the service answers, and how a caller reads the answer it expects.
use crate::error::ClientError;
use crate::types::{
    AChatItem, Chat, ChatError, ConnLinkContact, Contact, ContactLink, Group, GroupInfo,
    GroupMember, GroupMemberRole, Profile, User, UserContactRequest, UserInfo,
};
use std::collections::HashMap;
use vstd::prelude::*;

verus! {

/// The payload of one message from the service.
///
/// A failure that the service reports (`ChatError`, `ChatCmdError`) is a
/// payload like any other: the correlation layer hands it to the caller and
/// does not look inside.
#[derive(Debug, Clone)]
pub enum ChatResponse {
    ActiveUser { user: User, _unknown_fields: HashMap<String, serde_json::Value> },
    ChatError {
        user_: Option<User>,
        chat_error: ChatError,
        _unknown_fields: HashMap<String, serde_json::Value>,
    },
    ChatCmdError {
        user_: Option<User>,
        chat_error: ChatError,
        _unknown_fields: HashMap<String, serde_json::Value>,
    },
    ChatRunning { _unknown_fields: HashMap<String, serde_json::Value> },
    ChatStarted { _unknown_fields: HashMap<String, serde_json::Value> },
    ChatStopped { _unknown_fields: HashMap<String, serde_json::Value> },
    Chats { chats: Vec<Chat>, _unknown_fields: HashMap<String, serde_json::Value> },
    ContactConnected {
        contact: Contact,
        user: User,
        user_custom_profile: Option<Profile>,
        _unknown_fields: HashMap<String, serde_json::Value>,
    },
    GroupMembers { user: User, group: Group, _unknown_fields: HashMap<String, serde_json::Value> },
    NewChatItems {
        user: User,
        chat_items: Vec<AChatItem>,
        _unknown_fields: HashMap<String, serde_json::Value>,
    },
    ReceivedGroupInvitation {
        user: User,
        group_info: GroupInfo,
        contact: Contact,
        member_role: GroupMemberRole,
        _unknown_fields: HashMap<String, serde_json::Value>,
    },
    UserContactLinkCreated {
        user: User,
        conn_link_contact: ConnLinkContact,
        _unknown_fields: HashMap<String, serde_json::Value>,
    },
    UsersList { users: Vec<UserInfo>, _unknown_fields: HashMap<String, serde_json::Value> },
    ContactLink {
        user: User,
        contact_link: ContactLink,
        _type: String,
        unknown_fields: HashMap<String, serde_json::Value>,
    },
    ContactRequest { contact_request: UserContactRequest },
    Unknown(serde_json::Value),
}

/// One decoded message from the service: the payload, and the correlation id
/// of the request that it answers, if it answers one.
#[derive(Debug, Clone)]
pub struct ChatSrvResponse {
    pub corr_id: Option<String>,
    pub resp: ChatResponse,
}

impl ChatResponse {
    /// The user that an `ActiveUser` response carries.
    pub fn into_active_user(self) -> (user: Result<User, ClientError>)
        ensures
            user == (match self {
                ChatResponse::ActiveUser { user, .. } => Ok::<User, ClientError>(user),
                _ => Err(ClientError::UnexpectedResponse),
            }),
    {
        match self {
            ChatResponse::ActiveUser { user, .. } => Ok(user),
            _ => Err(ClientError::UnexpectedResponse),
        }
    }

    /// The chats that a `Chats` response lists.
    pub fn into_chats(self) -> (chats: Result<Vec<Chat>, ClientError>)
        ensures
            chats == (match self {
                ChatResponse::Chats { chats, .. } => Ok::<Vec<Chat>, ClientError>(chats),
                _ => Err(ClientError::UnexpectedResponse),
            }),
    {
        match self {
            ChatResponse::Chats { chats, .. } => Ok(chats),
            _ => Err(ClientError::UnexpectedResponse),
        }
    }

    /// The address of the user: the link of a `ContactLink` response, and no
    /// address where the service answers with a command error.
    pub fn into_user_address(self) -> (address: Result<Option<ConnLinkContact>, ClientError>)
        ensures
            address == (match self {
                ChatResponse::ContactLink { contact_link, .. } => Ok::<
                    Option<ConnLinkContact>,
                    ClientError,
                >(Some(contact_link.conn_link_contact)),
                ChatResponse::ChatCmdError { .. } => Ok(None),
                _ => Err(ClientError::UnexpectedResponse),
            }),
    {
        match self {
            ChatResponse::ContactLink { contact_link, .. } => Ok(
                Some(contact_link.conn_link_contact),
            ),
            ChatResponse::ChatCmdError { .. } => Ok(None),
            _ => Err(ClientError::UnexpectedResponse),
        }
    }

    /// The address that a `UserContactLinkCreated` response announces.
    pub fn into_created_address(self) -> (address: Result<ConnLinkContact, ClientError>)
        ensures
            address == (match self {
                ChatResponse::UserContactLinkCreated { conn_link_contact, .. } => Ok::<
                    ConnLinkContact,
                    ClientError,
                >(conn_link_contact),
                _ => Err(ClientError::UnexpectedResponse),
            }),
    {
        match self {
            ChatResponse::UserContactLinkCreated { conn_link_contact, .. } => Ok(conn_link_contact),
            _ => Err(ClientError::UnexpectedResponse),
        }
    }

    /// The members of the group that a `GroupMembers` response describes.
    pub fn into_group_members(self) -> (members: Result<Vec<GroupMember>, ClientError>)
        ensures
            members == (match self {
                ChatResponse::GroupMembers { group, .. } => Ok::<Vec<GroupMember>, ClientError>(
                    group.members,
                ),
                _ => Err(ClientError::UnexpectedResponse),
            }),
    {
        match self {
            ChatResponse::GroupMembers { group, .. } => Ok(group.members),
            _ => Err(ClientError::UnexpectedResponse),
        }
    }

    /// The chat items that a `NewChatItems` response carries.
    pub fn into_new_chat_items(self) -> (items: Result<Vec<AChatItem>, ClientError>)
        ensures
            items == (match self {
                ChatResponse::NewChatItems { chat_items, .. } => Ok::<Vec<AChatItem>, ClientError>(
                    chat_items,
                ),
                _ => Err(ClientError::UnexpectedResponse),
            }),
    {
        match self {
            ChatResponse::NewChatItems { chat_items, .. } => Ok(chat_items),
            _ => Err(ClientError::UnexpectedResponse),
        }
    }
}

} // verus!
