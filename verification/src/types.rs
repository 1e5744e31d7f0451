//! Domain objects of the chat service, as they travel inside responses.
//!
//! They are plain containers. Every object keeps the members that it does not
//! know by name in `_unknown_fields`, so that nothing the service sent is lost.
use std::collections::HashMap;
use vstd::prelude::*;
use vstd::string::*;

verus! {

/// `serde_json::Value`, a JSON value of any shape. The objects carry such
/// values along; nothing here looks inside them.
#[verifier::external_type_specification]
#[verifier::external_body]
pub struct ExJsonValue(serde_json::Value);

/// `Clone::clone` of `serde_json::Value`, which the derived `Clone` of every
/// object that holds such a value calls. Believed of it: the copy is the same
/// JSON value.
pub assume_specification[ <serde_json::Value as Clone>::clone ](value: &serde_json::Value) -> (copy:
    serde_json::Value)
    ensures
        copy == *value,
;

/// A point in time on the UTC time line: whole seconds since the start of
/// 1970 and the nanoseconds past that second.
#[derive(Debug, Clone, Copy, Hash, PartialEq, Eq, Structural)]
pub struct UtcTime {
    pub seconds: i64,
    pub nanoseconds: u32,
}

#[derive(Debug, Clone)]
pub struct LocalProfile {
    pub profile_id: u64,
    pub display_name: String,
    pub full_name: String,
    pub image: Option<String>,
    pub contact_link: Option<String>,
    pub local_alias: String,
    pub _unknown_fields: HashMap<String, serde_json::Value>,
}

#[derive(Debug, Clone)]
pub struct User {
    pub user_id: u64,
    pub agent_user_id: String,
    pub user_contact_id: u64,
    pub local_display_name: String,
    pub profile: LocalProfile,
    pub active_user: bool,
    pub show_ntfs: bool,
    pub _unknown_fields: HashMap<String, serde_json::Value>,
}

#[derive(Debug, Clone)]
pub struct UserInfo {
    pub user: User,
    pub unread_count: u64,
    pub _unknown_fields: HashMap<String, serde_json::Value>,
}

#[derive(Debug, Clone)]
pub struct Contact {
    pub contact_id: u64,
    pub local_display_name: String,
    pub via_group: Option<u64>,
    pub _unknown_fields: HashMap<String, serde_json::Value>,
}

#[derive(Debug, Clone)]
pub enum ChatInfo {
    Direct { contact: Contact, _unknown_fields: HashMap<String, serde_json::Value> },
    Group { group_info: GroupInfo, _unknown_fields: HashMap<String, serde_json::Value> },
    ContactRequest {
        contact_request: UserContactRequest,
        _unknown_fields: HashMap<String, serde_json::Value>,
    },
    Unknown(serde_json::Value),
}

#[derive(Debug, Clone)]
pub struct Group {
    pub group_info: GroupInfo,
    pub members: Vec<GroupMember>,
    pub _unknown_fields: HashMap<String, serde_json::Value>,
}

#[derive(Debug, Clone)]
pub struct GroupInfo {
    pub group_id: u64,
    pub local_display_name: String,
    pub group_profile: GroupProfile,
    pub membership: GroupMember,
    pub _unknown_fields: HashMap<String, serde_json::Value>,
}

#[derive(Debug, Clone)]
pub struct GroupProfile {
    pub display_name: String,
    pub full_name: String,
    pub image: Option<String>,
    pub _unknown_fields: HashMap<String, serde_json::Value>,
}

#[derive(Debug, Clone)]
pub struct GroupMember {
    pub group_member_id: u64,
    pub member_id: String,
    pub member_role: GroupMemberRole,
    pub local_display_name: String,
    pub member_profile: Profile,
    pub member_contact_id: Option<u64>,
    pub active_conn: Option<Connection>,
    pub _unknown_fields: HashMap<String, serde_json::Value>,
}

#[derive(Debug, Clone)]
pub enum GroupMemberRole {
    /// The role of a profile that the group no longer knows, such as the
    /// author of a forwarded message who has left.
    Author,
    Observer,
    Member,
    Admin,
    Owner,
    Unknown(serde_json::Value),
}

#[derive(Debug, Clone)]
pub struct Profile {
    pub display_name: String,
    pub full_name: String,
    pub image: Option<String>,
    pub contact_link: Option<String>,
    pub _unknown_fields: HashMap<String, serde_json::Value>,
}

#[derive(Debug, Clone)]
pub struct AChatItem {
    pub chat_info: ChatInfo,
    pub chat_item: ChatItem,
    pub _unknown_fields: HashMap<String, serde_json::Value>,
}

#[derive(Debug, Clone)]
pub struct ChatItem {
    pub chat_dir: Direction,
    pub meta: Meta,
    pub _unknown_fields: HashMap<String, serde_json::Value>,
}

#[derive(Debug, Clone)]
pub enum Direction {
    DirectSnd,
    DirectRcv,
    GroupSnd,
    GroupRcv { group_member: GroupMember },
    Unknown(serde_json::Value),
}

#[derive(Debug, Clone)]
pub struct Meta {
    pub item_id: u64,
    pub item_ts: UtcTime,
    pub item_text: String,
    pub item_edited: bool,
    pub editable: bool,
    pub _unknown_fields: HashMap<String, serde_json::Value>,
}

#[derive(Debug, Clone)]
pub struct Chat {
    pub chat_info: ChatInfo,
    pub _unknown_fields: HashMap<String, serde_json::Value>,
}

#[derive(Debug, Clone)]
pub struct UserContactLink {
    pub conn_req_contact: String,
    pub auto_accept: Option<AutoAccept>,
    pub _unknown_fields: HashMap<String, serde_json::Value>,
}

/// The two forms of the link under which a user can be reached.
#[derive(Debug, Clone)]
pub struct ConnLinkContact {
    pub conn_full_link: String,
    pub conn_short_link: Option<String>,
    pub _unknown_fields: HashMap<String, serde_json::Value>,
}

/// The address of a user, as the service shows it.
#[derive(Debug, Clone)]
pub struct ContactLink {
    pub conn_link_contact: ConnLinkContact,
    pub _unknown_fields: HashMap<String, serde_json::Value>,
}

#[derive(Debug, Clone)]
pub struct AutoAccept {
    pub accept_incognito: bool,
    pub auto_reply: Option<MsgContent>,
    pub _unknown_fields: HashMap<String, serde_json::Value>,
}

#[derive(Debug, Clone)]
pub enum MsgContent {
    Text { text: String, _unknown_fields: HashMap<String, serde_json::Value> },
    Link { text: String, _unknown_fields: HashMap<String, serde_json::Value> },
    Image {
        /// The picture, base64 encoded.
        image: String,
        _unknown_fields: HashMap<String, serde_json::Value>,
    },
    File { text: String, _unknown_fields: HashMap<String, serde_json::Value> },
    Unknown(serde_json::Value),
}

#[derive(Debug, Clone)]
pub enum ChatError {
    Error { error_type: ChatErrorType, _unknown_fields: HashMap<String, serde_json::Value> },
    ErrorAgent { agent_error: serde_json::Value, _unknown_fields: HashMap<String, serde_json::Value> },
    ErrorStore { store_error: serde_json::Value },
    Unknown(serde_json::Value),
}

#[derive(Debug, Clone)]
pub enum ChatErrorType {
    NoActiveUser,
    ActiveUserExists,
    Unknown(serde_json::Value),
}

#[derive(Debug, Clone)]
pub struct Connection {
    pub conn_id: u64,
    pub _unknown_fields: HashMap<String, serde_json::Value>,
}

#[derive(Debug, Clone)]
pub struct UserContactRequest {
    pub contact_request_id: u64,
    pub local_display_name: String,
    pub profile: Profile,
    pub created_at: UtcTime,
}

#[derive(Debug, Clone)]
pub struct ComposedMessage {
    pub file_path: Option<String>,
    pub quoted_item_id: Option<u64>,
    pub msg_content: MsgContent,
}

impl ComposedMessage {
    /// A message that is nothing but text: no file, no quoted item.
    pub fn text(message: &str) -> (composed: ComposedMessage)
        ensures
            composed.file_path is None,
            composed.quoted_item_id is None,
            composed.msg_content matches MsgContent::Text { text, _unknown_fields }
                && text@ == message@ && _unknown_fields@ == Map::<String, serde_json::Value>::empty(),
    {
        ComposedMessage {
            file_path: None,
            quoted_item_id: None,
            msg_content: MsgContent::Text {
                text: String::from_str(message),
                _unknown_fields: HashMap::new(),
            },
        }
    }
}

/// The kind of conversation that a chat reference points at.
#[derive(Debug, Clone, Copy, Hash, PartialEq, Eq, Structural)]
pub enum ChatType {
    Direct,
    Group,
    ContactRequest,
}

impl ChatType {
    /// The sigil that stands for this kind of chat in command text.
    pub open spec fn sigil(self) -> Seq<char> {
        match self {
            ChatType::Direct => seq!['@'],
            ChatType::Group => seq!['#'],
            ChatType::ContactRequest => seq!['<', '@'],
        }
    }

    /// Renders the chat kind as its command sigil: `@`, `#` or `<@`.
    pub fn to_string(&self) -> (text: String)
        ensures
            text@ == self.sigil(),
    {
        proof {
            reveal_strlit("@");
            reveal_strlit("#");
            reveal_strlit("<@");
        }
        let text = match self {
            ChatType::Direct => "@",
            ChatType::Group => "#",
            ChatType::ContactRequest => "<@",
        };
        assert(text@ =~= self.sigil());
        String::from_str(text)
    }
}

} // verus!
