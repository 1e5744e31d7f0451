//! The command texts that the convenience calls send.
//!
//! The service reads them; this layer only writes them.
use crate::decimal::{decimal, to_decimal};
use crate::error::ClientError;
use crate::json::{json_string, to_json_string};
use crate::types::ChatType;
use vstd::prelude::*;
use vstd::string::*;

verus! {

/// The command that asks for the active user.
pub open spec fn active_user() -> Seq<char> {
    "/u"@
}

/// The command that asks for the list of chats.
pub open spec fn chats() -> Seq<char> {
    "/chats"@
}

/// The command that asks for the address of the user.
pub open spec fn show_address() -> Seq<char> {
    "/show_address"@
}

/// The command that creates an address for the user `user_id`.
pub open spec fn create_address(user_id: u64) -> Seq<char> {
    "/_address "@ + decimal(user_id as nat)
}

/// The command that asks for the members of the group `group_id`.
pub open spec fn list_members(group_id: u64) -> Seq<char> {
    "/_members #"@ + decimal(group_id as nat)
}

/// The command that switches the automatic acceptance of contact requests.
pub open spec fn auto_accept(on: bool) -> Seq<char> {
    "/auto_accept "@ + (if on {
        "on"@
    } else {
        "off"@
    })
}

/// The command that sends the messages in `messages_json`, a JSON array of
/// composed messages, to the chat `chat_id` of kind `chat_type`.
pub open spec fn send_messages(chat_type: ChatType, chat_id: u64, messages_json: Seq<char>) -> Seq<
    char,
> {
    "/_send "@ + chat_type.sigil() + decimal(chat_id as nat) + " live=off ttl=default json "@
        + messages_json
}

/// The JSON array that holds one composed message which is nothing but the
/// text `message`.
pub open spec fn text_messages_json(message: Seq<char>) -> Seq<char> {
    "[{\"msgContent\":{\"text\":{\"text\":"@ + json_string(message) + "}}}]"@
}

/// Writes the command that asks for the active user.
pub fn active_user_command() -> (command: String)
    ensures
        command@ == active_user(),
{
    String::from_str("/u")
}

/// Writes the command that asks for the list of chats.
pub fn chats_command() -> (command: String)
    ensures
        command@ == chats(),
{
    String::from_str("/chats")
}

/// Writes the command that asks for the address of the user.
pub fn show_address_command() -> (command: String)
    ensures
        command@ == show_address(),
{
    String::from_str("/show_address")
}

/// Writes the command that creates an address for the user `user_id`.
pub fn create_address_command(user_id: u64) -> (command: String)
    ensures
        command@ == create_address(user_id),
{
    let mut command = String::from_str("/_address ");
    let id = to_decimal(user_id);
    command.append(id.as_str());
    command
}

/// Writes the command that asks for the members of the group `group_id`.
pub fn list_members_command(group_id: u64) -> (command: String)
    ensures
        command@ == list_members(group_id),
{
    let mut command = String::from_str("/_members #");
    let id = to_decimal(group_id);
    command.append(id.as_str());
    command
}

/// Writes the command that switches the automatic acceptance of contact
/// requests on or off.
pub fn auto_accept_command(on: bool) -> (command: String)
    ensures
        command@ == auto_accept(on),
{
    let mut command = String::from_str("/auto_accept ");
    if on {
        command.append("on");
    } else {
        command.append("off");
    }
    command
}

/// Writes the command that sends the messages in `messages_json` to a chat.
pub fn send_messages_command(chat_type: ChatType, chat_id: u64, messages_json: &str) -> (command:
    String)
    ensures
        command@ == send_messages(chat_type, chat_id, messages_json@),
{
    let mut command = String::from_str("/_send ");
    let sigil = chat_type.to_string();
    command.append(sigil.as_str());
    let id = to_decimal(chat_id);
    command.append(id.as_str());
    command.append(" live=off ttl=default json ");
    command.append(messages_json);
    command
}

/// Puts a text that is already a JSON string literal into the JSON array of
/// one composed text message.
pub fn frame_text_messages(message_json: &str) -> (messages: String)
    ensures
        messages@ == "[{\"msgContent\":{\"text\":{\"text\":"@ + message_json@ + "}}}]"@,
{
    let mut messages = String::from_str("[{\"msgContent\":{\"text\":{\"text\":");
    messages.append(message_json);
    messages.append("}}}]");
    messages
}

/// Writes the JSON array that holds `message` as one composed text message.
pub fn text_messages(message: &str) -> (messages: Result<String, ClientError>)
    ensures
        messages matches Ok(json) && json@ == text_messages_json(message@),
{
    match to_json_string(message) {
        Ok(literal) => Ok(frame_text_messages(literal.as_str())),
        Err(error) => Err(error),
    }
}

} // verus!
