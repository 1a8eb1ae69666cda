//! The typed records the host and client exchange: conversations,
//! messages, and attachments, as the catalog's typed responses decode to.

use vstd::prelude::*;

verus! {

/// One conversation, as listed by the host.
#[derive(Debug)]
pub struct Conversation {
    pub display_name: String,
    pub chat_identifier: String,
    pub latest_text: String,
    pub has_unread: bool,
    pub addresses: String,
    pub is_selected: bool,
    pub pinned: bool,
}

/// What kind of message a record stands for: a normal one, or a typing
/// indicator starting or stopping.
#[derive(Clone, Copy, Debug, PartialEq, Eq, Structural)]
pub enum MessageType {
    Normal,
    Typing,
    Idle,
}

impl Default for MessageType {
    /// A message is normal unless said otherwise.
    fn default() -> (r: MessageType)
        ensures
            r is Normal,
    {
        MessageType::Normal
    }
}

/// One message of a conversation.
#[derive(Debug)]
pub struct Message {
    pub guid: String,
    pub date_read: Option<i64>,
    pub date: i64,
    pub balloon_bundle_id: String,
    pub cache_has_attachments: bool,
    pub attachments: Vec<Attachment>,
    pub imessage: bool,
    pub is_from_me: bool,
    pub subject: String,
    pub text: String,
    pub associated_message_guid: String,
    pub associated_message_type: i16,
    pub sender: Option<String>,
    pub chat_identifier: Option<String>,
    pub message_type: MessageType,
}

/// One attachment record of a message.
#[derive(Debug)]
pub struct Attachment {
    pub mime_type: String,
    pub path: String,
}

impl Message {
    /// The synthetic record standing for "someone is typing" in the given
    /// chat: every content field empty, only the chat and the type set.
    pub fn typing(chat: &str) -> (r: Message)
        ensures
            r.guid@ == Seq::<char>::empty(),
            r.date == 0,
            r.balloon_bundle_id@ == Seq::<char>::empty(),
            !r.cache_has_attachments,
            r.imessage,
            !r.is_from_me,
            r.subject@ == Seq::<char>::empty(),
            r.text@ == Seq::<char>::empty(),
            r.associated_message_guid@ == Seq::<char>::empty(),
            r.associated_message_type == 0,
            r.message_type is Typing,
            r.chat_identifier matches Some(c) && c@ == chat@,
            r.attachments@.len() == 0,
            r.date_read is None,
            r.sender is None,
    {
        proof {
            reveal_strlit("");
        }
        Message {
            guid: String::new(),
            date: 0,
            balloon_bundle_id: String::new(),
            cache_has_attachments: false,
            imessage: true,
            is_from_me: false,
            subject: String::new(),
            text: String::new(),
            associated_message_guid: String::new(),
            associated_message_type: 0,
            message_type: MessageType::Typing,
            chat_identifier: Some(chat.to_owned()),
            attachments: Vec::new(),
            date_read: None,
            sender: None,
        }
    }

    /// The synthetic record standing for "typing stopped" in the given
    /// chat.
    pub fn idle(chat: &str) -> (r: Message)
        ensures
            r.guid@ == Seq::<char>::empty(),
            r.date == 0,
            r.balloon_bundle_id@ == Seq::<char>::empty(),
            !r.cache_has_attachments,
            r.imessage,
            !r.is_from_me,
            r.subject@ == Seq::<char>::empty(),
            r.text@ == Seq::<char>::empty(),
            r.associated_message_guid@ == Seq::<char>::empty(),
            r.associated_message_type == 0,
            r.message_type is Idle,
            r.chat_identifier matches Some(c) && c@ == chat@,
            r.attachments@.len() == 0,
            r.date_read is None,
            r.sender is None,
    {
        proof {
            reveal_strlit("");
        }
        Message {
            guid: String::new(),
            date: 0,
            balloon_bundle_id: String::new(),
            cache_has_attachments: false,
            imessage: true,
            is_from_me: false,
            subject: String::new(),
            text: String::new(),
            associated_message_guid: String::new(),
            associated_message_type: 0,
            message_type: MessageType::Idle,
            chat_identifier: Some(chat.to_owned()),
            attachments: Vec::new(),
            date_read: None,
            sender: None,
        }
    }
}

/// The payload of a typing notification: which chat, and whether typing
/// started or stopped.
#[derive(Debug)]
pub struct TypingNotification {
    pub id: String,
    pub command: crate::catalog::APICommand,
    pub chat: String,
    pub active: bool,
}

/// The payload of a new-message notification.
#[derive(Debug)]
pub struct NewMessageNotification {
    pub id: String,
    pub command: crate::catalog::APICommand,
    pub message: Message,
}

} // verus!
