//! The command catalog: the fixed vocabulary of commands the client can
//! exchange with the host, each with its canonical wire name, its eligible
//! transports, and the shape of its parameters and response.

use vstd::prelude::*;

verus! {

/// Every command of the API vocabulary. Commands carrying a payload the
/// host pushes on its own (battery status, typing, new message) are
/// receive-only notifications and declare no parameters.
#[derive(Clone, Copy, Debug, PartialEq, Eq, Structural)]
pub enum APICommand {
    GetChats,
    GetMessages,
    GetConversation,
    GetName,
    GetAttachment,
    GetIcon,
    GetPhotos,
    GetPhoto,
    SendMessage,
    SendTapback,
    DeleteChat,
    DeleteText,
    AttachmentData,
    SendTyping,
    BatteryStatus,
    Typing,
    NewMessage,
}

/// The typed response a command declares, decoded by the caller's codec.
#[derive(Clone, Copy, Debug, PartialEq, Eq, Structural)]
pub enum TypedResponse {
    /// A list of conversations.
    Conversations,
    /// A list of messages.
    Messages,
    /// A single conversation.
    Conversation,
    /// A plain string.
    Name,
    /// A list of photo records.
    Photos,
}

/// Catalog metadata of one command: which transports may carry it and how
/// its request and response are shaped.
pub struct CommandConfig {
    /// REST subdirectory under the base URL, if not the root.
    pub subdir: Option<String>,
    /// The REST transport may carry the command.
    pub rest: bool,
    /// The socket transport may carry the command.
    pub socket: bool,
    /// The response is a raw byte blob, possibly split across chunks.
    pub data_return: bool,
    /// The REST call is a multipart POST rather than a GET query.
    pub multipart: bool,
    /// Name of the multipart parameter whose entries are local files.
    pub files_key: Option<String>,
    /// The typed response declared, if any.
    pub return_type: Option<TypedResponse>,
    /// The command declares parameters and so can be sent at all.
    pub has_parameters: bool,
}

impl CommandConfig {
    /// Restore every field except the subdirectory to its default, as
    /// between two catalog entries.
    pub fn reset(&mut self)
        ensures
            final(self).subdir == old(self).subdir,
            final(self).rest,
            final(self).socket,
            !final(self).data_return,
            !final(self).multipart,
            final(self).files_key is None,
            final(self).return_type is None,
            !final(self).has_parameters,
    {
        self.rest = true;
        self.socket = true;
        self.data_return = false;
        self.multipart = false;
        self.files_key = None;
        self.return_type = None;
        self.has_parameters = false;
    }
}

/// The canonical wire name of each command.
pub open spec fn command_string_spec(c: APICommand) -> Seq<char> {
    match c {
        APICommand::GetChats => "get-chats"@,
        APICommand::GetMessages => "get-messages"@,
        APICommand::GetConversation => "get-conversation"@,
        APICommand::GetName => "get-name"@,
        APICommand::GetAttachment => "get-attachment"@,
        APICommand::GetIcon => "get-icon"@,
        APICommand::GetPhotos => "get-photos"@,
        APICommand::GetPhoto => "get-photo"@,
        APICommand::SendMessage => "send-message"@,
        APICommand::SendTapback => "send-tapback"@,
        APICommand::DeleteChat => "delete-chat"@,
        APICommand::DeleteText => "delete-text"@,
        APICommand::AttachmentData => "attachment-data"@,
        APICommand::SendTyping => "send-typing"@,
        APICommand::BatteryStatus => "battery-status"@,
        APICommand::Typing => "typing"@,
        APICommand::NewMessage => "new-message"@,
    }
}

impl APICommand {
    /// The canonical wire name of the command, e.g. `"get-chats"`.
    pub fn command_string(&self) -> (r: String)
        ensures
            r@ == command_string_spec(*self),
    {
        match self {
            APICommand::GetChats => String::from_str("get-chats"),
            APICommand::GetMessages => String::from_str("get-messages"),
            APICommand::GetConversation => String::from_str("get-conversation"),
            APICommand::GetName => String::from_str("get-name"),
            APICommand::GetAttachment => String::from_str("get-attachment"),
            APICommand::GetIcon => String::from_str("get-icon"),
            APICommand::GetPhotos => String::from_str("get-photos"),
            APICommand::GetPhoto => String::from_str("get-photo"),
            APICommand::SendMessage => String::from_str("send-message"),
            APICommand::SendTapback => String::from_str("send-tapback"),
            APICommand::DeleteChat => String::from_str("delete-chat"),
            APICommand::DeleteText => String::from_str("delete-text"),
            APICommand::AttachmentData => String::from_str("attachment-data"),
            APICommand::SendTyping => String::from_str("send-typing"),
            APICommand::BatteryStatus => String::from_str("battery-status"),
            APICommand::Typing => String::from_str("typing"),
            APICommand::NewMessage => String::from_str("new-message"),
        }
    }

    /// The command is a receive-only notification: the host pushes it, the
    /// client never sends it.
    pub fn is_notification(&self) -> (r: bool)
        ensures
            r == (*self is BatteryStatus || *self is Typing || *self is NewMessage),
    {
        match self {
            APICommand::BatteryStatus => true,
            APICommand::Typing => true,
            APICommand::NewMessage => true,
            _ => false,
        }
    }

    /// The catalog entry of the command.
    pub fn catalog_entry(&self) -> (r: CommandConfig)
        ensures
            r.rest == rest_eligible_spec(*self),
            r.socket == socket_eligible_spec(*self),
            r.data_return == data_return_spec(*self),
            r.multipart == (*self is SendMessage),
            r.return_type == return_type_spec(*self),
            r.has_parameters == has_parameters_spec(*self),
            r.subdir is Some <==> subdir_spec(*self) is Some,
            r.subdir matches Some(s) ==> Some(s@) == subdir_spec(*self),
            r.files_key is Some <==> *self is SendMessage,
            r.files_key matches Some(k) ==> k@ == "attachments"@,
    {
        let mut entry = CommandConfig {
            subdir: None,
            rest: true,
            socket: true,
            data_return: false,
            multipart: false,
            files_key: None,
            return_type: None,
            has_parameters: true,
        };
        match self {
            APICommand::GetChats => {
                entry.subdir = Some(String::from_str("requests"));
                entry.return_type = Some(TypedResponse::Conversations);
            },
            APICommand::GetMessages => {
                entry.subdir = Some(String::from_str("requests"));
                entry.return_type = Some(TypedResponse::Messages);
            },
            APICommand::GetConversation => {
                entry.subdir = Some(String::from_str("requests"));
                entry.return_type = Some(TypedResponse::Conversation);
            },
            APICommand::GetName => {
                entry.subdir = Some(String::from_str("requests"));
                entry.return_type = Some(TypedResponse::Name);
            },
            APICommand::GetAttachment => {
                entry.subdir = Some(String::from_str("data"));
                entry.data_return = true;
            },
            APICommand::GetIcon => {
                entry.subdir = Some(String::from_str("data"));
                entry.data_return = true;
            },
            APICommand::GetPhotos => {
                entry.subdir = Some(String::from_str("data"));
                entry.return_type = Some(TypedResponse::Photos);
            },
            APICommand::GetPhoto => {
                entry.subdir = Some(String::from_str("data"));
                entry.data_return = true;
            },
            APICommand::SendMessage => {
                entry.subdir = Some(String::from_str("send"));
                entry.multipart = true;
                entry.files_key = Some(String::from_str("attachments"));
            },
            APICommand::SendTapback => {
                entry.subdir = Some(String::from_str("send"));
            },
            APICommand::DeleteChat => {
                entry.subdir = Some(String::from_str("send"));
            },
            APICommand::DeleteText => {
                entry.subdir = Some(String::from_str("send"));
            },
            APICommand::AttachmentData => {
                entry.rest = false;
            },
            APICommand::SendTyping => {
                entry.subdir = Some(String::from_str("send"));
            },
            APICommand::BatteryStatus => {
                entry.has_parameters = false;
            },
            APICommand::Typing => {
                entry.has_parameters = false;
            },
            APICommand::NewMessage => {
                entry.has_parameters = false;
            },
        }
        entry
    }
}

/// The REST transport may carry the command.
pub open spec fn rest_eligible_spec(c: APICommand) -> bool {
    !(c is AttachmentData)
}

/// The socket transport may carry the command.
pub open spec fn socket_eligible_spec(c: APICommand) -> bool {
    true
}

/// The command's response is a raw byte blob.
pub open spec fn data_return_spec(c: APICommand) -> bool {
    c is GetAttachment || c is GetIcon || c is GetPhoto
}

/// The typed response declared by the command, if any.
pub open spec fn return_type_spec(c: APICommand) -> Option<TypedResponse> {
    match c {
        APICommand::GetChats => Some(TypedResponse::Conversations),
        APICommand::GetMessages => Some(TypedResponse::Messages),
        APICommand::GetConversation => Some(TypedResponse::Conversation),
        APICommand::GetName => Some(TypedResponse::Name),
        APICommand::GetPhotos => Some(TypedResponse::Photos),
        _ => None,
    }
}

/// The command declares parameters, and so can be sent by the client.
pub open spec fn has_parameters_spec(c: APICommand) -> bool {
    !(c is BatteryStatus || c is Typing || c is NewMessage)
}

/// Decode a wire name back into its command: `Some` exactly for the
/// seventeen canonical names, `None` for every other text.
pub fn command_from_string(s: &str) -> (r: Option<APICommand>)
    ensures
        r matches Some(c) ==> s@ == command_string_spec(c),
        r is None ==> forall|c: APICommand| s@ != command_string_spec(c),
{
    let owned: String = s.to_owned();
    if owned == String::from_str("get-chats") {
        Some(APICommand::GetChats)
    } else if owned == String::from_str("get-messages") {
        Some(APICommand::GetMessages)
    } else if owned == String::from_str("get-conversation") {
        Some(APICommand::GetConversation)
    } else if owned == String::from_str("get-name") {
        Some(APICommand::GetName)
    } else if owned == String::from_str("get-attachment") {
        Some(APICommand::GetAttachment)
    } else if owned == String::from_str("get-icon") {
        Some(APICommand::GetIcon)
    } else if owned == String::from_str("get-photos") {
        Some(APICommand::GetPhotos)
    } else if owned == String::from_str("get-photo") {
        Some(APICommand::GetPhoto)
    } else if owned == String::from_str("send-message") {
        Some(APICommand::SendMessage)
    } else if owned == String::from_str("send-tapback") {
        Some(APICommand::SendTapback)
    } else if owned == String::from_str("delete-chat") {
        Some(APICommand::DeleteChat)
    } else if owned == String::from_str("delete-text") {
        Some(APICommand::DeleteText)
    } else if owned == String::from_str("attachment-data") {
        Some(APICommand::AttachmentData)
    } else if owned == String::from_str("send-typing") {
        Some(APICommand::SendTyping)
    } else if owned == String::from_str("battery-status") {
        Some(APICommand::BatteryStatus)
    } else if owned == String::from_str("typing") {
        Some(APICommand::Typing)
    } else if owned == String::from_str("new-message") {
        Some(APICommand::NewMessage)
    } else {
        None
    }
}

/// The REST subdirectory each command's calls go to: the chat and
/// lookup queries under `requests`, the byte-blob fetches under `data`,
/// the sending commands under `send`. Only the upload chunk command,
/// which REST never carries, and the receive-only notifications declare
/// none.
pub open spec fn subdir_spec(c: APICommand) -> Option<Seq<char>> {
    match c {
        APICommand::GetChats => Some("requests"@),
        APICommand::GetMessages => Some("requests"@),
        APICommand::GetConversation => Some("requests"@),
        APICommand::GetName => Some("requests"@),
        APICommand::GetAttachment => Some("data"@),
        APICommand::GetIcon => Some("data"@),
        APICommand::GetPhotos => Some("data"@),
        APICommand::GetPhoto => Some("data"@),
        APICommand::SendMessage => Some("send"@),
        APICommand::SendTapback => Some("send"@),
        APICommand::DeleteChat => Some("send"@),
        APICommand::DeleteText => Some("send"@),
        APICommand::SendTyping => Some("send"@),
        _ => None,
    }
}

} // verus!
