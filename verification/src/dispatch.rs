//! The dispatcher: picks a transport for each command from the catalog
//! and the client's mode, without contacting either transport; and plans
//! the send-message flow, whose attachments the chunk splitter streams as
//! follow-up commands.

use vstd::prelude::*;

use crate::catalog::{
    command_string_spec, has_parameters_spec, rest_eligible_spec, socket_eligible_spec,
    APICommand, CommandConfig,
};
use crate::config::SDKConfig;
use crate::correlation::{wire_key, PendingTable};
use crate::error::SDKError;
use crate::frames::{
    build_socket_args, make_frame, present_args, ArgValue, AttachmentInfo, OutboundFrame, Param,
};
use crate::rest::RestSession;
use crate::splitter::{chunk_count_spec, concat_chunks, plan_attachment, AttachmentPlan};
use crate::text::{basename_spec, dec_of, join_colon, join_colon_spec};

verus! {

/// Where one invocation goes.
#[derive(Clone, Copy, Debug, PartialEq, Eq, Structural)]
pub enum TransportPlan {
    /// The command declares no parameters: a no-op success, no transport
    /// contacted.
    NoOp,
    /// One REST round trip, after the session's authentication step.
    Rest,
    /// A socket send, with a correlation entry if a reply is expected.
    Socket,
    /// Both transports are forbidden: the invocation fails with
    /// `ConfigBlocked`, and no I/O is performed.
    Blocked,
}

/// The dispatch rule: a command without parameters is a no-op; else REST
/// when preferred and eligible; else the socket when eligible; else
/// blocked.
pub open spec fn plan_spec(
    has_parameters: bool,
    rest: bool,
    socket: bool,
    uses_rest: bool,
) -> TransportPlan {
    if !has_parameters {
        TransportPlan::NoOp
    } else if uses_rest && rest {
        TransportPlan::Rest
    } else if socket {
        TransportPlan::Socket
    } else {
        TransportPlan::Blocked
    }
}

/// Pick the transport for a catalog entry under the given client mode.
/// The plan alone decides; nothing is sent to decide it.
pub fn plan_invoke(entry: &CommandConfig, uses_rest: bool) -> (r: TransportPlan)
    ensures
        r == plan_spec(entry.has_parameters, entry.rest, entry.socket, uses_rest),
        r is Blocked <==> entry.has_parameters && !(uses_rest && entry.rest) && !entry.socket,
{
    if !entry.has_parameters {
        TransportPlan::NoOp
    } else if uses_rest && entry.rest {
        TransportPlan::Rest
    } else if entry.socket {
        TransportPlan::Socket
    } else {
        TransportPlan::Blocked
    }
}

impl TransportPlan {
    /// The error an invocation fails with before any I/O, if the plan
    /// forbids it; `None` for every plan that proceeds.
    pub fn error(&self) -> (r: Option<SDKError>)
        ensures
            *self is Blocked <==> r == Some(SDKError::ConfigBlocked),
            !(*self is Blocked) <==> r is None,
    {
        match self {
            TransportPlan::Blocked => Some(SDKError::ConfigBlocked),
            _ => None,
        }
    }
}

/// One attachment handed in by the caller: the local path and the bytes
/// read from it (empty when the file was unreadable — the upload still
/// proceeds).
pub struct AttachmentFile {
    pub path: String,
    pub bytes: Vec<u8>,
}

/// Everything decided before a message is sent: the initiating message's
/// declared parameters, metadata for every attachment already embedded,
/// and the chunked uploads to stream once the message id is known.
pub struct SendMessagePlan {
    /// The five declared parameters of the initiating message, in catalog
    /// order: chat, text, subject, attachments, photos.
    pub params: Vec<Param>,
    /// Per attachment: its generated id, its metadata, and its byte
    /// chunks, to be emitted as upload commands in order.
    pub uploads: Vec<AttachmentPlan>,
}

/// The dispatch-and-correlation core: transport preference, upload chunk
/// size, the REST session, and the pending-replies table.
pub struct APIClient {
    pub uses_rest: bool,
    pub chunk_size: usize,
    pub session: RestSession,
    pub pending: PendingTable,
}

impl APIClient {
    /// A fresh client: unauthenticated session, empty correlation table,
    /// mode and chunk size from the configuration.
    pub fn new(config: SDKConfig) -> (r: APIClient)
        ensures
            r.uses_rest == config.use_rest,
            r.chunk_size == config.chunk_size,
            r.session.config == config,
            !r.session.authenticated,
            r.pending.wf(),
            r.pending.as_map() == Map::<u64, u64>::empty(),
    {
        let uses_rest = config.use_rest;
        let chunk_size = config.chunk_size;
        APIClient {
            uses_rest,
            chunk_size,
            session: RestSession::new(config),
            pending: PendingTable::new(),
        }
    }

    /// Pick the transport for one command under this client's mode.
    pub fn plan_invoke(&self, command: &APICommand) -> (r: TransportPlan)
        ensures
            r == plan_spec(
                has_parameters_spec(*command),
                rest_eligible_spec(*command),
                socket_eligible_spec(*command),
                self.uses_rest,
            ),
    {
        let entry = command.catalog_entry();
        plan_invoke(&entry, self.uses_rest)
    }

    /// Prepare a reply-expecting socket call: allocate a fresh
    /// correlation id, insert the waiter under it, and frame the command
    /// with its supplied arguments. The id is pending until routed out,
    /// removed on timeout, or removed on disconnect.
    pub fn socket_call(
        &mut self,
        command: &APICommand,
        params: Vec<Param>,
        waiter: u64,
    ) -> (r: (OutboundFrame, u64))
        requires
            old(self).pending.wf(),
            old(self).pending.next_id < u64::MAX,
        ensures
            final(self).pending.wf(),
            !old(self).pending.as_map().contains_key(r.1),
            final(self).pending.as_map() == old(self).pending.as_map().insert(r.1, waiter),
            r.0.id@ == dec_of(r.1 as nat),
            wire_key(r.0.id@) == Some(r.1),
            r.0.command@ == command_string_spec(*command),
            r.0.args@ == present_args(params@),
            final(self).session == old(self).session,
            final(self).uses_rest == old(self).uses_rest,
            final(self).chunk_size == old(self).chunk_size,
    {
        let id = self.pending.register(waiter);
        let frame = make_frame(command, PendingTable::id_string(id), build_socket_args(params));
        (frame, id)
    }

    /// Frame a socket command that expects no reply: it carries a fresh
    /// id that no waiter is, or ever will be, pending under. The frame's
    /// id is the issued one — when the frame initiates a message, that
    /// id is the owning message id its upload chunks cite.
    pub fn socket_send(&mut self, command: &APICommand, params: Vec<Param>) -> (r: OutboundFrame)
        requires
            old(self).pending.wf(),
            old(self).pending.next_id < u64::MAX,
        ensures
            final(self).pending.wf(),
            final(self).pending.as_map() == old(self).pending.as_map(),
            final(self).pending.next_id == old(self).pending.next_id + 1,
            r.id@ == dec_of(old(self).pending.next_id as nat),
            wire_key(r.id@) == Some(old(self).pending.next_id),
            !old(self).pending.as_map().contains_key(old(self).pending.next_id),
            r.command@ == command_string_spec(*command),
            r.args@ == present_args(params@),
            final(self).session == old(self).session,
            final(self).uses_rest == old(self).uses_rest,
            final(self).chunk_size == old(self).chunk_size,
    {
        let id = self.pending.issue_id();
        make_frame(command, PendingTable::id_string(id), build_socket_args(params))
    }

    /// Plan a message send: split every attachment into chunks, compute
    /// its metadata, and lay out the initiating message's parameters with
    /// that metadata embedded, before anything is sent.
    pub fn plan_send_message(
        &self,
        chat: String,
        text: Option<String>,
        subject: Option<String>,
        attachments: Vec<AttachmentFile>,
        photos: Option<Vec<String>>,
    ) -> (r: SendMessagePlan)
        requires
            self.chunk_size > 0,
            forall|i: int|
                0 <= i < attachments@.len() ==> chunk_count_spec(
                    (#[trigger] attachments@[i]).bytes@.len(),
                    self.chunk_size as nat,
                ) <= u32::MAX,
        ensures
            r.uploads@.len() == attachments@.len(),
            forall|i: int|
                0 <= i < attachments@.len() ==> {
                    let a = #[trigger] attachments@[i];
                    let u = r.uploads@[i];
                    &&& u.info.size == chunk_count_spec(a.bytes@.len(), self.chunk_size as nat)
                    &&& u.info.filename@ == basename_spec(a.path@)
                    &&& u.chunks@.len() == chunk_count_spec(a.bytes@.len(), self.chunk_size as nat)
                    &&& concat_chunks(u.chunks@.map_values(|c: Vec<u8>| c@)) == a.bytes@
                },
            send_params_shape(r.params@, chat@, text, subject, photos),
            r.params@[3].value matches Some(v) && v matches ArgValue::Infos(infos)
                && infos@.len() == r.uploads@.len() && (forall|i: int|
                0 <= i < infos@.len() ==> #[trigger] infos@[i] == r.uploads@[i].info),
    {
        let ghost afs = attachments@;
        let mut attachments = attachments;
        let mut uploads: Vec<AttachmentPlan> = Vec::new();
        let mut infos: Vec<AttachmentInfo> = Vec::new();
        let ghost mut k: int = 0;
        while attachments.len() > 0
            invariant
                self.chunk_size > 0,
                forall|i: int|
                    0 <= i < afs.len() ==> chunk_count_spec(
                        (#[trigger] afs[i]).bytes@.len(),
                        self.chunk_size as nat,
                    ) <= u32::MAX,
                0 <= k <= afs.len(),
                attachments@ =~= afs.skip(k),
                uploads@.len() == k,
                infos@.len() == k,
                forall|i: int|
                    0 <= i < k ==> {
                        let a = #[trigger] afs[i];
                        let u = uploads@[i];
                        &&& u.info.size == chunk_count_spec(
                            a.bytes@.len(),
                            self.chunk_size as nat,
                        )
                        &&& u.info.filename@ == basename_spec(a.path@)
                        &&& u.chunks@.len() == chunk_count_spec(
                            a.bytes@.len(),
                            self.chunk_size as nat,
                        )
                        &&& concat_chunks(u.chunks@.map_values(|c: Vec<u8>| c@)) == a.bytes@
                    },
                forall|i: int| 0 <= i < k ==> #[trigger] infos@[i] == uploads@[i].info,
            decreases attachments@.len(),
        {
            let a = attachments.remove(0);
            proof {
                assert(a == afs[k]);
                assert(attachments@ =~= afs.skip(k + 1));
            }
            let plan = plan_attachment(a.path.as_str(), a.bytes.as_slice(), self.chunk_size);
            infos.push(plan.info.duplicate());
            uploads.push(plan);
            proof {
                k = k + 1;
            }
        }
        let photos_str: Option<String> = match photos {
            Some(parts) => Some(join_colon(&parts)),
            None => None,
        };
        let params = send_message_params(chat, text, subject, infos, photos_str);
        SendMessagePlan { params, uploads }
    }
}

/// The shape of the initiating message's parameter list: the five
/// declared parameters in catalog order, each carrying exactly the
/// argument supplied for it; the photo paths ride as one text joined
/// with `:`.
pub open spec fn send_params_shape(
    ps: Seq<Param>,
    chat: Seq<char>,
    text: Option<String>,
    subject: Option<String>,
    photos: Option<Vec<String>>,
) -> bool {
    &&& ps.len() == 5
    &&& ps[0].name@ == "chat"@
    &&& ps[0].value matches Some(v) && v matches ArgValue::Str(s) && s@ == chat
    &&& ps[1].name@ == "text"@
    &&& match text {
        Some(t) => ps[1].value matches Some(v) && v matches ArgValue::Str(s) && s@ == t@,
        None => ps[1].value is None,
    }
    &&& ps[2].name@ == "subject"@
    &&& match subject {
        Some(t) => ps[2].value matches Some(v) && v matches ArgValue::Str(s) && s@ == t@,
        None => ps[2].value is None,
    }
    &&& ps[3].name@ == "attachments"@
    &&& ps[4].name@ == "photos"@
    &&& match photos {
        Some(parts) => ps[4].value matches Some(v) && v matches ArgValue::Str(s) && s@
            == join_colon_spec(parts@.map_values(|p: String| p@)),
        None => ps[4].value is None,
    }
}

/// Lay out the declared parameters of an initiating message: chat, text,
/// subject, the attachment metadata, and the joined photo paths.
fn send_message_params(
    chat: String,
    text: Option<String>,
    subject: Option<String>,
    infos: Vec<AttachmentInfo>,
    photos_str: Option<String>,
) -> (r: Vec<Param>)
    ensures
        r@.len() == 5,
        r@[0].name@ == "chat"@,
        r@[0].value matches Some(v) && v matches ArgValue::Str(s) && s == chat,
        r@[1].name@ == "text"@,
        match text {
            Some(t) => r@[1].value matches Some(v) && v matches ArgValue::Str(s) && s == t,
            None => r@[1].value is None,
        },
        r@[2].name@ == "subject"@,
        match subject {
            Some(t) => r@[2].value matches Some(v) && v matches ArgValue::Str(s) && s == t,
            None => r@[2].value is None,
        },
        r@[3].name@ == "attachments"@,
        r@[3].value matches Some(v) && v matches ArgValue::Infos(is_) && is_ == infos,
        r@[4].name@ == "photos"@,
        match photos_str {
            Some(t) => r@[4].value matches Some(v) && v matches ArgValue::Str(s) && s == t,
            None => r@[4].value is None,
        },
{
    let mut r: Vec<Param> = Vec::new();
    r.push(Param { name: String::from_str("chat"), value: Some(ArgValue::Str(chat)) });
    r.push(
        Param {
            name: String::from_str("text"),
            value: match text {
                Some(t) => Some(ArgValue::Str(t)),
                None => None,
            },
        },
    );
    r.push(
        Param {
            name: String::from_str("subject"),
            value: match subject {
                Some(t) => Some(ArgValue::Str(t)),
                None => None,
            },
        },
    );
    r.push(Param { name: String::from_str("attachments"), value: Some(ArgValue::Infos(infos)) });
    r.push(
        Param {
            name: String::from_str("photos"),
            value: match photos_str {
                Some(t) => Some(ArgValue::Str(t)),
                None => None,
            },
        },
    );
    r
}

} // verus!
