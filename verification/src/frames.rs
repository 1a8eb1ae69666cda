//! The wire-facing data model: typed argument values, outbound frames, and
//! inbound envelopes. Encoding a frame to wire text and decoding an
//! envelope from it is the caller's codec; this module fixes the shapes
//! and the argument-assembly rule.

use vstd::prelude::*;

use crate::catalog::{command_string_spec, APICommand};

verus! {

/// Per-attachment upload metadata, computed before any chunk is sent and
/// carried by the initiating message.
pub struct AttachmentInfo {
    /// Number of chunk messages that will carry the attachment's bytes.
    pub size: u32,
    /// Generated id tying each chunk to this attachment.
    pub id: String,
    /// Final path component of the local file.
    pub filename: String,
}

impl AttachmentInfo {
    /// An equal copy, so the metadata can ride on the initiating message
    /// while the upload plan keeps its own.
    pub fn duplicate(&self) -> (r: AttachmentInfo)
        ensures
            r == *self,
    {
        AttachmentInfo { size: self.size, id: self.id.clone(), filename: self.filename.clone() }
    }
}

/// A typed argument value of an outbound command.
pub enum ArgValue {
    Bool(bool),
    UInt(u64),
    Str(String),
    /// Upload metadata of every attachment of an initiating message.
    Infos(Vec<AttachmentInfo>),
}

/// A named argument carried by an outbound frame.
pub struct Arg {
    pub name: String,
    pub value: ArgValue,
}

/// A declared parameter of a socket command together with the argument
/// supplied for it, absent when an optional parameter was not given.
pub struct Param {
    pub name: String,
    pub value: Option<ArgValue>,
}

/// A command and its assembled arguments, ready for a transport to frame
/// and send.
pub struct CommandRequest {
    pub command: APICommand,
    pub args: Vec<Arg>,
}

/// An outbound socket frame: `{command, id, data: {name: value, ...}}`.
pub struct OutboundFrame {
    /// The command's canonical wire name.
    pub command: String,
    /// Correlation id, empty when no reply is expected.
    pub id: String,
    /// The argument mapping of the frame's `data` field.
    pub args: Vec<Arg>,
}

/// The correlation-relevant part of an inbound socket frame; the payload
/// value travels beside it, opaque to the correlation logic.
pub struct Envelope {
    /// Correlation id; empty marks an unsolicited frame.
    pub id: String,
    pub command: APICommand,
    /// No more chunks follow for this id.
    pub last: bool,
}

/// The arguments present among a declared parameter list, in declared
/// order: an absent optional contributes nothing.
pub open spec fn present_args(ps: Seq<Param>) -> Seq<Arg>
    decreases ps.len(),
{
    if ps.len() == 0 {
        Seq::empty()
    } else {
        let rest = present_args(ps.drop_last());
        match ps.last().value {
            Some(v) => rest.push(Arg { name: ps.last().name, value: v }),
            None => rest,
        }
    }
}

/// Assemble the argument mapping of a socket command: keep every supplied
/// argument under its name, skip absent optionals, in declared order.
pub fn build_socket_args(params: Vec<Param>) -> (r: Vec<Arg>)
    ensures
        r@ == present_args(params@),
{
    let ghost ps = params@;
    let mut params = params;
    let mut out: Vec<Arg> = Vec::new();
    let ghost mut k: int = 0;
    proof {
        assert(ps.take(0) =~= Seq::<Param>::empty());
    }
    while params.len() > 0
        invariant
            0 <= k <= ps.len(),
            params@ =~= ps.skip(k),
            out@ == present_args(ps.take(k)),
        decreases params@.len(),
    {
        let p = params.remove(0);
        proof {
            assert(p == ps[k]);
            assert(ps.take(k + 1).drop_last() =~= ps.take(k));
            assert(ps.take(k + 1).last() == ps[k]);
            assert(params@ =~= ps.skip(k + 1));
        }
        match p.value {
            Some(v) => {
                out.push(Arg { name: p.name, value: v });
            },
            None => {},
        }
        proof {
            k = k + 1;
        }
    }
    proof {
        assert(ps.take(k) =~= ps);
    }
    out
}

/// Frame a command for the socket: its canonical wire name, the given
/// correlation id, and the assembled arguments.
pub fn make_frame(command: &APICommand, id: String, args: Vec<Arg>) -> (r: OutboundFrame)
    ensures
        r.command@ == command_string_spec(*command),
        r.id == id,
        r.args == args,
{
    OutboundFrame { command: command.command_string(), id, args }
}

} // verus!
