//! The chunk splitter: slices an attachment's bytes into fixed-size
//! chunks, computes the per-attachment upload metadata that rides on the
//! initiating message, and emits one upload command per chunk, in order.

use vstd::prelude::*;

use crate::b64::{b64_decode_of, b64_encode, b64_encode_of};
use crate::catalog::APICommand;
use crate::frames::{Arg, ArgValue, AttachmentInfo, CommandRequest};
use crate::text::basename;
use crate::text::basename_spec;
use crate::text::dec_of;
use crate::text::u64_to_dec;

verus! {

use vstd::arithmetic::div_mod::{lemma_fundamental_div_mod, lemma_fundamental_div_mod_converse};
use vstd::slice::{slice_subrange, slice_to_vec};

/// Ceiling division: the number of fixed-size pieces needed to cover `len`
/// bytes with pieces of `size` bytes each.
pub open spec fn chunk_count_spec(len: nat, size: nat) -> nat
    recommends
        size > 0,
{
    ((len + size - 1) / (size as int)) as nat
}

/// Number of chunks needed to send `len` bytes in pieces of `size` bytes.
pub fn chunk_count(len: usize, size: usize) -> (r: usize)
    requires
        size > 0,
    ensures
        r == chunk_count_spec(len as nat, size as nat),
{
    let whole: usize = len / size;
    let rem: usize = len % size;
    proof {
        lemma_fundamental_div_mod(len as int, size as int);
        if rem == 0 {
            lemma_fundamental_div_mod_converse(
                len + size - 1,
                size as int,
                whole as int,
                size - 1,
            );
        } else {
            assert((whole + 1) * size as int == whole * size as int + size) by (nonlinear_arith);
            lemma_fundamental_div_mod_converse(
                len + size - 1,
                size as int,
                whole as int + 1,
                rem - 1,
            );
            assert(whole < len) by (nonlinear_arith)
                requires
                    len as int == size as int * whole as int + rem,
                    rem >= 1,
                    size >= 1,
                    whole >= 0,
            ;
        }
    }
    if rem == 0 {
        whole
    } else {
        whole + 1
    }
}

/// The concatenation of a sequence of byte chunks.
pub open spec fn concat_chunks(cs: Seq<Seq<u8>>) -> Seq<u8>
    decreases cs.len(),
{
    if cs.len() == 0 {
        Seq::empty()
    } else {
        concat_chunks(cs.drop_last()) + cs.last()
    }
}

/// Slice `bytes` into pieces of `size` bytes; the last piece may be
/// shorter. The pieces cover the input exactly, in order.
pub fn split_bytes(bytes: &[u8], size: usize) -> (r: Vec<Vec<u8>>)
    requires
        size > 0,
    ensures
        r@.len() == chunk_count_spec(bytes@.len(), size as nat),
        forall|i: int|
            0 <= i < r@.len() ==> (#[trigger] r@[i])@ == bytes@.subrange(
                i * size,
                if (i + 1) * size <= bytes@.len() {
                    (i + 1) * size
                } else {
                    bytes@.len() as int
                },
            ),
        concat_chunks(r@.map_values(|c: Vec<u8>| c@)) == bytes@,
{
    let len = bytes.len();
    let total = chunk_count(len, size);
    let mut r: Vec<Vec<u8>> = Vec::new();
    let mut start: usize = 0;
    let mut i: usize = 0;
    proof {
        assert(concat_chunks(r@.map_values(|c: Vec<u8>| c@)) =~= bytes@.subrange(0, 0));
    }
    while i < total
        invariant
            size > 0,
            len == bytes@.len(),
            total == chunk_count_spec(len as nat, size as nat),
            0 <= i <= total,
            r@.len() == i,
            start == if i * size <= len {
                i * size
            } else {
                len as int
            },
            i < total ==> start == i * size,
            forall|j: int|
                0 <= j < i ==> (#[trigger] r@[j])@ == bytes@.subrange(
                    j * size,
                    if (j + 1) * size <= len {
                        (j + 1) * size
                    } else {
                        len as int
                    },
                ),
            concat_chunks(r@.map_values(|c: Vec<u8>| c@)) == bytes@.subrange(0, start as int),
        decreases total - i,
    {
        proof {
            // While pieces remain, the current offset lies inside the input.
            lemma_fundamental_div_mod((len + size - 1) as int, size as int);
            assert(i * size < len) by (nonlinear_arith)
                requires
                    i < total,
                    size > 0,
                    len + size - 1 == size * ((len + size - 1) / (size as int)) + (len + size - 1)
                        % (size as int),
                    0 <= (len + size - 1) % (size as int) < size,
                    total == (len + size - 1) / (size as int),
            ;
        }
        let end = if len - start < size {
            len
        } else {
            start + size
        };
        let piece = slice_to_vec(slice_subrange(bytes, start, end));
        let ghost prev = r@.map_values(|c: Vec<u8>| c@);
        r.push(piece);
        proof {
            let now = r@.map_values(|c: Vec<u8>| c@);
            assert(now.drop_last() =~= prev);
            assert(now.last() =~= bytes@.subrange(start as int, end as int));
            assert(concat_chunks(now) == concat_chunks(prev) + now.last());
            assert(bytes@.subrange(0, start as int) + bytes@.subrange(start as int, end as int)
                =~= bytes@.subrange(0, end as int));
            assert((i + 1) * size == i * size + size) by (nonlinear_arith);
        }
        start = end;
        i = i + 1;
        proof {
            if i < total {
                // Only the final piece may fall short of a full `size`.
                lemma_fundamental_div_mod((len + size - 1) as int, size as int);
                assert(i * size <= len) by (nonlinear_arith)
                    requires
                        i < total,
                        size > 0,
                        len + size - 1 == size * ((len + size - 1) / (size as int)) + (len + size
                            - 1) % (size as int),
                        0 <= (len + size - 1) % (size as int) < size,
                        total == (len + size - 1) / (size as int),
                ;
            }
        }
    }
    proof {
        if total * size <= len {
            // All pieces were full, so they reach the end of the input.
            lemma_fundamental_div_mod((len + size - 1) as int, size as int);
            assert(total * size >= len) by (nonlinear_arith)
                requires
                    size > 0,
                    len + size - 1 == size * ((len + size - 1) / (size as int)) + (len + size - 1)
                        % (size as int),
                    0 <= (len + size - 1) % (size as int) < size,
                    total == (len + size - 1) / (size as int),
            ;
        }
        assert(bytes@.subrange(0, len as int) =~= bytes@);
    }
    r
}

/// Relies on uuid's `new_v4` and its hyphenated rendering: a fresh random
/// id for an attachment; nothing is promised of its value.
#[verifier::external_body]
fn new_attachment_id() -> String {
    uuid::Uuid::new_v4().to_string()
}

/// The metadata and chunked bytes of one attachment, computed before any
/// chunk is sent.
pub struct AttachmentPlan {
    pub info: AttachmentInfo,
    pub chunks: Vec<Vec<u8>>,
}

/// Prepare one attachment for upload: a fresh id, the chunk count, the
/// file's basename, and the byte chunks themselves, which cover the input
/// exactly and in order.
pub fn plan_attachment(path: &str, bytes: &[u8], chunk_size: usize) -> (r: AttachmentPlan)
    requires
        chunk_size > 0,
        chunk_count_spec(bytes@.len(), chunk_size as nat) <= u32::MAX,
    ensures
        r.info.size == chunk_count_spec(bytes@.len(), chunk_size as nat),
        r.info.filename@ == basename_spec(path@),
        r.chunks@.len() == chunk_count_spec(bytes@.len(), chunk_size as nat),
        concat_chunks(r.chunks@.map_values(|c: Vec<u8>| c@)) == bytes@,
        forall|i: int|
            0 <= i < r.chunks@.len() ==> (#[trigger] r.chunks@[i])@ == bytes@.subrange(
                i * chunk_size,
                if (i + 1) * chunk_size <= bytes@.len() {
                    (i + 1) * chunk_size
                } else {
                    bytes@.len() as int
                },
            ),
{
    let id = new_attachment_id();
    let count = chunk_count(bytes.len(), chunk_size);
    let chunks = split_bytes(bytes, chunk_size);
    AttachmentPlan {
        info: AttachmentInfo { size: count as u32, id, filename: basename(path) },
        chunks,
    }
}

/// The shape of one upload command: an `attachment-data` request whose
/// arguments tie the encoded chunk to its attachment, its owning message,
/// and its zero-based position.
pub open spec fn upload_request_shape(
    req: CommandRequest,
    att: Seq<char>,
    msg: Seq<char>,
    idx: int,
    chunk: Seq<u8>,
) -> bool {
    &&& req.command is AttachmentData
    &&& req.args@.len() == 4
    &&& req.args@[0].name@ == "attachment_id"@
    &&& req.args@[0].value matches ArgValue::Str(s) && s@ == att
    &&& req.args@[1].name@ == "message_id"@
    &&& req.args@[1].value matches ArgValue::Str(s) && s@ == msg
    &&& req.args@[2].name@ == "index"@
    &&& req.args@[2].value matches ArgValue::UInt(n) && n == idx
    &&& req.args@[3].name@ == "data"@
    &&& req.args@[3].value matches ArgValue::Str(d) && d@ == b64_encode_of(chunk)
        && b64_decode_of(d@) == Some(chunk)
}

/// Emit one upload command per chunk, in order: each carries the
/// attachment id, the owning message id, its zero-based index, and its
/// encoded bytes.
pub fn attachment_requests(
    attachment_id: &str,
    message_id: &str,
    chunks: &Vec<Vec<u8>>,
) -> (r: Vec<CommandRequest>)
    requires
        chunks@.len() <= u64::MAX,
    ensures
        r@.len() == chunks@.len(),
        forall|i: int|
            0 <= i < r@.len() ==> upload_request_shape(
                #[trigger] r@[i],
                attachment_id@,
                message_id@,
                i,
                chunks@[i]@,
            ),
{
    let mut r: Vec<CommandRequest> = Vec::new();
    let mut i: usize = 0;
    while i < chunks.len()
        invariant
            0 <= i <= chunks@.len(),
            chunks@.len() <= u64::MAX,
            r@.len() == i,
            forall|j: int|
                0 <= j < i ==> upload_request_shape(
                    #[trigger] r@[j],
                    attachment_id@,
                    message_id@,
                    j,
                    chunks@[j]@,
                ),
        decreases chunks@.len() - i,
    {
        let data = b64_encode(chunks[i].as_slice());
        let mut args: Vec<Arg> = Vec::new();
        args.push(
            Arg {
                name: String::from_str("attachment_id"),
                value: ArgValue::Str(String::from_str(attachment_id)),
            },
        );
        args.push(
            Arg {
                name: String::from_str("message_id"),
                value: ArgValue::Str(String::from_str(message_id)),
            },
        );
        args.push(Arg { name: String::from_str("index"), value: ArgValue::UInt(i as u64) });
        args.push(Arg { name: String::from_str("data"), value: ArgValue::Str(data) });
        r.push(CommandRequest { command: APICommand::AttachmentData, args });
        i = i + 1;
    }
    r
}

/// The bytes a sequence of encoded chunk texts denotes: each decoded, all
/// concatenated in order; `None` if any text fails to decode.
pub open spec fn decoded_concat(datas: Seq<Seq<char>>) -> Option<Seq<u8>>
    decreases datas.len(),
{
    if datas.len() == 0 {
        Some(Seq::empty())
    } else {
        match (decoded_concat(datas.drop_last()), b64_decode_of(datas.last())) {
            (Some(acc), Some(d)) => Some(acc + d),
            _ => None,
        }
    }
}

/// Law: chunk texts that each decode to the pieces of a split decode and
/// concatenate back to exactly the original bytes. With the contracts of
/// `plan_attachment` and `attachment_requests`, the emitted upload
/// commands reconstruct the attachment exactly.
pub proof fn lemma_upload_round_trip(datas: Seq<Seq<char>>, chunks: Seq<Seq<u8>>, bytes: Seq<u8>)
    requires
        datas.len() == chunks.len(),
        forall|i: int| 0 <= i < datas.len() ==> b64_decode_of(#[trigger] datas[i]) == Some(
            chunks[i],
        ),
        concat_chunks(chunks) == bytes,
    ensures
        decoded_concat(datas) == Some(bytes),
    decreases datas.len(),
{
    if datas.len() == 0 {
        assert(decoded_concat(datas) == Some(Seq::<u8>::empty()));
        assert(bytes =~= Seq::<u8>::empty());
    } else {
        lemma_upload_round_trip(
            datas.drop_last(),
            chunks.drop_last(),
            concat_chunks(chunks.drop_last()),
        );
        assert(b64_decode_of(datas.last()) == Some(chunks.last()));
        assert(decoded_concat(datas) == Some(concat_chunks(chunks.drop_last()) + chunks.last()));
    }
}

} // verus!
