//! Sending a dropped file to the peer in base64 pieces, and reading the
//! pieces back on arrival.
use vstd::prelude::*;
use base64::Engine;
use crate::config::{is_v4_id, new_v4_uuid, Config};
use crate::digest::{hex_lower, sha256, sha256_hex};
use crate::protocol::Message;

verus! {

/// Bytes of a dropped file carried by one `DropChunk` message.
pub const DROP_CHUNK_SIZE: usize = 524288;

/// What the standard padded base64 engine encodes the bytes `data` to.
pub uninterp spec fn base64_encoded(data: Seq<u8>) -> Seq<char>;

/// What the standard padded base64 engine decodes the text `text` to, or
/// `None` where it reports an error.
pub uninterp spec fn base64_decoded(text: Seq<char>) -> Option<Seq<u8>>;

/// Calls `Engine::encode` of `base64::engine::general_purpose::STANDARD`.
/// The text is named by `base64_encoded`. The engine writes the RFC 4648
/// standard alphabet with canonical padding and its decoder requires exactly
/// that padding, so decoding the text with the same engine gives the bytes
/// back; that is the one fact stated beyond the name.
#[verifier::external_body]
fn base64_encode(data: &[u8]) -> (r: String)
    ensures
        r@ == base64_encoded(data@),
        base64_decoded(r@) == Some(data@),
{
    base64::engine::general_purpose::STANDARD.encode(data)
}

/// Calls `Engine::decode` of `base64::engine::general_purpose::STANDARD`
/// on the text's bytes, and drops the error's detail. The result is named
/// by `base64_decoded`.
#[verifier::external_body]
fn base64_decode(text: &str) -> (r: Option<Vec<u8>>)
    ensures
        match r {
            Some(v) => base64_decoded(text@) == Some(v@),
            None => base64_decoded(text@) is None,
        },
{
    base64::engine::general_purpose::STANDARD.decode(text).ok()
}

/// The message that carries the piece `chunk` of the file with transfer id
/// `id`. Decoding its payload gives `chunk` back.
pub fn drop_chunk_message(id: String, chunk: &[u8]) -> (r: Message)
    ensures
        r matches Message::DropChunk { id: i, data_b64: d } && i == id && d@ == base64_encoded(chunk@)
            && base64_decoded(d@) == Some(chunk@),
{
    Message::DropChunk { id, data_b64: base64_encode(chunk) }
}

/// The bytes that a `DropChunk` payload carries, or `None` if it is not
/// valid standard base64.
pub fn decode_drop_chunk(data_b64: &str) -> (r: Option<Vec<u8>>)
    ensures
        match r {
            Some(v) => base64_decoded(data_b64@) == Some(v@),
            None => base64_decoded(data_b64@) is None,
        },
{
    base64_decode(data_b64)
}

/// How many pieces a file of `len` bytes is sent in.
pub open spec fn chunk_count(len: int) -> int {
    (len + DROP_CHUNK_SIZE - 1) / DROP_CHUNK_SIZE as int
}

/// The `k`-th piece of `data`: `DROP_CHUNK_SIZE` bytes from offset
/// `k * DROP_CHUNK_SIZE`, or what is left.
pub open spec fn chunk_of(data: Seq<u8>, k: int) -> Seq<u8> {
    let start = k * DROP_CHUNK_SIZE;
    let end = if start + DROP_CHUNK_SIZE <= data.len() {
        start + DROP_CHUNK_SIZE
    } else {
        data.len() as int
    };
    data.subrange(start, end)
}

/// The first `n` pieces of `data`, one after the other.
pub open spec fn joined_chunks(data: Seq<u8>, n: nat) -> Seq<u8>
    decreases n,
{
    if n == 0 {
        Seq::empty()
    } else {
        joined_chunks(data, (n - 1) as nat) + chunk_of(data, n - 1)
    }
}

/// The transfer id that a file-drop message carries.
pub open spec fn drop_id(m: Message) -> Option<String> {
    match m {
        Message::DropStart { id, .. } => Some(id),
        Message::DropChunk { id, .. } => Some(id),
        Message::DropEnd { id } => Some(id),
        _ => None,
    }
}

/// The bytes that a receiver writes for transfer `id` from the messages
/// `msgs`, in order: the decoded payload of each `DropChunk` of that
/// transfer, one after the other; `None` if one of them does not decode.
pub open spec fn received_bytes(msgs: Seq<Message>, id: String) -> Option<Seq<u8>>
    decreases msgs.len(),
{
    if msgs.len() == 0 {
        Some(Seq::empty())
    } else {
        match received_bytes(msgs.drop_last(), id) {
            None => None,
            Some(prefix) => match msgs.last() {
                Message::DropChunk { id: i, data_b64 } => if i == id {
                    match base64_decoded(data_b64@) {
                        Some(piece) => Some(prefix + piece),
                        None => None,
                    }
                } else {
                    Some(prefix)
                },
                _ => Some(prefix),
            },
        }
    }
}

/// The messages that send the file `name` with content `contents`, in order,
/// or none at all where file drops are off in `cfg`: `DropStart` with a
/// fresh random transfer id, the size and the hash of the content; one
/// `DropChunk` per piece of `DROP_CHUNK_SIZE` bytes (the last one possibly
/// shorter, none for an empty file), each decoding back to its piece; and
/// `DropEnd`. All carry the same transfer id, and what a receiver rebuilds
/// from the pieces of that transfer is the content, whose hash `DropStart`
/// announces.
pub fn drop_messages(cfg: &Config, name: String, contents: &[u8]) -> (r: Vec<Message>)
    ensures
        !cfg.drops_enabled ==> r@.len() == 0,
        cfg.drops_enabled ==> {
            &&& r@.len() == chunk_count(contents@.len() as int) + 2
            &&& r@[0] matches Message::DropStart { id, name: n, size, sha256: h } && n == name && size
                == contents@.len() && h@ == hex_lower(sha256(contents@)) && is_v4_id(id@)
                && received_bytes(r@, id) == Some(contents@)
            &&& forall|k: int|
                0 <= k < chunk_count(contents@.len() as int) ==> (#[trigger] r@[k + 1] matches Message::DropChunk {
                    id,
                    data_b64,
                } && Some(id) == drop_id(r@[0]) && data_b64@ == base64_encoded(chunk_of(contents@, k))
                    && base64_decoded(data_b64@) == Some(chunk_of(contents@, k)))
            &&& r@.last() matches Message::DropEnd { id } && Some(id) == drop_id(r@[0])
        },
{
    let mut r: Vec<Message> = Vec::new();
    if !cfg.drops_enabled {
        return r;
    }
    let id = new_v4_uuid();
    let len = contents.len();
    let digest = sha256_hex(contents);
    r.push(Message::DropStart { id: id.clone(), name, size: len as u64, sha256: digest });
    let ghost first = r@[0];
    proof {
        assert(r@.drop_last() =~= Seq::<Message>::empty());
        assert(received_bytes(r@.drop_last(), id) == Some(Seq::<u8>::empty()));
        assert(received_bytes(r@, id) == Some(joined_chunks(contents@, 0)));
    }
    let mut start: usize = 0;
    let mut k: usize = 0;
    while start < len
        invariant
            len == contents@.len(),
            start <= len,
            start == k * DROP_CHUNK_SIZE || (start == len && k * DROP_CHUNK_SIZE > len),
            k == 0 || (k - 1) * DROP_CHUNK_SIZE < len,
            r@.len() == k + 1,
            r@[0] == first,
            drop_id(first) == Some(id),
            received_bytes(r@, id) == Some(joined_chunks(contents@, k as nat)),
            forall|j: int|
                0 <= j < k ==> (#[trigger] r@[j + 1] matches Message::DropChunk { id: i, data_b64 }
                    && i == id && data_b64@ == base64_encoded(chunk_of(contents@, j)) && base64_decoded(
                    data_b64@,
                ) == Some(chunk_of(contents@, j))),
        decreases len - start,
    {
        let end = if len - start > DROP_CHUNK_SIZE {
            start + DROP_CHUNK_SIZE
        } else {
            len
        };
        let chunk = vstd::slice::slice_subrange(contents, start, end);
        assert(chunk@ == chunk_of(contents@, k as int));
        let m = drop_chunk_message(id.clone(), chunk);
        let ghost before = r@;
        r.push(m);
        proof {
            assert(r@.drop_last() =~= before);
            assert(r@.last() == m);
        }
        start = end;
        k = k + 1;
    }
    assert(k as int == chunk_count(len as int));
    let ghost before = r@;
    r.push(Message::DropEnd { id });
    proof {
        assert(r@.drop_last() =~= before);
        drop_chunks_rebuild_contents(contents@);
    }
    r
}

proof fn lemma_joined_chunks(data: Seq<u8>, n: nat)
    requires
        n == 0 || (n - 1) * DROP_CHUNK_SIZE < data.len(),
    ensures
        joined_chunks(data, n) == data.subrange(
            0,
            if n * DROP_CHUNK_SIZE <= data.len() {
                n * DROP_CHUNK_SIZE
            } else {
                data.len() as int
            },
        ),
    decreases n,
{
    if n > 0 {
        lemma_joined_chunks(data, (n - 1) as nat);
        let prev_end = if (n - 1) * DROP_CHUNK_SIZE <= data.len() {
            (n - 1) * DROP_CHUNK_SIZE
        } else {
            data.len() as int
        };
        assert(data.subrange(0, prev_end) + chunk_of(data, n - 1) =~= data.subrange(
            0,
            if n * DROP_CHUNK_SIZE <= data.len() {
                n * DROP_CHUNK_SIZE
            } else {
                data.len() as int
            },
        ));
    }
}

/// The pieces of a dropped file put back together give the file: every
/// piece holds between one and `DROP_CHUNK_SIZE` bytes, and the pieces,
/// one after the other, are the whole content.
pub proof fn drop_chunks_rebuild_contents(data: Seq<u8>)
    ensures
        chunk_count(data.len() as int) >= 0,
        joined_chunks(data, chunk_count(data.len() as int) as nat) == data,
        forall|k: int|
            0 <= k < chunk_count(data.len() as int) ==> 0 < (#[trigger] chunk_of(data, k)).len()
                <= DROP_CHUNK_SIZE,
{
    let n = chunk_count(data.len() as int);
    lemma_joined_chunks(data, n as nat);
    assert(data.subrange(0, data.len() as int) =~= data);
}

} // verus!
