//! Binary chunk frames: the file identifier, length-prefixed, then the bytes
//! of the chunk. The receiver demultiplexes frames by that prefix.
use vstd::prelude::*;
use vstd::slice::{slice_subrange, slice_to_vec};
use vstd::utf8::encode_utf8;
use crate::error::Error;
use crate::protocol::{ClientMsg, ClientMsgView};

verus! {

/// Size of the chunks an uploader reads, in bytes.
pub const CHUNK_SIZE: u64 = 65536;

/// Longest identifier a frame can carry, in bytes.
pub const MAX_ID_LEN: usize = 65535;

/// A frame: two bytes of identifier length (big-endian), the identifier, the data.
pub open spec fn frame(id: Seq<u8>, data: Seq<u8>) -> Seq<u8> {
    seq![(id.len() / 256) as u8, (id.len() % 256) as u8] + id + data
}

/// The identifier and data that a frame carries, if it is a frame.
pub open spec fn unframe(b: Seq<u8>) -> Option<(Seq<u8>, Seq<u8>)> {
    if b.len() < 2 {
        None
    } else {
        let l = b[0] as int * 256 + b[1] as int;
        if 2 + l > b.len() {
            None
        } else {
            Some((b.subrange(2, 2 + l), b.subrange(2 + l, b.len() as int)))
        }
    }
}

/// Frames a chunk; `None` when the identifier is too long to frame.
pub fn encode_chunk(id: &[u8], data: &[u8]) -> (r: Option<Vec<u8>>)
    ensures
        id@.len() <= MAX_ID_LEN ==> r is Some && r->0@ == frame(id@, data@),
        id@.len() > MAX_ID_LEN ==> r is None,
{
    if id.len() > MAX_ID_LEN {
        return None;
    }
    let n = id.len();
    let mut out: Vec<u8> = Vec::new();
    out.push((n / 256) as u8);
    out.push((n % 256) as u8);
    assert(out@ =~= seq![(n / 256) as u8, (n % 256) as u8] + id@.take(0));
    let mut k: usize = 0;
    while k < id.len()
        invariant
            n == id@.len(),
            n <= MAX_ID_LEN,
            k <= n,
            out@ == seq![(n / 256) as u8, (n % 256) as u8] + id@.take(k as int),
        decreases id.len() - k,
    {
        out.push(id[k]);
        assert(out@ =~= seq![(n / 256) as u8, (n % 256) as u8] + id@.take(k + 1));
        k += 1;
    }
    assert(id@.take(n as int) =~= id@);
    assert(data@.take(0) =~= Seq::<u8>::empty());
    assert(out@ =~= seq![(n / 256) as u8, (n % 256) as u8] + id@ + data@.take(0));
    let mut k: usize = 0;
    while k < data.len()
        invariant
            n == id@.len(),
            n <= MAX_ID_LEN,
            k <= data@.len(),
            out@ == seq![(n / 256) as u8, (n % 256) as u8] + id@ + data@.take(k as int),
        decreases data.len() - k,
    {
        out.push(data[k]);
        assert(out@ =~= seq![(n / 256) as u8, (n % 256) as u8] + id@ + data@.take(k + 1));
        k += 1;
    }
    assert(data@.take(data@.len() as int) =~= data@);
    Some(out)
}

/// Splits a frame into its identifier and its data; `None` when the bytes
/// are too short for the length they announce.
pub fn decode_chunk(b: &[u8]) -> (r: Option<(Vec<u8>, Vec<u8>)>)
    ensures
        match unframe(b@) {
            None => r is None,
            Some((id, data)) => match r {
                Some(p) => p.0@ == id && p.1@ == data,
                None => false,
            },
        },
{
    if b.len() < 2 {
        return None;
    }
    let l = (b[0] as usize) * 256 + (b[1] as usize);
    if l > b.len() - 2 {
        return None;
    }
    let id = slice_to_vec(slice_subrange(b, 2, 2 + l));
    let data = slice_to_vec(slice_subrange(b, 2 + l, b.len()));
    Some((id, data))
}

/// Decoding a frame gives back the identifier and the data it was made of.
pub proof fn lemma_frame_round_trip(id: Seq<u8>, data: Seq<u8>)
    requires
        id.len() <= MAX_ID_LEN,
    ensures
        unframe(frame(id, data)) == Some((id, data)),
{
    let b = frame(id, data);
    let n = id.len();
    assert(b[0] as int * 256 + b[1] as int == n) by (nonlinear_arith)
        requires
            b[0] == (n / 256) as u8,
            b[1] == (n % 256) as u8,
            n <= 65535,
    {
    }
    assert(b.subrange(2, 2 + n as int) =~= id);
    assert(b.subrange(2 + n as int, b.len() as int) =~= data);
}

/// The chunks an uploader reads from `pos` on: each at most `CHUNK_SIZE`
/// bytes, in order, up to the end of the file.
pub open spec fn chunks_from(file: Seq<u8>, pos: int) -> Seq<Seq<u8>>
    decreases file.len() - pos,
{
    if pos >= file.len() || pos < 0 {
        Seq::empty()
    } else {
        let end = if pos + CHUNK_SIZE < file.len() { pos + CHUNK_SIZE } else { file.len() as int };
        seq![file.subrange(pos, end)] + chunks_from(file, end)
    }
}

pub open spec fn concat(parts: Seq<Seq<u8>>) -> Seq<u8>
    decreases parts.len(),
{
    if parts.len() == 0 {
        Seq::empty()
    } else {
        parts[0] + concat(parts.drop_first())
    }
}

/// A file sent chunk by chunk from `pos` and written chunk by chunk after
/// the first `pos` bytes gives back the file byte for byte.
pub proof fn lemma_chunks_reassemble(file: Seq<u8>, pos: int)
    requires
        0 <= pos <= file.len(),
    ensures
        file.take(pos) + concat(chunks_from(file, pos)) == file,
    decreases file.len() - pos,
{
    if pos == file.len() {
        assert(file.take(pos) =~= file);
        assert(concat(chunks_from(file, pos)) =~= Seq::<u8>::empty());
    } else {
        let end = if pos + CHUNK_SIZE < file.len() { pos + CHUNK_SIZE } else { file.len() as int };
        lemma_chunks_reassemble(file, end);
        let cs = chunks_from(file, pos);
        assert(cs.drop_first() =~= chunks_from(file, end));
        assert(file.take(pos) + file.subrange(pos, end) =~= file.take(end));
        assert(file.take(pos) + concat(cs) =~= file.take(pos) + file.subrange(pos, end) + concat(chunks_from(file, end)));
    }
}

/// End of the chunk that starts at `pos` in a file of `len` bytes.
pub fn chunk_end(pos: u64, len: u64) -> (r: u64)
    requires
        pos < len,
    ensures
        r == if pos + CHUNK_SIZE < len { pos + CHUNK_SIZE } else { len as int },
{
    if len - pos > CHUNK_SIZE {
        pos + CHUNK_SIZE
    } else {
        len
    }
}

/// The sending half of one file's upload task.
pub struct Uploader {
    pub file_id: String,
    pub offset: u64,
}

impl Uploader {
    pub fn new(file_id: String, offset: u64) -> (r: Self)
        ensures
            r.file_id@ == file_id@,
            r.offset == offset,
    {
        Uploader { file_id, offset }
    }

    /// The byte offset the upload starts at.
    pub fn offset(&self) -> (r: u64)
        ensures
            r == self.offset,
    {
        self.offset
    }

    /// The message reporting that this file's upload failed.
    pub fn error(&self, e: Error) -> (r: ClientMsg)
        ensures
            r@ == (ClientMsgView::Error { file: Some(self.file_id@), error: e }),
    {
        ClientMsg::Error { file: Some(self.file_id.clone()), error: e }
    }

    /// The frame carrying one chunk of this file.
    pub fn chunk(&self, data: &[u8]) -> (r: Option<Vec<u8>>)
        ensures
            encode_utf8(self.file_id@).len() <= MAX_ID_LEN ==> r is Some && r->0@ == frame(encode_utf8(self.file_id@), data@),
            encode_utf8(self.file_id@).len() > MAX_ID_LEN ==> r is None,
    {
        let id = self.file_id.as_str().as_bytes();
        encode_chunk(id, data)
    }
}

} // verus!
