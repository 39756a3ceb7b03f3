//! Chunk headers: the eight bytes in front of every chunk, and the form
//! type that follows the outermost one.

use vstd::prelude::*;
use vstd::slice::{slice_subrange, slice_to_vec};
use vstd::string::*;
use vstd::utf8::{decode_utf8_encode_utf8, encode_utf8};
use crate::cursor::{read_at, remaining, ByteCursor};
use crate::error::WaveError;
use crate::le::{le_bytes_of_u32, le_u32_at, lemma_le_bytes_of_u32, u32_from_le, u32_to_le};
use crate::text::{decode_text, text_of};

verus! {

/// The header of one chunk.
#[derive(Debug)]
pub struct ChunkHeader {
    /// The chunk's four-byte tag, as text.
    pub ck_id: String,
    /// The payload's length in bytes; the header itself is not counted.
    pub ck_size: u32,
    /// The absolute position at which the payload begins.
    pub data_pointer: u64,
}

/// What a `ChunkHeader` stands for.
pub struct ChunkHeaderView {
    pub ck_id: Seq<char>,
    pub ck_size: u32,
    pub data_pointer: u64,
}

impl View for ChunkHeader {
    type V = ChunkHeaderView;

    open spec fn view(&self) -> ChunkHeaderView {
        ChunkHeaderView {
            ck_id: self.ck_id@,
            ck_size: self.ck_size,
            data_pointer: self.data_pointer,
        }
    }
}

/// The outermost header together with the container's form type.
#[derive(Debug)]
pub struct RiffHeader {
    pub chunk_header: ChunkHeader,
    /// The four-byte form type, as text.
    pub riff_type: String,
}

/// What a `RiffHeader` stands for.
pub struct RiffHeaderView {
    pub chunk_header: ChunkHeaderView,
    pub riff_type: Seq<char>,
}

impl View for RiffHeader {
    type V = RiffHeaderView;

    open spec fn view(&self) -> RiffHeaderView {
        RiffHeaderView { chunk_header: self.chunk_header@, riff_type: self.riff_type@ }
    }
}

/// The kinds of chunk that the decoder tells apart.
#[derive(Clone, Copy, Debug, PartialEq, Eq, Structural)]
pub enum ChunkKind {
    Format,
    Junk,
    Data,
    BroadcastExtension,
    Fact,
    Unrecognized,
}

/// The lower-case form of an ASCII letter; any other byte unchanged.
pub open spec fn ascii_lower(b: u8) -> u8 {
    if 0x41 <= b <= 0x5a {
        (b + 0x20) as u8
    } else {
        b
    }
}

/// Whether `tag` is the four bytes given.
pub open spec fn tag_is(tag: Seq<u8>, b0: u8, b1: u8, b2: u8, b3: u8) -> bool {
    tag.len() == 4 && tag[0] == b0 && tag[1] == b1 && tag[2] == b2 && tag[3] == b3
}

/// Whether `tag` is the four lower-case bytes given, in upper or lower case.
pub open spec fn tag_is_nocase(tag: Seq<u8>, b0: u8, b1: u8, b2: u8, b3: u8) -> bool {
    tag.len() == 4 && ascii_lower(tag[0]) == b0 && ascii_lower(tag[1]) == b1 && ascii_lower(tag[2])
        == b2 && ascii_lower(tag[3]) == b3
}

/// The kind that a tag's bytes name: `fmt `, `junk`, `data`, `bext` and
/// `fact` in any case, and nothing else.
pub open spec fn kind_of_tag(tag: Seq<u8>) -> ChunkKind {
    if tag_is_nocase(tag, 0x66, 0x6d, 0x74, 0x20) {
        ChunkKind::Format
    } else if tag_is_nocase(tag, 0x6a, 0x75, 0x6e, 0x6b) {
        ChunkKind::Junk
    } else if tag_is_nocase(tag, 0x64, 0x61, 0x74, 0x61) {
        ChunkKind::Data
    } else if tag_is_nocase(tag, 0x62, 0x65, 0x78, 0x74) {
        ChunkKind::BroadcastExtension
    } else if tag_is_nocase(tag, 0x66, 0x61, 0x63, 0x74) {
        ChunkKind::Fact
    } else {
        ChunkKind::Unrecognized
    }
}

/// Whether `tag` marks a container: `RIFF`, or `RF64` for large files.
pub open spec fn is_container_tag(tag: Seq<u8>) -> bool {
    tag_is(tag, 0x52, 0x49, 0x46, 0x46) || tag_is(tag, 0x52, 0x46, 0x36, 0x34)
}

/// Whether `tag` is the audio form type, `WAVE`.
pub open spec fn is_wave_tag(tag: Seq<u8>) -> bool {
    tag_is(tag, 0x57, 0x41, 0x56, 0x45)
}

/// The header that stands at `pos`, and where the cursor stands after it
/// was looked for. At the end of the stream there is none. A stream that
/// ends inside the header is an error and leaves the cursor at `pos`; a tag
/// that is no text is an error behind the header's eight bytes.
pub open spec fn header_at(bytes: Seq<u8>, pos: u64) -> (
    Result<Option<ChunkHeaderView>, WaveError>,
    u64,
) {
    if remaining(bytes.len(), pos) == 0 {
        (Ok(None), pos)
    } else {
        match read_at(bytes, pos, 8) {
            Err(e) => (Err(e), pos),
            Ok(raw) => {
                let end = (pos + 8) as u64;
                match text_of(raw.subrange(0, 4)) {
                    None => (Err(WaveError::InvalidText { offset: pos, length: 4 }), end),
                    Some(tag) => (
                        Ok(
                            Some(
                                ChunkHeaderView {
                                    ck_id: tag,
                                    ck_size: le_u32_at(raw, 4) as u32,
                                    data_pointer: end,
                                },
                            ),
                        ),
                        end,
                    ),
                }
            },
        }
    }
}

/// The container header that `header` and the four bytes at `pos` make, and
/// where the cursor stands afterwards.
pub open spec fn riff_at(bytes: Seq<u8>, pos: u64, header: ChunkHeaderView) -> (
    Result<RiffHeaderView, WaveError>,
    u64,
) {
    match read_at(bytes, pos, 4) {
        Err(e) => (Err(e), pos),
        Ok(raw) => {
            let end = (pos + 4) as u64;
            match text_of(raw) {
                None => (Err(WaveError::InvalidText { offset: pos, length: 4 }), end),
                Some(form) => (Ok(RiffHeaderView { chunk_header: header, riff_type: form }), end),
            }
        },
    }
}

/// The eight bytes that a header is read from: its tag, then its size.
pub open spec fn header_bytes(header: ChunkHeaderView) -> Seq<u8> {
    encode_utf8(header.ck_id) + le_bytes_of_u32(header.ck_size)
}

/// Whether a decoder's answer is the one that the model gives.
pub open spec fn header_answer_is(
    r: Result<Option<ChunkHeader>, WaveError>,
    m: Result<Option<ChunkHeaderView>, WaveError>,
) -> bool {
    match m {
        Ok(Some(h)) => r is Ok && r->Ok_0 is Some && r->Ok_0->Some_0@ == h,
        Ok(None) => r is Ok && r->Ok_0 is None,
        Err(e) => r is Err && r->Err_0 == e,
    }
}

impl ChunkHeader {
    /// The bytes of the tag.
    pub open spec fn tag_bytes(&self) -> Seq<u8> {
        encode_utf8(self.ck_id@)
    }

    /// Which kind of chunk the tag names, in upper or lower case.
    pub fn kind(&self) -> (k: ChunkKind)
        ensures
            k == kind_of_tag(self.tag_bytes()),
    {
        let tag: &[u8] = self.ck_id.as_str().as_bytes();
        if tag.len() != 4 {
            return ChunkKind::Unrecognized;
        }
        let b0: u8 = lower(tag[0]);
        let b1: u8 = lower(tag[1]);
        let b2: u8 = lower(tag[2]);
        let b3: u8 = lower(tag[3]);
        if b0 == 0x66 && b1 == 0x6d && b2 == 0x74 && b3 == 0x20 {
            ChunkKind::Format
        } else if b0 == 0x6a && b1 == 0x75 && b2 == 0x6e && b3 == 0x6b {
            ChunkKind::Junk
        } else if b0 == 0x64 && b1 == 0x61 && b2 == 0x74 && b3 == 0x61 {
            ChunkKind::Data
        } else if b0 == 0x62 && b1 == 0x65 && b2 == 0x78 && b3 == 0x74 {
            ChunkKind::BroadcastExtension
        } else if b0 == 0x66 && b1 == 0x61 && b2 == 0x63 && b3 == 0x74 {
            ChunkKind::Fact
        } else {
            ChunkKind::Unrecognized
        }
    }

    /// Whether the tag marks a container.
    pub fn is_container(&self) -> (b: bool)
        ensures
            b == is_container_tag(self.tag_bytes()),
    {
        let tag: &[u8] = self.ck_id.as_str().as_bytes();
        tag.len() == 4 && tag[0] == 0x52 && ((tag[1] == 0x49 && tag[2] == 0x46 && tag[3] == 0x46)
            || (tag[1] == 0x46 && tag[2] == 0x36 && tag[3] == 0x34))
    }

    /// The header as it stands in a stream: the tag, then the size with its
    /// least significant byte first.
    pub fn to_bytes(&self) -> (b: Vec<u8>)
        ensures
            b@ == header_bytes(self@),
    {
        let mut b: Vec<u8> = slice_to_vec(self.ck_id.as_str().as_bytes());
        let mut size: Vec<u8> = u32_to_le(self.ck_size);
        b.append(&mut size);
        b
    }
}

impl RiffHeader {
    /// Whether the form type is the audio marker.
    pub fn is_wave(&self) -> (b: bool)
        ensures
            b == is_wave_tag(encode_utf8(self.riff_type@)),
    {
        let tag: &[u8] = self.riff_type.as_str().as_bytes();
        tag.len() == 4 && tag[0] == 0x57 && tag[1] == 0x41 && tag[2] == 0x56 && tag[3] == 0x45
    }
}

/// The lower-case form of an ASCII letter; any other byte unchanged.
fn lower(b: u8) -> (l: u8)
    ensures
        l == ascii_lower(b),
{
    if 0x41 <= b && b <= 0x5a {
        b + 0x20
    } else {
        b
    }
}

/// Reads the next chunk header. At the end of the stream there is none;
/// a stream that ends inside the header, or a tag that is no text, is an
/// error. The payload position recorded in the header is the position right
/// behind the header's eight bytes.
pub fn read_chunk_header(cursor: &mut ByteCursor) -> (r: Result<Option<ChunkHeader>, WaveError>)
    ensures
        final(cursor).bytes() == old(cursor).bytes(),
        final(cursor).pos() == header_at(old(cursor).bytes(), old(cursor).pos()).1,
        header_answer_is(r, header_at(old(cursor).bytes(), old(cursor).pos()).0),
        r is Ok && r->Ok_0 is Some ==> r->Ok_0->Some_0.data_pointer == old(cursor).pos() + 8
            && r->Ok_0->Some_0.data_pointer == final(cursor).pos(),
{
    if cursor.available() == 0 {
        return Ok(None);
    }
    let start: u64 = cursor.current_position();
    let raw: Vec<u8> = match cursor.read_exact(8) {
        Ok(raw) => raw,
        Err(e) => {
            return Err(e);
        },
    };
    let tag: Vec<u8> = slice_to_vec(slice_subrange(raw.as_slice(), 0, 4));
    let ck_size: u32 = u32_from_le(raw.as_slice(), 4);
    match decode_text(tag) {
        None => Err(WaveError::InvalidText { offset: start, length: 4 }),
        Some(ck_id) => Ok(
            Some(ChunkHeader { ck_id, ck_size, data_pointer: cursor.current_position() }),
        ),
    }
}

/// Reads the form type that follows the outermost header.
pub fn read_riff_header(cursor: &mut ByteCursor, chunk_header: ChunkHeader) -> (r: Result<
    RiffHeader,
    WaveError,
>)
    ensures
        final(cursor).bytes() == old(cursor).bytes(),
        final(cursor).pos() == riff_at(old(cursor).bytes(), old(cursor).pos(), chunk_header@).1,
        match riff_at(old(cursor).bytes(), old(cursor).pos(), chunk_header@).0 {
            Ok(h) => r is Ok && r->Ok_0@ == h,
            Err(e) => r is Err && r->Err_0 == e,
        },
{
    let start: u64 = cursor.current_position();
    let raw: Vec<u8> = match cursor.read_exact(4) {
        Ok(raw) => raw,
        Err(e) => {
            return Err(e);
        },
    };
    match decode_text(raw) {
        None => Err(WaveError::InvalidText { offset: start, length: 4 }),
        Some(riff_type) => Ok(RiffHeader { chunk_header, riff_type }),
    }
}

/// Writing a header back gives the eight bytes that it was read from.
pub proof fn lemma_header_round_trip(bytes: Seq<u8>, pos: u64)
    requires
        header_at(bytes, pos).0 is Ok,
        header_at(bytes, pos).0->Ok_0 is Some,
    ensures
        header_bytes(header_at(bytes, pos).0->Ok_0->Some_0) == bytes.subrange(
            pos as int,
            pos as int + 8,
        ),
{
    let raw = bytes.subrange(pos as int, pos as int + 8);
    let tag = raw.subrange(0, 4);
    decode_utf8_encode_utf8(tag);
    lemma_le_bytes_of_u32(raw, 4);
    assert(tag + raw.subrange(4, 8) =~= raw);
}

} // verus!
