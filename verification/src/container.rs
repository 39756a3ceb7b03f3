//! The container: its validation, the walk over its chunks and the set of
//! chunks that the walk collects.

use vstd::prelude::*;
use vstd::utf8::encode_utf8;
use crate::bext::{bext_at, read_bext_chunk, BroadcastAudioExtensionChunk, BroadcastAudioExtensionChunkView};
use crate::chunks::{
    fact_at, format_at, junk_at, read_data_chunk, read_fact_chunk, read_fmt_chunk,
    read_junk_chunk, skip_at, skip_chunk, DataChunk, DataChunkView, FactChunk, FactChunkView,
    FormatChunk, FormatChunkView, JunkChunk, JunkChunkView,
};
use crate::cursor::{remaining, ByteCursor};
use crate::error::{StructuralWarning, WaveError};
use crate::header::{
    header_at, is_container_tag, is_wave_tag, kind_of_tag, read_chunk_header, read_riff_header,
    riff_at, ChunkHeader, ChunkHeaderView, ChunkKind, RiffHeader, RiffHeaderView,
};

verus! {

/// What a container was found to hold: its header and, of each kind of
/// chunk, the last one met.
#[derive(Debug)]
pub struct AllChunks {
    pub broadcast_audio_extension_chunk: Option<BroadcastAudioExtensionChunk>,
    pub data_chunk: Option<DataChunk>,
    pub format_chunk: Option<FormatChunk>,
    pub fact_chunk: Option<FactChunk>,
    pub riff_header: RiffHeader,
    pub junk_chunk: Option<JunkChunk>,
    /// The findings that did not stop the walk, in the order met.
    pub warnings: Vec<StructuralWarning>,
}

/// What an `AllChunks` stands for.
pub struct AllChunksView {
    pub broadcast_audio_extension_chunk: Option<BroadcastAudioExtensionChunkView>,
    pub data_chunk: Option<DataChunkView>,
    pub format_chunk: Option<FormatChunkView>,
    pub fact_chunk: Option<FactChunkView>,
    pub riff_header: RiffHeaderView,
    pub junk_chunk: Option<JunkChunkView>,
    pub warnings: Seq<StructuralWarning>,
}

impl View for AllChunks {
    type V = AllChunksView;

    open spec fn view(&self) -> AllChunksView {
        AllChunksView {
            broadcast_audio_extension_chunk: match self.broadcast_audio_extension_chunk {
                Some(c) => Some(c@),
                None => None,
            },
            data_chunk: match self.data_chunk {
                Some(c) => Some(c@),
                None => None,
            },
            format_chunk: match self.format_chunk {
                Some(c) => Some(c@),
                None => None,
            },
            fact_chunk: match self.fact_chunk {
                Some(c) => Some(c@),
                None => None,
            },
            riff_header: self.riff_header@,
            junk_chunk: match self.junk_chunk {
                Some(c) => Some(c@),
                None => None,
            },
            warnings: self.warnings@,
        }
    }
}

/// The set that holds the container's header and nothing else.
pub open spec fn no_chunks(riff_header: RiffHeaderView) -> AllChunksView {
    AllChunksView {
        broadcast_audio_extension_chunk: None,
        data_chunk: None,
        format_chunk: None,
        fact_chunk: None,
        riff_header,
        junk_chunk: None,
        warnings: Seq::empty(),
    }
}

/// `warnings` with `found` added at the end, where something was found.
pub open spec fn with_warning(
    warnings: Seq<StructuralWarning>,
    found: Option<StructuralWarning>,
) -> Seq<StructuralWarning> {
    match found {
        Some(w) => warnings.push(w),
        None => warnings,
    }
}

/// What the chunk with header `header`, whose payload begins at `pos`,
/// makes of the set `found`, and where the cursor stands afterwards. A chunk
/// of a known kind takes the place of an earlier one of its kind. A chunk of
/// no known kind leaves the set as it is and moves the cursor by its declared
/// size.
pub open spec fn chunk_step(
    bytes: Seq<u8>,
    pos: u64,
    header: ChunkHeaderView,
    found: AllChunksView,
) -> (Result<AllChunksView, WaveError>, u64) {
    match kind_of_tag(encode_utf8(header.ck_id)) {
        ChunkKind::Format => match format_at(bytes, pos, header) {
            (Ok(chunk), end) => (Ok(AllChunksView { format_chunk: Some(chunk), ..found }), end),
            (Err(e), end) => (Err(e), end),
        },
        ChunkKind::Junk => match junk_at(bytes, pos, header) {
            (Ok(chunk), end) => (Ok(AllChunksView { junk_chunk: Some(chunk), ..found }), end),
            (Err(e), end) => (Err(e), end),
        },
        ChunkKind::Data => (
            Ok(AllChunksView { data_chunk: Some(DataChunkView { chunk_header: header }), ..found }),
            pos,
        ),
        ChunkKind::BroadcastExtension => match bext_at(bytes, pos, header) {
            (Ok((chunk, warning)), end) => (
                Ok(
                    AllChunksView {
                        broadcast_audio_extension_chunk: Some(chunk),
                        warnings: with_warning(found.warnings, warning),
                        ..found
                    },
                ),
                end,
            ),
            (Err(e), end) => (Err(e), end),
        },
        ChunkKind::Fact => match fact_at(bytes, pos, header) {
            (Ok(chunk), end) => (Ok(AllChunksView { fact_chunk: Some(chunk), ..found }), end),
            (Err(e), end) => (Err(e), end),
        },
        ChunkKind::Unrecognized => match skip_at(pos, header) {
            Ok(end) => (Ok(found), end),
            Err(e) => (Err(e), pos),
        },
    }
}

/// What the chunks from `pos` to the end of the stream make of the set
/// `found`, and where the cursor stands afterwards. The walk ends well where
/// a header is looked for at or behind the end of the stream; the first
/// error ends it otherwise.
pub open spec fn chunks_from(bytes: Seq<u8>, pos: u64, found: AllChunksView) -> (
    Result<AllChunksView, WaveError>,
    u64,
)
    decreases remaining(bytes.len(), pos),
    when bytes.len() <= u64::MAX
    via chunks_from_terminates
{
    match header_at(bytes, pos) {
        (Err(e), end) => (Err(e), end),
        (Ok(None), end) => (Ok(found), end),
        (Ok(Some(header)), payload) => match chunk_step(bytes, payload, header, found) {
            (Err(e), end) => (Err(e), end),
            (Ok(next), end) => chunks_from(bytes, end, next),
        },
    }
}

/// No chunk moves the cursor backwards.
pub proof fn lemma_chunk_step_advances(
    bytes: Seq<u8>,
    pos: u64,
    header: ChunkHeaderView,
    found: AllChunksView,
)
    requires
        bytes.len() <= u64::MAX,
    ensures
        chunk_step(bytes, pos, header, found).1 >= pos,
{
}

#[via_fn]
proof fn chunks_from_terminates(bytes: Seq<u8>, pos: u64, found: AllChunksView) {
    match header_at(bytes, pos) {
        (Ok(Some(header)), payload) => {
            lemma_chunk_step_advances(bytes, payload, header, found);
        },
        _ => {},
    }
}

/// What the container that begins at `pos` holds, and where the cursor
/// stands afterwards. The outer tag must mark a container and the form type
/// must be the audio marker; each is judged as soon as it is read.
pub open spec fn container_at(bytes: Seq<u8>, pos: u64) -> (Result<AllChunksView, WaveError>, u64) {
    match header_at(bytes, pos) {
        (Err(e), end) => (Err(e), end),
        (Ok(None), end) => (Err(WaveError::Truncated { offset: pos, expected: 8, available: 0 }), end),
        (Ok(Some(header)), payload) => if !is_container_tag(encode_utf8(header.ck_id)) {
            (Err(WaveError::InvalidContainer), payload)
        } else {
            match riff_at(bytes, payload, header) {
                (Err(e), end) => (Err(e), end),
                (Ok(riff_header), end) => if !is_wave_tag(encode_utf8(riff_header.riff_type)) {
                    (Err(WaveError::UnsupportedFormType), end)
                } else {
                    chunks_from(bytes, end, no_chunks(riff_header))
                },
            }
        },
    }
}

impl AllChunks {
    /// The set that holds the container's header and nothing else.
    pub fn new(riff_header: RiffHeader) -> (set: AllChunks)
        ensures
            set@ == no_chunks(riff_header@),
    {
        AllChunks {
            broadcast_audio_extension_chunk: None,
            data_chunk: None,
            format_chunk: None,
            fact_chunk: None,
            riff_header,
            junk_chunk: None,
            warnings: Vec::new(),
        }
    }
}

/// Decodes the chunk whose header was just read and puts it into the set:
/// by the decoder of its kind where the tag names one, in upper or lower
/// case, and by a skip over its payload otherwise.
pub fn dispatch_chunk(cursor: &mut ByteCursor, chunk_header: ChunkHeader, found: AllChunks) -> (r:
    Result<AllChunks, WaveError>)
    ensures
        final(cursor).bytes() == old(cursor).bytes(),
        final(cursor).pos() == chunk_step(
            old(cursor).bytes(),
            old(cursor).pos(),
            chunk_header@,
            found@,
        ).1,
        match chunk_step(old(cursor).bytes(), old(cursor).pos(), chunk_header@, found@).0 {
            Ok(set) => r is Ok && r->Ok_0@ == set,
            Err(e) => r is Err && r->Err_0 == e,
        },
{
    let mut found = found;
    match chunk_header.kind() {
        ChunkKind::Format => match read_fmt_chunk(cursor, chunk_header) {
            Ok(chunk) => {
                found.format_chunk = Some(chunk);
                Ok(found)
            },
            Err(e) => Err(e),
        },
        ChunkKind::Junk => match read_junk_chunk(cursor, chunk_header) {
            Ok(chunk) => {
                found.junk_chunk = Some(chunk);
                Ok(found)
            },
            Err(e) => Err(e),
        },
        ChunkKind::Data => {
            found.data_chunk = read_data_chunk(cursor, chunk_header);
            Ok(found)
        },
        ChunkKind::BroadcastExtension => match read_bext_chunk(cursor, chunk_header) {
            Ok((chunk, warning)) => {
                found.broadcast_audio_extension_chunk = Some(chunk);
                match warning {
                    Some(w) => {
                        found.warnings.push(w);
                    },
                    None => {},
                }
                Ok(found)
            },
            Err(e) => Err(e),
        },
        ChunkKind::Fact => match read_fact_chunk(cursor, chunk_header) {
            Ok(chunk) => {
                found.fact_chunk = Some(chunk);
                Ok(found)
            },
            Err(e) => Err(e),
        },
        ChunkKind::Unrecognized => match skip_chunk(cursor, chunk_header) {
            Ok(_) => Ok(found),
            Err(e) => Err(e),
        },
    }
}

/// Walks the chunks from the cursor to the end of the stream and adds them
/// to the set. The first error ends the walk.
pub fn read_chunks(cursor: &mut ByteCursor, found: AllChunks) -> (r: Result<AllChunks, WaveError>)
    ensures
        final(cursor).bytes() == old(cursor).bytes(),
        final(cursor).pos() == chunks_from(old(cursor).bytes(), old(cursor).pos(), found@).1,
        match chunks_from(old(cursor).bytes(), old(cursor).pos(), found@).0 {
            Ok(set) => r is Ok && r->Ok_0@ == set,
            Err(e) => r is Err && r->Err_0 == e,
        },
{
    proof {
        cursor.lemma_stream_bounded();
    }
    let ghost bytes = cursor.bytes();
    let ghost goal = chunks_from(bytes, cursor.pos(), found@);
    let mut set = found;
    loop
        invariant
            cursor.bytes() == bytes,
            old(cursor).bytes() == bytes,
            bytes.len() <= u64::MAX,
            goal == chunks_from(bytes, old(cursor).pos(), found@),
            chunks_from(bytes, cursor.pos(), set@) == goal,
        decreases remaining(bytes.len(), cursor.pos()),
    {
        let header: ChunkHeader = match read_chunk_header(cursor) {
            Ok(Some(header)) => header,
            Ok(None) => {
                return Ok(set);
            },
            Err(e) => {
                return Err(e);
            },
        };
        proof {
            lemma_chunk_step_advances(bytes, cursor.pos(), header@, set@);
        }
        set = match dispatch_chunk(cursor, header, set) {
            Ok(next) => next,
            Err(e) => {
                return Err(e);
            },
        };
    }
}

/// Decodes a container from the cursor's position: checks the outer tag
/// and the form type, then collects the chunks up to the end of the stream.
///
/// A tag that marks no container is refused as soon as the outer header is
/// read, and a form type other than the audio marker as soon as it is read:
/// nothing behind them is looked at.
pub fn get_file_chunks(cursor: &mut ByteCursor) -> (r: Result<AllChunks, WaveError>)
    ensures
        final(cursor).bytes() == old(cursor).bytes(),
        final(cursor).pos() == container_at(old(cursor).bytes(), old(cursor).pos()).1,
        match container_at(old(cursor).bytes(), old(cursor).pos()).0 {
            Ok(set) => r is Ok && r->Ok_0@ == set,
            Err(e) => r is Err && r->Err_0 == e,
        },
{
    let start: u64 = cursor.current_position();
    let outer: ChunkHeader = match read_chunk_header(cursor) {
        Ok(Some(header)) => header,
        Ok(None) => {
            return Err(WaveError::Truncated { offset: start, expected: 8, available: 0 });
        },
        Err(e) => {
            return Err(e);
        },
    };
    if !outer.is_container() {
        return Err(WaveError::InvalidContainer);
    }
    let riff_header: RiffHeader = match read_riff_header(cursor, outer) {
        Ok(riff_header) => riff_header,
        Err(e) => {
            return Err(e);
        },
    };
    if !riff_header.is_wave() {
        return Err(WaveError::UnsupportedFormType);
    }
    read_chunks(cursor, AllChunks::new(riff_header))
}

/// Whether `header` is the header that the stream holds in the eight bytes
/// before the payload position which it records.
pub open spec fn stands_in_stream(bytes: Seq<u8>, header: ChunkHeaderView) -> bool {
    header.data_pointer >= 8 && header_at(bytes, (header.data_pointer - 8) as u64) == (
        Ok::<Option<ChunkHeaderView>, WaveError>(Some(header)),
        header.data_pointer,
    )
}

/// Whether every header in `set` stands in the stream.
pub open spec fn headers_stand_in_stream(bytes: Seq<u8>, set: AllChunksView) -> bool {
    &&& stands_in_stream(bytes, set.riff_header.chunk_header)
    &&& set.format_chunk is Some ==> stands_in_stream(bytes, set.format_chunk->Some_0.chunk_header)
    &&& set.junk_chunk is Some ==> stands_in_stream(bytes, set.junk_chunk->Some_0.chunk_header)
    &&& set.data_chunk is Some ==> stands_in_stream(bytes, set.data_chunk->Some_0.chunk_header)
    &&& set.fact_chunk is Some ==> stands_in_stream(bytes, set.fact_chunk->Some_0.chunk_header)
    &&& set.broadcast_audio_extension_chunk is Some ==> stands_in_stream(
        bytes,
        set.broadcast_audio_extension_chunk->Some_0.chunk_header,
    )
}

/// A walk that starts from a set whose headers stand in the stream ends
/// with such a set.
pub proof fn lemma_walk_keeps_headers(bytes: Seq<u8>, pos: u64, found: AllChunksView)
    requires
        bytes.len() <= u64::MAX,
        headers_stand_in_stream(bytes, found),
        chunks_from(bytes, pos, found).0 is Ok,
    ensures
        headers_stand_in_stream(bytes, chunks_from(bytes, pos, found).0->Ok_0),
    decreases remaining(bytes.len(), pos),
{
    match header_at(bytes, pos) {
        (Ok(Some(header)), payload) => {
            lemma_chunk_step_advances(bytes, payload, header, found);
            match chunk_step(bytes, payload, header, found) {
                (Ok(next), end) => {
                    assert(stands_in_stream(bytes, header));
                    lemma_walk_keeps_headers(bytes, end, next);
                },
                _ => {},
            }
        },
        _ => {},
    }
}

/// For every chunk that a decoded container holds, and for the container
/// itself, the recorded payload position is the position right behind the
/// eight bytes of its header.
pub proof fn lemma_payload_offsets(bytes: Seq<u8>, pos: u64)
    requires
        bytes.len() <= u64::MAX,
        container_at(bytes, pos).0 is Ok,
    ensures
        headers_stand_in_stream(bytes, container_at(bytes, pos).0->Ok_0),
        container_at(bytes, pos).0->Ok_0.riff_header.chunk_header.data_pointer == pos + 8,
{
    let header = header_at(bytes, pos).0->Ok_0->Some_0;
    let payload = header_at(bytes, pos).1;
    let riff_header = riff_at(bytes, payload, header).0->Ok_0;
    let end = riff_at(bytes, payload, header).1;
    assert(stands_in_stream(bytes, header));
    lemma_walk_keeps_riff_header(bytes, end, no_chunks(riff_header));
    lemma_walk_keeps_headers(bytes, end, no_chunks(riff_header));
}

/// The walk leaves the container's header as it found it.
pub proof fn lemma_walk_keeps_riff_header(bytes: Seq<u8>, pos: u64, found: AllChunksView)
    requires
        bytes.len() <= u64::MAX,
        chunks_from(bytes, pos, found).0 is Ok,
    ensures
        chunks_from(bytes, pos, found).0->Ok_0.riff_header == found.riff_header,
    decreases remaining(bytes.len(), pos),
{
    match header_at(bytes, pos) {
        (Ok(Some(header)), payload) => {
            lemma_chunk_step_advances(bytes, payload, header, found);
            match chunk_step(bytes, payload, header, found) {
                (Ok(next), end) => {
                    lemma_walk_keeps_riff_header(bytes, end, next);
                },
                _ => {},
            }
        },
        _ => {},
    }
}

/// A walk ends well only at or behind the end of the stream.
pub proof fn lemma_walk_ends_at_end_of_stream(bytes: Seq<u8>, pos: u64, found: AllChunksView)
    requires
        bytes.len() <= u64::MAX,
        chunks_from(bytes, pos, found).0 is Ok,
    ensures
        remaining(bytes.len(), chunks_from(bytes, pos, found).1) == 0,
    decreases remaining(bytes.len(), pos),
{
    match header_at(bytes, pos) {
        (Ok(Some(header)), payload) => {
            lemma_chunk_step_advances(bytes, payload, header, found);
            match chunk_step(bytes, payload, header, found) {
                (Ok(next), end) => {
                    lemma_walk_ends_at_end_of_stream(bytes, end, next);
                },
                _ => {},
            }
        },
        _ => {},
    }
}

/// A chunk whose tag names no known kind is stepped over by exactly its
/// declared size: the cursor stands where a decoder that had consumed the
/// whole payload would have left it, and the set is as it was.
pub proof fn lemma_unrecognized_chunk_is_stepped_over(
    bytes: Seq<u8>,
    pos: u64,
    header: ChunkHeaderView,
    found: AllChunksView,
)
    requires
        kind_of_tag(encode_utf8(header.ck_id)) == ChunkKind::Unrecognized,
        pos + header.ck_size <= u64::MAX,
    ensures
        chunk_step(bytes, pos, header, found) == (
            Ok::<AllChunksView, WaveError>(found),
            (pos + header.ck_size) as u64,
        ),
{
}

/// A stream whose outer tag marks no container is refused with
/// `InvalidContainer`, and the cursor stays right behind the outer header.
pub proof fn lemma_foreign_container_is_refused(bytes: Seq<u8>, pos: u64)
    requires
        header_at(bytes, pos).0 is Ok,
        header_at(bytes, pos).0->Ok_0 is Some,
        !is_container_tag(encode_utf8(header_at(bytes, pos).0->Ok_0->Some_0.ck_id)),
    ensures
        container_at(bytes, pos) == (
            Err::<AllChunksView, WaveError>(WaveError::InvalidContainer),
            (pos + 8) as u64,
        ),
{
}

/// A container that ends behind its form type holds its header and no
/// chunk.
pub proof fn lemma_container_without_chunks(bytes: Seq<u8>, pos: u64)
    requires
        bytes.len() == pos + 12,
        bytes.len() <= u64::MAX,
        header_at(bytes, pos).0 is Ok,
        header_at(bytes, pos).0->Ok_0 is Some,
        is_container_tag(encode_utf8(header_at(bytes, pos).0->Ok_0->Some_0.ck_id)),
        riff_at(bytes, (pos + 8) as u64, header_at(bytes, pos).0->Ok_0->Some_0).0 is Ok,
        is_wave_tag(
            encode_utf8(
                riff_at(
                    bytes,
                    (pos + 8) as u64,
                    header_at(bytes, pos).0->Ok_0->Some_0,
                ).0->Ok_0.riff_type,
            ),
        ),
    ensures
        container_at(bytes, pos) == (
            Ok::<AllChunksView, WaveError>(
                no_chunks(
                    riff_at(bytes, (pos + 8) as u64, header_at(bytes, pos).0->Ok_0->Some_0).0->Ok_0,
                ),
            ),
            (pos + 12) as u64,
        ),
{
}

} // verus!
