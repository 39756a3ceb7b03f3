//! The short chunks: format, fact, data and junk, and the skip over a chunk
//! that is not decoded.

use vstd::prelude::*;
use crate::cursor::{read_at, seek_target, ByteCursor};
use crate::error::WaveError;
use crate::header::{ChunkHeader, ChunkHeaderView};
use crate::le::{le_u16_at, le_u32_at, u16_from_le, u32_from_le};

verus! {

/// The format tag of uncompressed integer PCM.
pub const FORMAT_PCM: u16 = 1;

/// The sample format of the audio data.
#[derive(Debug)]
pub struct FormatChunk {
    pub chunk_header: ChunkHeader,
    pub format_tag: u16,
    pub channel_count: u16,
    pub sample_rate: u32,
    pub bytes_per_second: u32,
    pub block_alignment: u16,
    /// Present for PCM and for no other format.
    pub bits_per_sample: Option<u16>,
}

/// What a `FormatChunk` stands for.
pub struct FormatChunkView {
    pub chunk_header: ChunkHeaderView,
    pub format_tag: u16,
    pub channel_count: u16,
    pub sample_rate: u32,
    pub bytes_per_second: u32,
    pub block_alignment: u16,
    pub bits_per_sample: Option<u16>,
}

impl View for FormatChunk {
    type V = FormatChunkView;

    open spec fn view(&self) -> FormatChunkView {
        FormatChunkView {
            chunk_header: self.chunk_header@,
            format_tag: self.format_tag,
            channel_count: self.channel_count,
            sample_rate: self.sample_rate,
            bytes_per_second: self.bytes_per_second,
            block_alignment: self.block_alignment,
            bits_per_sample: self.bits_per_sample,
        }
    }
}

/// The layout of a format chunk that carries the extended fields. No
/// decoder fills it.
#[derive(Debug)]
pub struct WaveFormatExtendedTag {
    pub chunk_header: ChunkHeader,
    pub format_tag: u16,
    pub channel_count: u16,
    pub sample_rate: u32,
    pub bytes_per_second: u32,
    pub block_alignment: u16,
    pub bits_per_sample: u16,
    pub cb_size: u16,
}

/// The number of samples per channel.
#[derive(Debug)]
pub struct FactChunk {
    pub chunk_header: ChunkHeader,
    pub sample_length: u32,
}

/// What a `FactChunk` stands for.
pub struct FactChunkView {
    pub chunk_header: ChunkHeaderView,
    pub sample_length: u32,
}

impl View for FactChunk {
    type V = FactChunkView;

    open spec fn view(&self) -> FactChunkView {
        FactChunkView { chunk_header: self.chunk_header@, sample_length: self.sample_length }
    }
}

/// Where the audio data lies. The samples themselves are not read.
#[derive(Debug)]
pub struct DataChunk {
    pub chunk_header: ChunkHeader,
}

/// What a `DataChunk` stands for.
pub struct DataChunkView {
    pub chunk_header: ChunkHeaderView,
}

impl View for DataChunk {
    type V = DataChunkView;

    open spec fn view(&self) -> DataChunkView {
        DataChunkView { chunk_header: self.chunk_header@ }
    }
}

/// A filler chunk and the bytes it holds.
#[derive(Debug)]
pub struct JunkChunk {
    pub chunk_header: ChunkHeader,
    pub junk: Option<Vec<u8>>,
}

/// What a `JunkChunk` stands for.
pub struct JunkChunkView {
    pub chunk_header: ChunkHeaderView,
    pub junk: Option<Seq<u8>>,
}

impl View for JunkChunk {
    type V = JunkChunkView;

    open spec fn view(&self) -> JunkChunkView {
        JunkChunkView {
            chunk_header: self.chunk_header@,
            junk: match self.junk {
                Some(v) => Some(v@),
                None => None,
            },
        }
    }
}

/// The format chunk whose payload begins at `pos`, and where the cursor
/// stands afterwards. Fourteen bytes hold the five common fields. The two
/// bytes behind them are the sample width for PCM; for any other format
/// they are stepped over unread, so that the chunk counts as consumed at
/// sixteen bytes either way.
pub open spec fn format_at(bytes: Seq<u8>, pos: u64, header: ChunkHeaderView) -> (
    Result<FormatChunkView, WaveError>,
    u64,
) {
    match read_at(bytes, pos, 14) {
        Err(e) => (Err(e), pos),
        Ok(raw) => {
            let mid = (pos + 14) as u64;
            let common = FormatChunkView {
                chunk_header: header,
                format_tag: le_u16_at(raw, 0) as u16,
                channel_count: le_u16_at(raw, 2) as u16,
                sample_rate: le_u32_at(raw, 4) as u32,
                bytes_per_second: le_u32_at(raw, 8) as u32,
                block_alignment: le_u16_at(raw, 12) as u16,
                bits_per_sample: None,
            };
            if common.format_tag != FORMAT_PCM {
                match seek_target(mid, 2) {
                    Ok(end) => (Ok(common), end),
                    Err(e) => (Err(e), mid),
                }
            } else {
                match read_at(bytes, mid, 2) {
                    Err(e) => (Err(e), mid),
                    Ok(width) => (
                        Ok(
                            FormatChunkView {
                                bits_per_sample: Some(le_u16_at(width, 0) as u16),
                                ..common
                            },
                        ),
                        (pos + 16) as u64,
                    ),
                }
            }
        },
    }
}

/// The fact chunk whose payload begins at `pos`, and where the cursor
/// stands afterwards.
pub open spec fn fact_at(bytes: Seq<u8>, pos: u64, header: ChunkHeaderView) -> (
    Result<FactChunkView, WaveError>,
    u64,
) {
    match read_at(bytes, pos, 4) {
        Err(e) => (Err(e), pos),
        Ok(raw) => (
            Ok(FactChunkView { chunk_header: header, sample_length: le_u32_at(raw, 0) as u32 }),
            (pos + 4) as u64,
        ),
    }
}

/// The junk chunk whose payload begins at `pos`, and where the cursor
/// stands afterwards: the payload is taken whole.
pub open spec fn junk_at(bytes: Seq<u8>, pos: u64, header: ChunkHeaderView) -> (
    Result<JunkChunkView, WaveError>,
    u64,
) {
    match read_at(bytes, pos, header.ck_size as u64) {
        Err(e) => (Err(e), pos),
        Ok(raw) => (
            Ok(JunkChunkView { chunk_header: header, junk: Some(raw) }),
            (pos + header.ck_size) as u64,
        ),
    }
}

/// Where a skip over the payload of `header` lands from `pos`.
pub open spec fn skip_at(pos: u64, header: ChunkHeaderView) -> Result<u64, WaveError> {
    seek_target(pos, header.ck_size as i64)
}

/// Decodes a format chunk and leaves the cursor sixteen bytes behind the
/// start of its payload. The sample width is decoded for PCM and for no
/// other format: there the cursor steps over its two bytes without reading
/// them. Bytes that a chunk holds beyond the sixteen are left in the stream.
pub fn read_fmt_chunk(cursor: &mut ByteCursor, chunk_header: ChunkHeader) -> (r: Result<
    FormatChunk,
    WaveError,
>)
    ensures
        final(cursor).bytes() == old(cursor).bytes(),
        final(cursor).pos() == format_at(old(cursor).bytes(), old(cursor).pos(), chunk_header@).1,
        match format_at(old(cursor).bytes(), old(cursor).pos(), chunk_header@).0 {
            Ok(chunk) => r is Ok && r->Ok_0@ == chunk,
            Err(e) => r is Err && r->Err_0 == e,
        },
        r is Ok ==> (r->Ok_0.bits_per_sample is Some <==> r->Ok_0.format_tag == FORMAT_PCM),
        r is Ok ==> final(cursor).pos() == old(cursor).pos() + 16,
{
    let raw: Vec<u8> = match cursor.read_exact(14) {
        Ok(raw) => raw,
        Err(e) => {
            return Err(e);
        },
    };
    let fields: &[u8] = raw.as_slice();
    let format_tag: u16 = u16_from_le(fields, 0);
    let mut bits_per_sample: Option<u16> = None;
    if format_tag == FORMAT_PCM {
        let width: Vec<u8> = match cursor.read_exact(2) {
            Ok(width) => width,
            Err(e) => {
                return Err(e);
            },
        };
        bits_per_sample = Some(u16_from_le(width.as_slice(), 0));
    } else {
        match cursor.seek_relative(2) {
            Ok(_) => {},
            Err(e) => {
                return Err(e);
            },
        }
    }
    Ok(
        FormatChunk {
            chunk_header,
            format_tag,
            channel_count: u16_from_le(fields, 2),
            sample_rate: u32_from_le(fields, 4),
            bytes_per_second: u32_from_le(fields, 8),
            block_alignment: u16_from_le(fields, 12),
            bits_per_sample,
        },
    )
}

/// Decodes a fact chunk: one 32-bit sample count.
pub fn read_fact_chunk(cursor: &mut ByteCursor, chunk_header: ChunkHeader) -> (r: Result<
    FactChunk,
    WaveError,
>)
    ensures
        final(cursor).bytes() == old(cursor).bytes(),
        final(cursor).pos() == fact_at(old(cursor).bytes(), old(cursor).pos(), chunk_header@).1,
        match fact_at(old(cursor).bytes(), old(cursor).pos(), chunk_header@).0 {
            Ok(chunk) => r is Ok && r->Ok_0@ == chunk,
            Err(e) => r is Err && r->Err_0 == e,
        },
{
    let raw: Vec<u8> = match cursor.read_exact(4) {
        Ok(raw) => raw,
        Err(e) => {
            return Err(e);
        },
    };
    Ok(FactChunk { chunk_header, sample_length: u32_from_le(raw.as_slice(), 0) })
}

/// Records where the audio data lies. The cursor does not move: it stays at
/// the first byte of the payload.
pub fn read_data_chunk(cursor: &mut ByteCursor, chunk_header: ChunkHeader) -> (r: Option<DataChunk>)
    ensures
        final(cursor).bytes() == old(cursor).bytes(),
        final(cursor).pos() == old(cursor).pos(),
        r is Some,
        r->Some_0@ == (DataChunkView { chunk_header: chunk_header@ }),
{
    Some(DataChunk { chunk_header })
}

/// Decodes a junk chunk: takes the declared number of bytes as they are and
/// leaves the cursor behind them.
pub fn read_junk_chunk(cursor: &mut ByteCursor, chunk_header: ChunkHeader) -> (r: Result<
    JunkChunk,
    WaveError,
>)
    ensures
        final(cursor).bytes() == old(cursor).bytes(),
        final(cursor).pos() == junk_at(old(cursor).bytes(), old(cursor).pos(), chunk_header@).1,
        match junk_at(old(cursor).bytes(), old(cursor).pos(), chunk_header@).0 {
            Ok(chunk) => r is Ok && r->Ok_0@ == chunk,
            Err(e) => r is Err && r->Err_0 == e,
        },
{
    let raw: Vec<u8> = match cursor.read_exact(chunk_header.ck_size as u64) {
        Ok(raw) => raw,
        Err(e) => {
            return Err(e);
        },
    };
    Ok(JunkChunk { chunk_header, junk: Some(raw) })
}

/// Moves the cursor over a payload without reading it: forward by exactly
/// the declared size, whatever the stream holds there. Returns the new
/// position.
pub fn skip_chunk(cursor: &mut ByteCursor, chunk_header: ChunkHeader) -> (r: Result<u64, WaveError>)
    ensures
        final(cursor).bytes() == old(cursor).bytes(),
        r == skip_at(old(cursor).pos(), chunk_header@),
        r is Ok ==> final(cursor).pos() == old(cursor).pos() + chunk_header.ck_size
            && r->Ok_0 == final(cursor).pos(),
        r is Err ==> final(cursor).pos() == old(cursor).pos(),
{
    cursor.seek_relative(chunk_header.ck_size as i64)
}

} // verus!
