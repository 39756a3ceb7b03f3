//! The broadcast extension chunk: fixed-width text and numbers, a reserved
//! region, and a coding history whose length follows from the chunk's size.

use vstd::prelude::*;
use vstd::slice::{slice_subrange, slice_to_vec};
use crate::cursor::{read_at, seek_target, ByteCursor};
use crate::error::{StructuralWarning, WaveError};
use crate::header::{ChunkHeader, ChunkHeaderView};
use crate::le::{le_u16_at, le_u64_at, u16_from_le, u64_from_le};
use crate::text::{decode_padded_text, decode_text, padded_text_of, text_of};

verus! {

/// The length of the fields that every broadcast extension chunk holds.
pub const BEXT_FIXED_LEN: u64 = 422;

/// The length of the reserved region behind the fixed fields.
pub const BEXT_RESERVED_LEN: i64 = 180;

/// Broadcast metadata.
#[derive(Debug)]
pub struct BroadcastAudioExtensionChunk {
    pub chunk_header: ChunkHeader,
    pub description: String,
    pub originator: String,
    pub originator_reference: String,
    pub origination_date: String,
    pub origination_time: String,
    pub time_reference: u64,
    pub version: u16,
    pub umid: [u8; 64],
    pub loudness_value: u16,
    pub loudness_range: u16,
    pub max_true_peak_level: u16,
    pub max_momentary_loudness: u16,
    pub max_short_term_loudness: u16,
    /// The text behind the reserved region, where the chunk has any.
    pub coding_history: Option<String>,
}

/// What a `BroadcastAudioExtensionChunk` stands for.
pub struct BroadcastAudioExtensionChunkView {
    pub chunk_header: ChunkHeaderView,
    pub description: Seq<char>,
    pub originator: Seq<char>,
    pub originator_reference: Seq<char>,
    pub origination_date: Seq<char>,
    pub origination_time: Seq<char>,
    pub time_reference: u64,
    pub version: u16,
    pub umid: Seq<u8>,
    pub loudness_value: u16,
    pub loudness_range: u16,
    pub max_true_peak_level: u16,
    pub max_momentary_loudness: u16,
    pub max_short_term_loudness: u16,
    pub coding_history: Option<Seq<char>>,
}

impl View for BroadcastAudioExtensionChunk {
    type V = BroadcastAudioExtensionChunkView;

    open spec fn view(&self) -> BroadcastAudioExtensionChunkView {
        BroadcastAudioExtensionChunkView {
            chunk_header: self.chunk_header@,
            description: self.description@,
            originator: self.originator@,
            originator_reference: self.originator_reference@,
            origination_date: self.origination_date@,
            origination_time: self.origination_time@,
            time_reference: self.time_reference,
            version: self.version,
            umid: self.umid@,
            loudness_value: self.loudness_value,
            loudness_range: self.loudness_range,
            max_true_peak_level: self.max_true_peak_level,
            max_momentary_loudness: self.max_momentary_loudness,
            max_short_term_loudness: self.max_short_term_loudness,
            coding_history: match self.coding_history {
                Some(s) => Some(s@),
                None => None,
            },
        }
    }
}

/// How many bytes of the chunk lie at and after `pos`: the chunk's end less
/// `pos`. Negative where `pos` is past the end.
pub open spec fn trailer_length(header: ChunkHeaderView, pos: u64) -> int {
    header.data_pointer as int + header.ck_size as int - pos as int
}

/// The number of bytes asked of the stream for a trailer of `length` bytes.
/// A length that no stream can hold is asked for as the largest count.
pub open spec fn trailer_request(length: int) -> u64 {
    if length > u64::MAX as int {
        u64::MAX
    } else {
        length as u64
    }
}

/// The padded text of the `len` bytes at `at` in the fixed fields, which
/// begin at `base` in the stream.
pub open spec fn field_text(fixed: Seq<u8>, at: int, len: int, base: u64) -> Result<
    Seq<char>,
    WaveError,
> {
    match padded_text_of(fixed.subrange(at, at + len)) {
        Some(s) => Ok(s),
        None => Err(WaveError::InvalidText { offset: (base + at) as u64, length: len as u64 }),
    }
}

/// The chunk that the fixed fields and a coding history make. The text
/// fields are looked at in the order in which they lie; the first that is
/// no text decides the error.
pub open spec fn bext_of_fields(
    fixed: Seq<u8>,
    base: u64,
    header: ChunkHeaderView,
    history: Option<Seq<char>>,
) -> Result<BroadcastAudioExtensionChunkView, WaveError> {
    let description = field_text(fixed, 0, 256, base);
    let originator = field_text(fixed, 256, 32, base);
    let originator_reference = field_text(fixed, 288, 32, base);
    let origination_date = field_text(fixed, 320, 10, base);
    let origination_time = field_text(fixed, 330, 8, base);
    if description is Err {
        Err(description->Err_0)
    } else if originator is Err {
        Err(originator->Err_0)
    } else if originator_reference is Err {
        Err(originator_reference->Err_0)
    } else if origination_date is Err {
        Err(origination_date->Err_0)
    } else if origination_time is Err {
        Err(origination_time->Err_0)
    } else {
        Ok(
            BroadcastAudioExtensionChunkView {
                chunk_header: header,
                description: description->Ok_0,
                originator: originator->Ok_0,
                originator_reference: originator_reference->Ok_0,
                origination_date: origination_date->Ok_0,
                origination_time: origination_time->Ok_0,
                time_reference: le_u64_at(fixed, 338) as u64,
                version: le_u16_at(fixed, 346) as u16,
                umid: fixed.subrange(348, 412),
                loudness_value: le_u16_at(fixed, 412) as u16,
                loudness_range: le_u16_at(fixed, 414) as u16,
                max_true_peak_level: le_u16_at(fixed, 416) as u16,
                max_momentary_loudness: le_u16_at(fixed, 418) as u16,
                max_short_term_loudness: le_u16_at(fixed, 420) as u16,
                coding_history: history,
            },
        )
    }
}

/// The finding for a chunk whose fixed part alone reaches `pos`, behind the
/// chunk's end.
pub open spec fn overrun_warning(header: ChunkHeaderView, pos: u64) -> StructuralWarning {
    StructuralWarning {
        payload_offset: header.data_pointer,
        declared_size: header.ck_size,
        consumed: (pos - header.data_pointer) as u64,
    }
}

/// The broadcast extension chunk whose payload begins at `pos`, the
/// warning that goes with it, and where the cursor stands afterwards.
///
/// The fixed fields are read first and the reserved region is stepped over.
/// What then remains of the chunk is its coding history: text where the
/// remainder is positive, absent where it is zero, absent with a warning where
/// the chunk's end already lies behind. A stream that ends too soon is
/// reported before text that does not decode, and the coding history before
/// the fixed fields.
pub open spec fn bext_at(bytes: Seq<u8>, pos: u64, header: ChunkHeaderView) -> (
    Result<(BroadcastAudioExtensionChunkView, Option<StructuralWarning>), WaveError>,
    u64,
) {
    match read_at(bytes, pos, BEXT_FIXED_LEN) {
        Err(e) => (Err(e), pos),
        Ok(fixed) => {
            let behind_fixed = (pos + BEXT_FIXED_LEN) as u64;
            match seek_target(behind_fixed, BEXT_RESERVED_LEN) {
                Err(e) => (Err(e), behind_fixed),
                Ok(mid) => {
                    let length = trailer_length(header, mid);
                    if length > 0 {
                        let want = trailer_request(length);
                        match read_at(bytes, mid, want) {
                            Err(e) => (Err(e), mid),
                            Ok(raw) => {
                                let end = (mid + want) as u64;
                                match text_of(raw) {
                                    None => (
                                        Err(WaveError::InvalidText { offset: mid, length: want }),
                                        end,
                                    ),
                                    Some(history) => match bext_of_fields(
                                        fixed,
                                        pos,
                                        header,
                                        Some(history),
                                    ) {
                                        Err(e) => (Err(e), end),
                                        Ok(chunk) => (Ok((chunk, None)), end),
                                    },
                                }
                            },
                        }
                    } else {
                        let warning = if length < 0 {
                            Some(overrun_warning(header, mid))
                        } else {
                            None
                        };
                        match bext_of_fields(fixed, pos, header, None) {
                            Err(e) => (Err(e), mid),
                            Ok(chunk) => (Ok((chunk, warning)), mid),
                        }
                    }
                },
            }
        },
    }
}

/// Decodes the padded text of the `len` bytes at `at`.
fn read_field(fixed: &[u8], at: usize, len: usize, base: u64) -> (r: Result<String, WaveError>)
    requires
        at + len <= fixed@.len() <= BEXT_FIXED_LEN,
        base + BEXT_FIXED_LEN <= u64::MAX,
    ensures
        match field_text(fixed@, at as int, len as int, base) {
            Ok(s) => r is Ok && r->Ok_0@ == s,
            Err(e) => r is Err && r->Err_0 == e,
        },
{
    let raw: Vec<u8> = slice_to_vec(slice_subrange(fixed, at, at + len));
    match decode_padded_text(raw) {
        Some(s) => Ok(s),
        None => Err(WaveError::InvalidText { offset: base + at as u64, length: len as u64 }),
    }
}

/// Copies the 64 bytes of the material identifier.
fn read_umid(fixed: &[u8]) -> (umid: [u8; 64])
    requires
        fixed@.len() == BEXT_FIXED_LEN,
    ensures
        umid@ == fixed@.subrange(348, 412),
{
    let mut umid: [u8; 64] = [0u8; 64];
    let mut i: usize = 0;
    while i < 64
        invariant
            i <= 64,
            fixed@.len() == BEXT_FIXED_LEN,
            forall|j: int| 0 <= j < i ==> umid@[j] == fixed@[348 + j],
        decreases 64 - i,
    {
        umid[i] = fixed[348 + i];
        i += 1;
    }
    assert(umid@ =~= fixed@.subrange(348, 412));
    umid
}

/// Builds the chunk from its fixed fields, which began at `base` in the
/// stream, and its coding history.
fn parse_fields(
    fixed: &[u8],
    base: u64,
    chunk_header: ChunkHeader,
    coding_history: Option<String>,
) -> (r: Result<BroadcastAudioExtensionChunk, WaveError>)
    requires
        fixed@.len() == BEXT_FIXED_LEN,
        base + BEXT_FIXED_LEN <= u64::MAX,
    ensures
        match bext_of_fields(
            fixed@,
            base,
            chunk_header@,
            match coding_history {
                Some(s) => Some(s@),
                None => None,
            },
        ) {
            Ok(chunk) => r is Ok && r->Ok_0@ == chunk,
            Err(e) => r is Err && r->Err_0 == e,
        },
{
    let description: String = match read_field(fixed, 0, 256, base) {
        Ok(s) => s,
        Err(e) => {
            return Err(e);
        },
    };
    let originator: String = match read_field(fixed, 256, 32, base) {
        Ok(s) => s,
        Err(e) => {
            return Err(e);
        },
    };
    let originator_reference: String = match read_field(fixed, 288, 32, base) {
        Ok(s) => s,
        Err(e) => {
            return Err(e);
        },
    };
    let origination_date: String = match read_field(fixed, 320, 10, base) {
        Ok(s) => s,
        Err(e) => {
            return Err(e);
        },
    };
    let origination_time: String = match read_field(fixed, 330, 8, base) {
        Ok(s) => s,
        Err(e) => {
            return Err(e);
        },
    };
    Ok(
        BroadcastAudioExtensionChunk {
            chunk_header,
            description,
            originator,
            originator_reference,
            origination_date,
            origination_time,
            time_reference: u64_from_le(fixed, 338),
            version: u16_from_le(fixed, 346),
            umid: read_umid(fixed),
            loudness_value: u16_from_le(fixed, 412),
            loudness_range: u16_from_le(fixed, 414),
            max_true_peak_level: u16_from_le(fixed, 416),
            max_momentary_loudness: u16_from_le(fixed, 418),
            max_short_term_loudness: u16_from_le(fixed, 420),
            coding_history,
        },
    )
}

/// How many bytes to ask for where the chunk ends at `end` and the cursor
/// stands at `mid` before it.
fn request(end: u128, mid: u64) -> (want: u64)
    requires
        end > mid,
    ensures
        want == trailer_request(end - mid),
{
    let length: u128 = end - mid as u128;
    if length > u64::MAX as u128 {
        u64::MAX
    } else {
        length as u64
    }
}

/// Decodes a broadcast extension chunk.
///
/// The coding history is whatever the chunk holds behind its fixed fields
/// and its reserved region: its length is the chunk's end less the cursor's
/// position there. It is present exactly where that length is positive. Where
/// the length is negative the chunk is returned without it, with a warning.
pub fn read_bext_chunk(cursor: &mut ByteCursor, chunk_header: ChunkHeader) -> (r: Result<
    (BroadcastAudioExtensionChunk, Option<StructuralWarning>),
    WaveError,
>)
    ensures
        final(cursor).bytes() == old(cursor).bytes(),
        final(cursor).pos() == bext_at(old(cursor).bytes(), old(cursor).pos(), chunk_header@).1,
        match bext_at(old(cursor).bytes(), old(cursor).pos(), chunk_header@).0 {
            Ok((chunk, warning)) => r is Ok && r->Ok_0.0@ == chunk && r->Ok_0.1 == warning,
            Err(e) => r is Err && r->Err_0 == e,
        },
        r is Ok ==> {
            let length = trailer_length(chunk_header@, (old(cursor).pos() + 602) as u64);
            &&& r->Ok_0.0.coding_history is Some <==> length > 0
            &&& r->Ok_0.1 is Some <==> length < 0
            &&& length >= 0 ==> final(cursor).pos() == chunk_header.data_pointer
                + chunk_header.ck_size
        },
{
    let base: u64 = cursor.current_position();
    let fixed: Vec<u8> = match cursor.read_exact(BEXT_FIXED_LEN) {
        Ok(fixed) => fixed,
        Err(e) => {
            return Err(e);
        },
    };
    let mid: u64 = match cursor.seek_relative(BEXT_RESERVED_LEN) {
        Ok(mid) => mid,
        Err(e) => {
            return Err(e);
        },
    };
    let end: u128 = chunk_header.data_pointer as u128 + chunk_header.ck_size as u128;
    let mut coding_history: Option<String> = None;
    let mut warning: Option<StructuralWarning> = None;
    if end > mid as u128 {
        let want: u64 = request(end, mid);
        let raw: Vec<u8> = match cursor.read_exact(want) {
            Ok(raw) => raw,
            Err(e) => {
                return Err(e);
            },
        };
        match decode_text(raw) {
            Some(s) => {
                coding_history = Some(s);
            },
            None => {
                return Err(WaveError::InvalidText { offset: mid, length: want });
            },
        }
    } else if end < mid as u128 {
        warning =
        Some(
            StructuralWarning {
                payload_offset: chunk_header.data_pointer,
                declared_size: chunk_header.ck_size,
                consumed: mid - chunk_header.data_pointer,
            },
        );
    }
    match parse_fields(fixed.as_slice(), base, chunk_header, coding_history) {
        Ok(chunk) => Ok((chunk, warning)),
        Err(e) => Err(e),
    }
}

/// In a chunk that is decoded from its first byte, lies whole in the stream
/// and is long enough for its fixed part, the derived length of the coding
/// history is the number of bytes that the chunk holds behind that part; the
/// decoder stops at the chunk's end; and the history is absent exactly where
/// that length is zero.
pub proof fn lemma_trailer_is_rest_of_chunk(bytes: Seq<u8>, header: ChunkHeaderView)
    requires
        header.ck_size >= 602,
        header.data_pointer + header.ck_size <= bytes.len(),
        header.data_pointer + header.ck_size <= u64::MAX,
    ensures
        trailer_length(header, (header.data_pointer + 602) as u64) == header.ck_size - 602,
        bext_at(bytes, header.data_pointer, header).1 == header.data_pointer + header.ck_size,
        bext_at(bytes, header.data_pointer, header).0 matches Ok((chunk, warning)) ==> {
            &&& warning is None
            &&& chunk.coding_history is None <==> header.ck_size == 602
            &&& chunk.coding_history is Some ==> chunk.coding_history == text_of(
                bytes.subrange(
                    header.data_pointer + 602,
                    header.data_pointer + header.ck_size,
                ),
            )
        },
{
}

} // verus!
