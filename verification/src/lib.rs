//! A single-pass decoder for RIFF/WAVE containers.
//!
//! The decoder walks a seekable byte cursor, validates the outer container
//! and collects the chunks it recognises into one aggregate. Every decoder
//! is specified against a mathematical model of the stream: a sequence of
//! bytes and a position in it.

pub mod error;
pub mod cursor;
pub mod le;
pub mod text;
pub mod header;
pub mod chunks;
pub mod bext;
pub mod container;

pub use crate::bext::{read_bext_chunk, BroadcastAudioExtensionChunk};
pub use crate::chunks::{
    read_data_chunk, read_fact_chunk, read_fmt_chunk, read_junk_chunk, skip_chunk, DataChunk,
    FactChunk, FormatChunk, JunkChunk, WaveFormatExtendedTag,
};
pub use crate::container::{get_file_chunks, AllChunks};
pub use crate::cursor::ByteCursor;
pub use crate::error::{StructuralWarning, WaveError};
pub use crate::header::{read_chunk_header, read_riff_header, ChunkHeader, ChunkKind, RiffHeader};
