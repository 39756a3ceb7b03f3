//! Failures and warnings that decoding can report.

use vstd::prelude::*;

verus! {

/// Why a decode was abandoned.
#[derive(Clone, Copy, Debug, PartialEq, Eq, Structural)]
pub enum WaveError {
    /// A read at `offset` asked for `expected` bytes where only `available`
    /// were left in the stream.
    Truncated { offset: u64, expected: u64, available: u64 },
    /// The outer tag names no known container.
    InvalidContainer,
    /// The form type is not the audio marker.
    UnsupportedFormType,
    /// The `length` bytes that begin at `offset` are not valid UTF-8 text.
    InvalidText { offset: u64, length: u64 },
    /// Moving the cursor at `offset` by `delta` would leave the range of
    /// stream positions.
    InvalidSeek { offset: u64, delta: i64 },
}

/// A chunk whose decoder consumed more bytes than the chunk declared.
/// Decoding goes on after such a finding.
#[derive(Clone, Copy, Debug, PartialEq, Eq, Structural)]
pub struct StructuralWarning {
    /// Where the chunk's payload begins.
    pub payload_offset: u64,
    /// The payload length that the chunk's header declares.
    pub declared_size: u32,
    /// How many bytes past `payload_offset` the cursor stood.
    pub consumed: u64,
}

} // verus!
