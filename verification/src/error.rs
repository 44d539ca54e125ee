//! The ways in which decoding a WAV file can fail.

use vstd::prelude::*;

verus! {

/// A format error: the input ended before the decoder had read all it needs.
#[derive(Debug, Clone, Copy, PartialEq, Eq, Structural)]
pub enum WavError {
    /// Fewer than four bytes were left when a line of the header was read.
    TruncatedHeader,
    /// Fewer bytes of audio data were left than the chunk that was read holds.
    TruncatedData,
}

impl WavError {
    /// The text that describes the error to a user.
    pub open spec fn spec_message(self) -> Seq<char> {
        match self {
            WavError::TruncatedHeader => "Problem reading into the buffer in get_next_byteline"@,
            WavError::TruncatedData => "Problem reading into the buffer in get_next_data_chunk."@,
        }
    }

    /// Describes the error to a user.
    pub fn message(&self) -> (text: &'static str)
        ensures
            text@ == self.spec_message(),
    {
        match self {
            WavError::TruncatedHeader => "Problem reading into the buffer in get_next_byteline",
            WavError::TruncatedData => "Problem reading into the buffer in get_next_data_chunk.",
        }
    }
}

} // verus!
