//! The failures that the library reports.

use vstd::prelude::*;
use vstd::string::StringExecFns;

verus! {

/// Why a stored stream could not be decompressed.
#[derive(Clone, Copy, Debug, PartialEq, Eq, Structural)]
pub enum DecodeError {
    /// The frame header is missing, cut short, or refused by the decoder.
    Header,
    /// A block of the frame, or its checksum, is corrupt or cut short.
    Content,
}

impl DecodeError {
    /// What `message` returns for `self`.
    pub open spec fn message_text(self) -> Seq<char> {
        match self {
            DecodeError::Header => "the frame header is missing, cut short or not accepted"@,
            DecodeError::Content => "the content of the frame is corrupt or cut short"@,
        }
    }

    /// A sentence that says what went wrong.
    pub fn message(&self) -> (text: String)
        ensures
            text@ == self.message_text(),
    {
        match self {
            DecodeError::Header => String::from_str(
                "the frame header is missing, cut short or not accepted",
            ),
            DecodeError::Content => String::from_str(
                "the content of the frame is corrupt or cut short",
            ),
        }
    }
}

/// Why a file could not be turned into an embedding.
#[derive(Clone, Copy, Debug, PartialEq, Eq, Structural)]
pub enum EmbedError {
    /// The encoder refused the level or failed while compressing.
    Compression,
}

impl EmbedError {
    /// What `message` returns for `self`.
    pub open spec fn message_text(self) -> Seq<char> {
        match self {
            EmbedError::Compression => "the encoder failed to compress the file"@,
        }
    }

    /// A sentence that says what went wrong.
    pub fn message(&self) -> (text: String)
        ensures
            text@ == self.message_text(),
    {
        match self {
            EmbedError::Compression => String::from_str("the encoder failed to compress the file"),
        }
    }
}

} // verus!
