//! Why a message is rejected.

use vstd::prelude::*;
use vstd::string::StringExecFns;
use crate::text::{push_decimal, spec_decimal};

verus! {

/// A fault in the structure of a message. It ends the decoding of that message.
#[derive(Clone, Copy, Debug, PartialEq, Eq, Structural)]
pub enum ParseError {
    /// The bytes end before a header, a field specifier or a declared length is complete.
    Truncated,
    /// The message header names a version other than 10; the value is the version found.
    UnsupportedVersion(u16),
    /// The buffer holds more bytes than the message header declares.
    TrailingBytes,
    /// A set declares a length under the four bytes of its own header; the value is
    /// the length found.
    InvalidSetLength(u16),
}

impl ParseError {
    /// The fault in words.
    pub open spec fn spec_message(self) -> Seq<char> {
        match self {
            ParseError::Truncated => "the message ends before a declared length is complete"@,
            ParseError::UnsupportedVersion(version) => "unsupported version "@ + spec_decimal(
                version as nat,
            ),
            ParseError::TrailingBytes => "bytes follow the end of the message"@,
            ParseError::InvalidSetLength(length) => "invalid set length "@ + spec_decimal(
                length as nat,
            ),
        }
    }

    /// The fault in words.
    pub fn message(&self) -> (r: String)
        ensures
            r@ == self.spec_message(),
    {
        match self {
            ParseError::Truncated => String::from_str(
                "the message ends before a declared length is complete",
            ),
            ParseError::UnsupportedVersion(version) => {
                let mut text = String::from_str("unsupported version ");
                push_decimal(&mut text, *version as u64);
                text
            },
            ParseError::TrailingBytes => String::from_str("bytes follow the end of the message"),
            ParseError::InvalidSetLength(length) => {
                let mut text = String::from_str("invalid set length ");
                push_decimal(&mut text, *length as u64);
                text
            },
        }
    }
}

} // verus!
