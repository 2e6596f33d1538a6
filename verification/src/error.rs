//! Errors of the message decoders.

use vstd::prelude::*;

verus! {

/// Which message a decoder was working on when it gave up.
#[derive(Debug, Copy, Clone, PartialEq, Eq, Structural)]
pub enum MessageKind {
    /// The packet ended before its type could be read.
    Unknown,
    /// A core packet, by its second byte.
    Core(u8),
    /// A game packet, by its first byte.
    Game(u8),
}

#[derive(Debug, Copy, Clone, PartialEq, Eq, Structural)]
pub enum DecodeError {
    /// The packet ends before the message does.
    TooShort(MessageKind),
    /// The packet holds more than the message can carry.
    TooLong(MessageKind),
    /// The type byte names no message.
    InvalidEnum(MessageKind),
    /// A text field is not UTF-8.
    InvalidUtf8(MessageKind),
}

/// The error of a packet shorter than `min` bytes, if it is that short.
pub open spec fn short_of(p: Seq<u8>, min: int, kind: MessageKind) -> Option<DecodeError> {
    if p.len() < min {
        Some(DecodeError::TooShort(kind))
    } else {
        None
    }
}

} // verus!
