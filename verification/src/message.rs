//! Commands sent to the device, and their layout on the wire.

use crate::endian::{
    le_bytes, le_word, lemma_le_bytes_of_word, lemma_le_word_of_bytes, push_u32_le, read_u32_le,
};
use crate::error::DecodeError;
use vstd::prelude::*;

verus! {

/// Tag of [`AkariMessage::Ping`].
pub const TAG_PING: u8 = 0;

/// Tag of [`AkariMessage::SetHue`].
pub const TAG_SET_HUE: u8 = 1;

/// Tag of [`AkariMessage::SetBaseValue`].
pub const TAG_SET_BASE_VALUE: u8 = 2;

/// Tag of [`AkariMessage::Pulse`].
pub const TAG_PULSE: u8 = 3;

/// Tag of [`AkariMessage::Listen`].
pub const TAG_LISTEN: u8 = 255;

/// A command for the device.
///
/// The two numeric commands carry a single-precision IEEE-754 number, held
/// here as its 32-bit pattern: the wire format moves the pattern as it is, so
/// every pattern, not-a-number included, travels unchanged.
#[derive(Debug, Clone, Copy, PartialEq, Eq, Structural)]
pub enum AkariMessage {
    /// Asks the device to answer.
    Ping,
    /// Sets the hue, a fraction of the colour circle.
    SetHue(u32),
    /// Sets the base brightness.
    SetBaseValue(u32),
    /// Triggers one pulse.
    Pulse,
    /// Asks the device to stream its state from now on.
    Listen,
}

impl AkariMessage {
    /// The byte that announces this variant on the wire.
    pub open spec fn tag(self) -> u8 {
        match self {
            AkariMessage::Ping => TAG_PING,
            AkariMessage::SetHue(_) => TAG_SET_HUE,
            AkariMessage::SetBaseValue(_) => TAG_SET_BASE_VALUE,
            AkariMessage::Pulse => TAG_PULSE,
            AkariMessage::Listen => TAG_LISTEN,
        }
    }

    /// The bytes that follow the tag.
    pub open spec fn payload(self) -> Seq<u8> {
        match self {
            AkariMessage::SetHue(bits) => le_bytes(bits),
            AkariMessage::SetBaseValue(bits) => le_bytes(bits),
            _ => Seq::empty(),
        }
    }

    /// How many bytes follow the tag.
    pub open spec fn payload_size(self) -> nat {
        match self {
            AkariMessage::SetHue(_) => 4,
            AkariMessage::SetBaseValue(_) => 4,
            _ => 0,
        }
    }

    /// The whole datagram: the tag, then the payload.
    pub open spec fn wire(self) -> Seq<u8> {
        seq![self.tag()] + self.payload()
    }

    /// What a byte sequence means when read as a command: the leading byte
    /// selects the variant, the payload is taken from the bytes right after
    /// it, and whatever follows the payload is ignored.
    pub open spec fn spec_decode(bytes: Seq<u8>) -> Result<AkariMessage, DecodeError> {
        if bytes.len() == 0 {
            Err(DecodeError::Truncated)
        } else if bytes[0] == TAG_PING {
            Ok(AkariMessage::Ping)
        } else if bytes[0] == TAG_PULSE {
            Ok(AkariMessage::Pulse)
        } else if bytes[0] == TAG_LISTEN {
            Ok(AkariMessage::Listen)
        } else if bytes[0] == TAG_SET_HUE {
            if bytes.len() >= 5 {
                Ok(AkariMessage::SetHue(le_word(bytes.skip(1))))
            } else {
                Err(DecodeError::Truncated)
            }
        } else if bytes[0] == TAG_SET_BASE_VALUE {
            if bytes.len() >= 5 {
                Ok(AkariMessage::SetBaseValue(le_word(bytes.skip(1))))
            } else {
                Err(DecodeError::Truncated)
            }
        } else {
            Err(DecodeError::UnknownTag)
        }
    }

    /// Encodes the command as the datagram to send. Every command has an
    /// encoding: one tag byte, then four payload bytes for the two numeric
    /// commands and none for the others.
    pub fn message(self) -> (buf: Vec<u8>)
        ensures
            buf@ == self.wire(),
            buf@.len() == 1 + self.payload_size(),
    {
        let mut buf: Vec<u8> = Vec::new();
        match self {
            AkariMessage::Ping => {
                buf.push(TAG_PING);
            },
            AkariMessage::SetHue(bits) => {
                buf.push(TAG_SET_HUE);
                push_u32_le(&mut buf, bits);
            },
            AkariMessage::SetBaseValue(bits) => {
                buf.push(TAG_SET_BASE_VALUE);
                push_u32_le(&mut buf, bits);
            },
            AkariMessage::Pulse => {
                buf.push(TAG_PULSE);
            },
            AkariMessage::Listen => {
                buf.push(TAG_LISTEN);
            },
        }
        assert(buf@ =~= self.wire());
        buf
    }

    /// Reads a command back from its encoding.
    pub fn decode(bytes: &[u8]) -> (r: Result<AkariMessage, DecodeError>)
        ensures
            r == Self::spec_decode(bytes@),
    {
        if bytes.len() == 0 {
            return Err(DecodeError::Truncated);
        }
        let tag: u8 = bytes[0];
        if tag == TAG_PING {
            Ok(AkariMessage::Ping)
        } else if tag == TAG_PULSE {
            Ok(AkariMessage::Pulse)
        } else if tag == TAG_LISTEN {
            Ok(AkariMessage::Listen)
        } else if tag == TAG_SET_HUE || tag == TAG_SET_BASE_VALUE {
            if bytes.len() < 5 {
                return Err(DecodeError::Truncated);
            }
            let bits: u32 = read_u32_le(bytes, 1);
            if tag == TAG_SET_HUE {
                Ok(AkariMessage::SetHue(bits))
            } else {
                Ok(AkariMessage::SetBaseValue(bits))
            }
        } else {
            Err(DecodeError::UnknownTag)
        }
    }
}

/// Decoding the encoding of a command gives the command back, also when
/// further bytes follow the encoding.
pub proof fn lemma_message_round_trip(m: AkariMessage, rest: Seq<u8>)
    ensures
        AkariMessage::spec_decode(m.wire() + rest) == Ok::<AkariMessage, DecodeError>(m),
{
    let bytes = m.wire() + rest;
    assert(bytes[0] == m.tag());
    match m {
        AkariMessage::SetHue(bits) => {
            lemma_le_word_of_bytes(bits, rest);
            assert(bytes.skip(1) =~= le_bytes(bits) + rest);
        },
        AkariMessage::SetBaseValue(bits) => {
            lemma_le_word_of_bytes(bits, rest);
            assert(bytes.skip(1) =~= le_bytes(bits) + rest);
        },
        _ => {},
    }
}

/// A byte sequence that decodes to a command starts with that command's
/// encoding.
pub proof fn lemma_message_decoded_from_prefix(bytes: Seq<u8>, m: AkariMessage)
    requires
        AkariMessage::spec_decode(bytes) == Ok::<AkariMessage, DecodeError>(m),
    ensures
        m.wire().is_prefix_of(bytes),
{
    match m {
        AkariMessage::SetHue(bits) => {
            lemma_le_bytes_of_word(bytes.subrange(1, 5));
            assert(le_word(bytes.skip(1)) == le_word(bytes.subrange(1, 5)));
            assert(m.wire() =~= bytes.subrange(0, 5));
        },
        AkariMessage::SetBaseValue(bits) => {
            lemma_le_bytes_of_word(bytes.subrange(1, 5));
            assert(le_word(bytes.skip(1)) == le_word(bytes.subrange(1, 5)));
            assert(m.wire() =~= bytes.subrange(0, 5));
        },
        _ => {
            assert(m.wire() =~= bytes.subrange(0, 1));
        },
    }
}

} // verus!
