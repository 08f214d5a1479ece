//! Replies of the device, and how they are read from a datagram.

use crate::error::DecodeError;
use vstd::prelude::*;
use vstd::slice::slice_subrange;

verus! {

/// Tag of [`AkariResponse::Pong`].
pub const TAG_PONG: u8 = 0;

/// Tag of [`AkariResponse::Result`].
pub const TAG_RESULT: u8 = 1;

/// Tag of [`AkariResponse::Color`].
pub const TAG_COLOR: u8 = 255;

/// The longest encoding of a reply: the tag and three colour bytes.
pub const MAX_RESPONSE_SIZE: usize = 4;

/// A reply of the device.
#[derive(Debug, Clone, Copy, PartialEq, Eq)]
pub enum AkariResponse {
    /// The answer to a ping.
    Pong,
    /// The status code of the command that was carried out.
    Result(u8),
    /// The colour shown right now: red, green, blue.
    Color([u8; 3]),
}

impl AkariResponse {
    /// The byte that announces this variant on the wire.
    pub open spec fn tag(self) -> u8 {
        match self {
            AkariResponse::Pong => TAG_PONG,
            AkariResponse::Result(_) => TAG_RESULT,
            AkariResponse::Color(_) => TAG_COLOR,
        }
    }

    /// The bytes that follow the tag.
    pub open spec fn payload(self) -> Seq<u8> {
        match self {
            AkariResponse::Pong => Seq::empty(),
            AkariResponse::Result(code) => seq![code],
            AkariResponse::Color(rgb) => rgb@,
        }
    }

    /// The whole encoding: the tag, then the payload.
    pub open spec fn wire(self) -> Seq<u8> {
        seq![self.tag()] + self.payload()
    }

    /// What a datagram means when read as a reply: the leading byte selects
    /// the variant, the payload is taken from the bytes right after it, and
    /// whatever follows the payload is ignored.
    pub open spec fn spec_decode(bytes: Seq<u8>) -> Result<AkariResponse, DecodeError> {
        if bytes.len() == 0 {
            Err(DecodeError::Truncated)
        } else if bytes[0] == TAG_PONG {
            Ok(AkariResponse::Pong)
        } else if bytes[0] == TAG_RESULT {
            if bytes.len() >= 2 {
                Ok(AkariResponse::Result(bytes[1]))
            } else {
                Err(DecodeError::Truncated)
            }
        } else if bytes[0] == TAG_COLOR {
            if bytes.len() >= 4 {
                Ok(AkariResponse::Color([bytes[1], bytes[2], bytes[3]]))
            } else {
                Err(DecodeError::Truncated)
            }
        } else {
            Err(DecodeError::UnknownTag)
        }
    }

    /// The number of leading bytes on which the meaning of a datagram with
    /// the leading byte `tag` depends.
    pub open spec fn frame_size(tag: u8) -> nat {
        if tag == TAG_RESULT {
            2
        } else if tag == TAG_COLOR {
            4
        } else {
            1
        }
    }

    /// Reads a reply from a datagram.
    pub fn decode(bytes: &[u8]) -> (r: Result<AkariResponse, DecodeError>)
        ensures
            r == Self::spec_decode(bytes@),
    {
        if bytes.len() == 0 {
            return Err(DecodeError::Truncated);
        }
        let tag: u8 = bytes[0];
        if tag == TAG_PONG {
            Ok(AkariResponse::Pong)
        } else if tag == TAG_RESULT {
            if bytes.len() >= 2 {
                Ok(AkariResponse::Result(bytes[1]))
            } else {
                Err(DecodeError::Truncated)
            }
        } else if tag == TAG_COLOR {
            if bytes.len() >= 4 {
                Ok(AkariResponse::Color([bytes[1], bytes[2], bytes[3]]))
            } else {
                Err(DecodeError::Truncated)
            }
        } else {
            Err(DecodeError::UnknownTag)
        }
    }

    /// Reads a reply from a datagram of which at most `max_frame_size` bytes
    /// count; what lies beyond them is dropped before decoding. With room
    /// for the longest reply, dropping it changes nothing.
    pub fn decode_frame(datagram: &[u8], max_frame_size: usize) -> (r: Result<
        AkariResponse,
        DecodeError,
    >)
        ensures
            r == Self::spec_decode(frame(datagram@, max_frame_size)),
            max_frame_size >= MAX_RESPONSE_SIZE ==> r == Self::spec_decode(datagram@),
    {
        proof {
            if max_frame_size >= MAX_RESPONSE_SIZE && datagram@.len() > max_frame_size {
                lemma_decode_reads_frame_only(datagram@, max_frame_size as int);
            }
        }
        if datagram.len() <= max_frame_size {
            Self::decode(datagram)
        } else {
            Self::decode(slice_subrange(datagram, 0, max_frame_size))
        }
    }
}

/// The part of a datagram that is looked at when at most `max_frame_size`
/// bytes of it count.
pub open spec fn frame(datagram: Seq<u8>, max_frame_size: usize) -> Seq<u8> {
    if datagram.len() <= max_frame_size {
        datagram
    } else {
        datagram.take(max_frame_size as int)
    }
}

/// Decoding looks at the frame that the leading byte announces and at
/// nothing after it: cutting a datagram anywhere behind that frame leaves
/// its meaning as it was.
pub proof fn lemma_decode_reads_frame_only(bytes: Seq<u8>, n: int)
    requires
        0 < n <= bytes.len(),
        AkariResponse::frame_size(bytes[0]) <= n,
    ensures
        AkariResponse::spec_decode(bytes.take(n)) == AkariResponse::spec_decode(bytes),
{
}

/// Decoding the encoding of a reply gives the reply back, also when further
/// bytes follow the encoding.
pub proof fn lemma_response_round_trip(r: AkariResponse, rest: Seq<u8>)
    ensures
        AkariResponse::spec_decode(r.wire() + rest) == Ok::<AkariResponse, DecodeError>(r),
{
    let bytes = r.wire() + rest;
    assert(bytes[0] == r.tag());
    match r {
        AkariResponse::Pong => {},
        AkariResponse::Result(code) => {
            assert(bytes[1] == code);
        },
        AkariResponse::Color(rgb) => {
            assert(bytes[1] == rgb[0]);
            assert(bytes[2] == rgb[1]);
            assert(bytes[3] == rgb[2]);
            assert([bytes[1], bytes[2], bytes[3]] == rgb);
        },
    }
}

/// A datagram that decodes to a reply starts with that reply's encoding.
pub proof fn lemma_response_decoded_from_prefix(bytes: Seq<u8>, r: AkariResponse)
    requires
        AkariResponse::spec_decode(bytes) == Ok::<AkariResponse, DecodeError>(r),
    ensures
        r.wire().is_prefix_of(bytes),
{
    match r {
        AkariResponse::Pong => {
            assert(r.wire() =~= bytes.subrange(0, 1));
        },
        AkariResponse::Result(code) => {
            assert(r.wire() =~= bytes.subrange(0, 2));
        },
        AkariResponse::Color(rgb) => {
            assert(r.wire() =~= bytes.subrange(0, 4));
        },
    }
}

} // verus!
