use vstd::prelude::*;

verus! {

/// The codec that a decoded stream was found to use.
#[derive(Debug, Clone, Copy, PartialEq, Eq, Structural)]
pub enum AudioCodec {
    Unknown,
    Aac,
    Mp3,
    Opus,
}

impl AudioCodec {
    /// The one-byte code of each codec.
    pub open spec fn code(self) -> u8 {
        match self {
            AudioCodec::Unknown => 0,
            AudioCodec::Aac => 1,
            AudioCodec::Mp3 => 2,
            AudioCodec::Opus => 3,
        }
    }

    /// The codec that a code reads back as; every byte but 1 and 2 reads as
    /// `Opus`.
    pub open spec fn from_code(value: u8) -> AudioCodec {
        if value == 1 {
            AudioCodec::Aac
        } else if value == 2 {
            AudioCodec::Mp3
        } else {
            AudioCodec::Opus
        }
    }

    pub fn to_u8(&self) -> (r: u8)
        ensures
            r == self.code(),
    {
        match self {
            AudioCodec::Unknown => 0,
            AudioCodec::Aac => 1,
            AudioCodec::Mp3 => 2,
            AudioCodec::Opus => 3,
        }
    }

    pub fn from_u8(value: u8) -> (r: Self)
        ensures
            r == Self::from_code(value),
    {
        match value {
            1 => AudioCodec::Aac,
            2 => AudioCodec::Mp3,
            3 => AudioCodec::Opus,
            _ => AudioCodec::Opus,
        }
    }

    pub fn is_some(&self) -> (r: bool)
        ensures
            r == !(*self == AudioCodec::Unknown),
    {
        match self {
            AudioCodec::Unknown => false,
            _ => true,
        }
    }
}

} // verus!
