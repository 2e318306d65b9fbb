//! Identifiers of the key exchange authentication algorithms.
use super::OptionalByteEquivalent;
use vstd::prelude::*;

verus! {

/// An algorithm that authenticates the key exchange.
#[derive(Debug, Clone, Copy, PartialEq, Eq, Structural)]
pub enum AuthenticationAlgorithm {
    RakpHmacSha1,
    RakpHmacMd5,
    RakpHmacSha256,
}

impl OptionalByteEquivalent for AuthenticationAlgorithm {
    open spec fn decoded(byte: u8) -> Result<Option<Self>, ()> {
        match byte {
            0x00 => Ok(None),
            0x01 => Ok(Some(Self::RakpHmacSha1)),
            0x02 => Ok(Some(Self::RakpHmacMd5)),
            0x03 => Ok(Some(Self::RakpHmacSha256)),
            _ => Err(()),
        }
    }

    open spec fn encoded(value: Option<Self>) -> u8 {
        match value {
            None => 0x00,
            Some(Self::RakpHmacSha1) => 0x01,
            Some(Self::RakpHmacMd5) => 0x02,
            Some(Self::RakpHmacSha256) => 0x03,
        }
    }

    fn from_byte(value: u8) -> (r: Result<Option<Self>, ()>) {
        let value = match value {
            0x00 => return Ok(None),
            0x01 => Self::RakpHmacSha1,
            0x02 => Self::RakpHmacMd5,
            0x03 => Self::RakpHmacSha256,
            _ => return Err(()),
        };
        Ok(Some(value))
    }

    fn into_byte(value: Option<Self>) -> (byte: u8) {
        match value {
            None => 0x00,
            Some(Self::RakpHmacSha1) => 0x01,
            Some(Self::RakpHmacMd5) => 0x02,
            Some(Self::RakpHmacSha256) => 0x03,
        }
    }

    proof fn lemma_decode_then_encode(byte: u8) {
    }

    proof fn lemma_encode_then_decode(value: Option<Self>) {
    }
}

} // verus!
