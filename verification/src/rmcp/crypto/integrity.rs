//! Identifiers of the integrity algorithms.
use super::OptionalByteEquivalent;
use vstd::prelude::*;

verus! {

/// An algorithm that protects the integrity of session packets.
#[allow(non_camel_case_types)]
#[derive(Debug, Clone, Copy, PartialEq, Eq, Structural)]
pub enum IntegrityAlgorithm {
    HmacSha1_96,
    HmacMd5_128,
    Md5_128,
    HmacSha256_128,
}

impl OptionalByteEquivalent for IntegrityAlgorithm {
    open spec fn decoded(byte: u8) -> Result<Option<Self>, ()> {
        match byte {
            0x00 => Ok(None),
            0x01 => Ok(Some(Self::HmacSha1_96)),
            0x02 => Ok(Some(Self::HmacMd5_128)),
            0x03 => Ok(Some(Self::Md5_128)),
            0x04 => Ok(Some(Self::HmacSha256_128)),
            _ => Err(()),
        }
    }

    open spec fn encoded(value: Option<Self>) -> u8 {
        match value {
            None => 0x00,
            Some(Self::HmacSha1_96) => 0x01,
            Some(Self::HmacMd5_128) => 0x02,
            Some(Self::Md5_128) => 0x03,
            Some(Self::HmacSha256_128) => 0x04,
        }
    }

    fn from_byte(value: u8) -> (r: Result<Option<Self>, ()>) {
        let value = match value {
            0x00 => return Ok(None),
            0x01 => Self::HmacSha1_96,
            0x02 => Self::HmacMd5_128,
            0x03 => Self::Md5_128,
            0x04 => Self::HmacSha256_128,
            _ => return Err(()),
        };
        Ok(Some(value))
    }

    fn into_byte(value: Option<Self>) -> (byte: u8) {
        match value {
            None => 0x00,
            Some(Self::HmacSha1_96) => 0x01,
            Some(Self::HmacMd5_128) => 0x02,
            Some(Self::Md5_128) => 0x03,
            Some(Self::HmacSha256_128) => 0x04,
        }
    }

    proof fn lemma_decode_then_encode(byte: u8) {
    }

    proof fn lemma_encode_then_decode(value: Option<Self>) {
    }
}

} // verus!
