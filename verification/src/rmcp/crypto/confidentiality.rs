//! Identifiers of the confidentiality algorithms.
use super::OptionalByteEquivalent;
use vstd::prelude::*;

verus! {

/// An algorithm that encrypts the payload of session packets.
#[allow(non_camel_case_types)]
#[derive(Debug, Clone, Copy, PartialEq, Eq, Structural)]
pub enum ConfidentialityAlgorithm {
    AesCbc128,
    Xrc4_128,
    Xrc4_40,
}

impl OptionalByteEquivalent for ConfidentialityAlgorithm {
    open spec fn decoded(byte: u8) -> Result<Option<Self>, ()> {
        match byte {
            0x00 => Ok(None),
            0x01 => Ok(Some(Self::AesCbc128)),
            0x02 => Ok(Some(Self::Xrc4_128)),
            0x03 => Ok(Some(Self::Xrc4_40)),
            _ => Err(()),
        }
    }

    open spec fn encoded(value: Option<Self>) -> u8 {
        match value {
            None => 0x00,
            Some(Self::AesCbc128) => 0x01,
            Some(Self::Xrc4_128) => 0x02,
            Some(Self::Xrc4_40) => 0x03,
        }
    }

    fn from_byte(value: u8) -> (r: Result<Option<Self>, ()>) {
        let value = match value {
            0x00 => return Ok(None),
            0x01 => Self::AesCbc128,
            0x02 => Self::Xrc4_128,
            0x03 => Self::Xrc4_40,
            _ => return Err(()),
        };
        Ok(Some(value))
    }

    fn into_byte(value: Option<Self>) -> (byte: u8) {
        match value {
            None => 0x00,
            Some(Self::AesCbc128) => 0x01,
            Some(Self::Xrc4_128) => 0x02,
            Some(Self::Xrc4_40) => 0x03,
        }
    }

    proof fn lemma_decode_then_encode(byte: u8) {
    }

    proof fn lemma_encode_then_decode(value: Option<Self>) {
    }
}

} // verus!
