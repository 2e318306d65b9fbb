//! The RMCP+ (IPMI v2.0) session layer: the logical message that a session
//! packet carries, and the errors of framing and unframing it.
pub mod crypto;
pub mod messages;
pub mod rakp_1;
pub mod rakp_2;
pub mod wire;

pub use crypto::{CryptoState, CryptoUnwrapError};

use vstd::prelude::*;

verus! {

/// What the payload of a session packet is.
#[derive(Debug, Clone, Copy, PartialEq, Eq, Structural)]
pub enum PayloadType {
    IpmiMessage,
    Sol,
    RmcpPlusOpenSessionRequest,
    RmcpPlusOpenSessionResponse,
    RakpMessage1,
    RakpMessage2,
    RakpMessage3,
    RakpMessage4,
}

impl PayloadType {
    /// The payload type that a six-bit number stands for, if any.
    pub open spec fn decoded(byte: u8) -> Option<PayloadType> {
        match byte {
            0x00 => Some(PayloadType::IpmiMessage),
            0x01 => Some(PayloadType::Sol),
            0x10 => Some(PayloadType::RmcpPlusOpenSessionRequest),
            0x11 => Some(PayloadType::RmcpPlusOpenSessionResponse),
            0x12 => Some(PayloadType::RakpMessage1),
            0x13 => Some(PayloadType::RakpMessage2),
            0x14 => Some(PayloadType::RakpMessage3),
            0x15 => Some(PayloadType::RakpMessage4),
            _ => None,
        }
    }

    /// The six-bit number of a payload type.
    pub open spec fn encoded(self) -> u8 {
        match self {
            PayloadType::IpmiMessage => 0x00,
            PayloadType::Sol => 0x01,
            PayloadType::RmcpPlusOpenSessionRequest => 0x10,
            PayloadType::RmcpPlusOpenSessionResponse => 0x11,
            PayloadType::RakpMessage1 => 0x12,
            PayloadType::RakpMessage2 => 0x13,
            PayloadType::RakpMessage3 => 0x14,
            PayloadType::RakpMessage4 => 0x15,
        }
    }

    /// A payload type decodes back from its number, which has six bits.
    pub proof fn lemma_encoded(self)
        ensures
            self.encoded() < 0x40,
            PayloadType::decoded(self.encoded()) == Some(self),
    {
    }
}

impl TryFrom<u8> for PayloadType {
    type Error = ();

    /// Decodes a payload type; a number that stands for none is an error.
    fn try_from(value: u8) -> (r: Result<Self, Self::Error>) {
        match value {
            0x00 => Ok(PayloadType::IpmiMessage),
            0x01 => Ok(PayloadType::Sol),
            0x10 => Ok(PayloadType::RmcpPlusOpenSessionRequest),
            0x11 => Ok(PayloadType::RmcpPlusOpenSessionResponse),
            0x12 => Ok(PayloadType::RakpMessage1),
            0x13 => Ok(PayloadType::RakpMessage2),
            0x14 => Ok(PayloadType::RakpMessage3),
            0x15 => Ok(PayloadType::RakpMessage4),
            _ => Err(()),
        }
    }
}

impl vstd::std_specs::convert::TryFromSpecImpl<u8> for PayloadType {
    open spec fn obeys_try_from_spec() -> bool {
        true
    }

    open spec fn try_from_spec(value: u8) -> Result<Self, Self::Error> {
        match PayloadType::decoded(value) {
            Some(ty) => Ok(ty),
            None => Err(()),
        }
    }
}

impl From<PayloadType> for u8 {
    /// Encodes a payload type.
    fn from(ty: PayloadType) -> (byte: u8) {
        match ty {
            PayloadType::IpmiMessage => 0x00,
            PayloadType::Sol => 0x01,
            PayloadType::RmcpPlusOpenSessionRequest => 0x10,
            PayloadType::RmcpPlusOpenSessionResponse => 0x11,
            PayloadType::RakpMessage1 => 0x12,
            PayloadType::RakpMessage2 => 0x13,
            PayloadType::RakpMessage3 => 0x14,
            PayloadType::RakpMessage4 => 0x15,
        }
    }
}

impl vstd::std_specs::convert::FromSpecImpl<PayloadType> for u8 {
    open spec fn obeys_from_spec() -> bool {
        true
    }

    open spec fn from_spec(ty: PayloadType) -> u8 {
        ty.encoded()
    }
}

/// A logical message of the session layer.
#[derive(Debug, Clone, PartialEq, Eq)]
pub struct Message {
    pub ty: PayloadType,
    pub session_id: u32,
    pub session_sequence_number: u32,
    pub payload: Vec<u8>,
}

/// The mathematical value of a [`Message`].
pub struct MessageView {
    pub ty: PayloadType,
    pub session_id: u32,
    pub session_sequence_number: u32,
    pub payload: Seq<u8>,
}

impl MessageView {
    /// Whether the message belongs to an established session: neither its
    /// session id nor its sequence number is zero.
    pub open spec fn in_session(self) -> bool {
        self.session_id != 0 && self.session_sequence_number != 0
    }
}

impl View for Message {
    type V = MessageView;

    open spec fn view(&self) -> MessageView {
        MessageView {
            ty: self.ty,
            session_id: self.session_id,
            session_sequence_number: self.session_sequence_number,
            payload: self.payload@,
        }
    }
}

/// Why a packet could not be read.
#[allow(non_camel_case_types)]
#[derive(Debug, Clone, Copy, PartialEq, Eq, Structural)]
pub enum ReadError {
    /// The packet does not start with the IPMI v2.0 format marker.
    NotIpmiV2_0,
    /// The packet is shorter than a session header.
    NotEnoughData,
    /// The six-bit payload type stands for no known type.
    InvalidPayloadType(u8),
    /// The packet does not fit the state of the session.
    Unwrap(CryptoUnwrapError),
}

impl From<CryptoUnwrapError> for ReadError {
    fn from(value: CryptoUnwrapError) -> (e: ReadError) {
        ReadError::Unwrap(value)
    }
}

impl vstd::std_specs::convert::FromSpecImpl<CryptoUnwrapError> for ReadError {
    open spec fn obeys_from_spec() -> bool {
        true
    }

    open spec fn from_spec(value: CryptoUnwrapError) -> ReadError {
        ReadError::Unwrap(value)
    }
}

/// Why a message could not be written.
#[derive(Debug, Clone, Copy, PartialEq, Eq, Structural)]
pub enum WriteError {
    /// The payload is longer than 65535 bytes.
    PayloadTooLong,
    /// The session encrypts, and no confidentiality algorithm is implemented.
    UnsupportedConfidentiality(crypto::ConfidentialityAlgorithm),
    /// The session authenticates with an algorithm that is not implemented.
    UnsupportedIntegrity(crypto::IntegrityAlgorithm),
}

} // verus!
