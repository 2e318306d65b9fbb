//! What the key exchange messages share: the outcome of the algorithm
//! negotiation, status codes common to all messages, and user names.
use super::crypto::{AuthenticationAlgorithm, ConfidentialityAlgorithm, IntegrityAlgorithm};
use vstd::prelude::*;
use vstd::slice::slice_to_vec;

verus! {

/// The algorithms that the managed system chose in answer to an open
/// session request. An absent algorithm means "none".
#[derive(Debug, Clone, Copy, PartialEq, Eq, Structural)]
pub struct OpenSessionResponse {
    pub authentication_payload: Option<AuthenticationAlgorithm>,
    pub integrity_payload: Option<IntegrityAlgorithm>,
    pub confidentiality_payload: Option<ConfidentialityAlgorithm>,
}

/// A status that any key exchange message can report.
#[derive(Debug, Clone, Copy, PartialEq, Eq, Structural)]
pub enum RakpErrorStatusCode {
    InsufficientResourcesToCreateSession,
    InvalidSessionId,
    IllegalOrUnrecognizedParameter,
}

impl RakpErrorStatusCode {
    /// The common status that a byte stands for, if any.
    pub open spec fn decoded(byte: u8) -> Option<RakpErrorStatusCode> {
        match byte {
            0x01 => Some(RakpErrorStatusCode::InsufficientResourcesToCreateSession),
            0x02 => Some(RakpErrorStatusCode::InvalidSessionId),
            0x12 => Some(RakpErrorStatusCode::IllegalOrUnrecognizedParameter),
            _ => None,
        }
    }

}

impl TryFrom<u8> for RakpErrorStatusCode {
    type Error = ();

    /// Decodes a common status; a byte that stands for none is an error.
    fn try_from(value: u8) -> (r: Result<Self, Self::Error>) {
        match value {
            0x01 => Ok(RakpErrorStatusCode::InsufficientResourcesToCreateSession),
            0x02 => Ok(RakpErrorStatusCode::InvalidSessionId),
            0x12 => Ok(RakpErrorStatusCode::IllegalOrUnrecognizedParameter),
            _ => Err(()),
        }
    }
}

impl vstd::std_specs::convert::TryFromSpecImpl<u8> for RakpErrorStatusCode {
    open spec fn obeys_try_from_spec() -> bool {
        true
    }

    open spec fn try_from_spec(value: u8) -> Result<Self, Self::Error> {
        match RakpErrorStatusCode::decoded(value) {
            Some(code) => Ok(code),
            None => Err(()),
        }
    }
}

/// A user name: at most 255 bytes, so that its length fits the one byte
/// that the key exchange gives it.
#[derive(Debug, PartialEq, Eq)]
pub struct Username {
    bytes: Vec<u8>,
}

impl View for Username {
    type V = Seq<u8>;

    closed spec fn view(&self) -> Seq<u8> {
        self.bytes@
    }
}

impl Username {
    #[verifier::type_invariant]
    closed spec fn inv(self) -> bool {
        self.bytes@.len() <= 255
    }

    /// The empty user name.
    pub fn new_empty() -> (name: Username)
        ensures
            name@ == Seq::<u8>::empty(),
    {
        Username { bytes: Vec::new() }
    }

    /// The user name made of `bytes`, unless they are more than 255.
    pub fn new(bytes: &[u8]) -> (name: Option<Username>)
        ensures
            bytes@.len() <= 255 ==> name is Some && name->0@ == bytes@,
            bytes@.len() > 255 ==> name is None,
    {
        if bytes.len() <= 255 {
            Some(Username { bytes: slice_to_vec(bytes) })
        } else {
            None
        }
    }

    /// The number of bytes of the name.
    pub fn len(&self) -> (n: u8)
        ensures
            n == self@.len(),
    {
        proof {
            use_type_invariant(self);
        }
        self.bytes.len() as u8
    }

    /// The bytes of the name.
    pub fn as_bytes(&self) -> (bytes: &[u8])
        ensures
            bytes@ == self@,
            bytes@.len() <= 255,
    {
        proof {
            use_type_invariant(self);
        }
        self.bytes.as_slice()
    }
}

impl Clone for Username {
    fn clone(&self) -> (name: Username)
        ensures
            name@ == self@,
    {
        proof {
            use_type_invariant(self);
        }
        Username { bytes: slice_to_vec(self.bytes.as_slice()) }
    }
}

/// A session id that is not zero.
#[derive(Debug, Clone, Copy, PartialEq, Eq)]
pub struct NonZeroSessionId(u32);

impl View for NonZeroSessionId {
    type V = u32;

    closed spec fn view(&self) -> u32 {
        self.0
    }
}

impl NonZeroSessionId {
    #[verifier::type_invariant]
    closed spec fn inv(self) -> bool {
        self.0 != 0
    }

    /// The session id `value`, unless it is zero.
    pub fn new(value: u32) -> (id: Option<NonZeroSessionId>)
        ensures
            value != 0 ==> id is Some && id->0@ == value,
            value == 0 ==> id is None,
    {
        if value != 0 {
            Some(NonZeroSessionId(value))
        } else {
            None
        }
    }

    /// The id as an integer.
    pub fn get(&self) -> (value: u32)
        ensures
            value == self@,
            value != 0,
    {
        proof {
            use_type_invariant(self);
        }
        self.0
    }
}

} // verus!
