//! Session security: the negotiated algorithms, the key exchange, and the
//! protection of every packet of a session.
pub mod authentication;
pub mod confidentiality;
pub mod framing;
pub mod handshake;
pub mod hmac;
pub mod integrity;
pub mod keys;
pub mod sha1;

pub use authentication::AuthenticationAlgorithm;
pub use confidentiality::ConfidentialityAlgorithm;
pub use framing::integrity_pad_length;
pub use handshake::ValidateError;
pub use hmac::RunningHmac;
pub use integrity::IntegrityAlgorithm;
pub use keys::Keys;

use super::messages::OpenSessionResponse;
use super::rakp_1::RakpMessageOne;
use super::rakp_2::RakpMessageTwo;
use super::wire::{get_le16, get_le32, le16, put_le16, put_le32};
use super::{Message, MessageView, PayloadType, ReadError, WriteError};
use framing::{read_frame, session_header};
use handshake::{
    bytes_equal, key_exchange_auth_code, message_three_auth_code, session_integrity_key,
};
use hmac::{hmac_sha1, lemma_hmac_sha1_len};
use keys::KeysView;
use vstd::prelude::*;
use vstd::slice::{slice_subrange, slice_to_vec};

verus! {

/// An algorithm identifier that travels as one byte, in which zero stands
/// for "no algorithm" and every algorithm has a byte of its own.
pub trait OptionalByteEquivalent: Sized {
    /// What a byte stands for: no algorithm, an algorithm, or nothing.
    spec fn decoded(byte: u8) -> Result<Option<Self>, ()>;

    /// The byte that stands for a choice of algorithm.
    spec fn encoded(value: Option<Self>) -> u8;

    /// Decodes a byte from the wire.
    fn from_byte(value: u8) -> (r: Result<Option<Self>, ()>)
        ensures
            r == Self::decoded(value),
    ;

    /// Encodes a choice of algorithm for the wire.
    fn into_byte(value: Option<Self>) -> (byte: u8)
        ensures
            byte == Self::encoded(value),
    ;

    /// A byte that decodes encodes back to itself, and the zero byte decodes
    /// to no algorithm.
    proof fn lemma_decode_then_encode(byte: u8)
        ensures
            Self::decoded(byte) matches Ok(value) ==> Self::encoded(value) == byte,
            Self::decoded(0) == Ok::<Option<Self>, ()>(None),
    ;

    /// A choice of algorithm decodes back from its byte, and only "no
    /// algorithm" has the zero byte.
    proof fn lemma_encode_then_decode(value: Option<Self>)
        ensures
            Self::decoded(Self::encoded(value)) == Ok::<Option<Self>, ()>(value),
            Self::encoded(value) == 0 <==> value is None,
    ;
}

/// Why a packet does not fit the state of the session.
#[derive(Debug, Clone, Copy, PartialEq, Eq, Structural)]
pub enum CryptoUnwrapError {
    /// Fewer than two bytes follow the session header.
    NotEnoughData,
    /// The packet's encryption flag differs from the session's.
    MismatchingEncryptionState,
    /// The packet's authentication flag differs from the session's.
    MismatchingAuthenticationState,
    /// The declared payload length is not the length of what follows.
    IncorrectPayloadLen,
}

/// The security context of one session: the negotiated algorithms, the
/// long-term secrets, and, once the key exchange has succeeded, the keys.
/// Until there are keys, packets are neither encrypted nor authenticated,
/// whatever was negotiated.
pub struct CryptoState {
    confidentiality_algorithm: Option<ConfidentialityAlgorithm>,
    authentication_algorithm: Option<AuthenticationAlgorithm>,
    integrity_algorithm: Option<IntegrityAlgorithm>,
    kg: Option<[u8; 20]>,
    password: Vec<u8>,
    keys: Option<Keys>,
}

/// The mathematical value of a [`CryptoState`].
pub struct CryptoStateView {
    pub confidentiality_algorithm: Option<ConfidentialityAlgorithm>,
    pub authentication_algorithm: Option<AuthenticationAlgorithm>,
    pub integrity_algorithm: Option<IntegrityAlgorithm>,
    pub kg: Option<Seq<u8>>,
    pub password: Seq<u8>,
    pub keys: Option<KeysView>,
}

impl View for CryptoState {
    type V = CryptoStateView;

    closed spec fn view(&self) -> CryptoStateView {
        CryptoStateView {
            confidentiality_algorithm: self.confidentiality_algorithm,
            authentication_algorithm: self.authentication_algorithm,
            integrity_algorithm: self.integrity_algorithm,
            kg: match self.kg {
                Some(kg) => Some(kg@),
                None => None,
            },
            password: self.password@,
            keys: match self.keys {
                Some(keys) => Some(keys@),
                None => None,
            },
        }
    }
}

impl CryptoStateView {
    /// The state of a session after negotiation, before the key exchange.
    pub open spec fn negotiated(
        kg: Option<Seq<u8>>,
        password: Seq<u8>,
        response: OpenSessionResponse,
    ) -> Self {
        CryptoStateView {
            confidentiality_algorithm: response.confidentiality_payload,
            authentication_algorithm: response.authentication_payload,
            integrity_algorithm: response.integrity_payload,
            kg,
            password,
            keys: None,
        }
    }

    /// Whether packets of the session are encrypted: a confidentiality
    /// algorithm was negotiated and the session has keys.
    pub open spec fn encrypted(self) -> bool {
        self.keys is Some && self.confidentiality_algorithm is Some
    }

    /// Whether packets of the session carry an integrity trailer: an
    /// integrity algorithm was negotiated and the session has keys.
    pub open spec fn authenticated(self) -> bool {
        self.keys is Some && self.integrity_algorithm is Some
    }

    /// The key of integrity key derivation: the BMC key if there is one,
    /// else the password.
    pub open spec fn kg(self) -> Seq<u8> {
        match self.kg {
            Some(kg) => kg,
            None => self.password,
        }
    }
}

impl Default for CryptoState {
    /// The state before any negotiation: no algorithm, no secret, no keys.
    fn default() -> (state: Self)
        ensures
            state@ == CryptoStateView::negotiated(
                None,
                Seq::empty(),
                OpenSessionResponse {
                    authentication_payload: None,
                    integrity_payload: None,
                    confidentiality_payload: None,
                },
            ),
    {
        Self {
            kg: None,
            confidentiality_algorithm: None,
            authentication_algorithm: None,
            integrity_algorithm: None,
            password: Vec::new(),
            keys: None,
        }
    }
}

impl CryptoState {
    /// The first derived key, once the session has keys.
    pub fn k1(&self) -> (key: &[u8; 20])
        requires
            self@.keys is Some,
        ensures
            key@ == self@.keys->0.k1,
    {
        self.keys.as_ref().unwrap().k1()
    }

    /// The session integrity key, once the session has keys.
    pub fn sik(&self) -> (key: &[u8; 20])
        requires
            self@.keys is Some,
        ensures
            key@ == self@.keys->0.sik,
    {
        self.keys.as_ref().unwrap().sik()
    }

    /// The state of a session after negotiation: the algorithms of the open
    /// session response, the secrets, and no keys yet.
    pub fn new(kg: Option<[u8; 20]>, password: &[u8], response: &OpenSessionResponse) -> (state:
        Self)
        ensures
            state@ == CryptoStateView::negotiated(
                match kg {
                    Some(kg) => Some(kg@),
                    None => None,
                },
                password@,
                *response,
            ),
    {
        Self {
            kg,
            confidentiality_algorithm: response.confidentiality_payload,
            authentication_algorithm: response.authentication_payload,
            integrity_algorithm: response.integrity_payload,
            password: slice_to_vec(password),
            keys: None,
        }
    }

    /// Whether packets of the session are encrypted.
    pub fn encrypted(&self) -> (b: bool)
        ensures
            b == self@.encrypted(),
    {
        self.keys.is_some() && self.confidentiality_algorithm.is_some()
    }

    /// Whether packets of the session carry an integrity trailer.
    pub fn authenticated(&self) -> (b: bool)
        ensures
            b == self@.authenticated(),
    {
        self.keys.is_some() && self.integrity_algorithm.is_some()
    }

    /// Whether the key exchange has given the session its keys.
    pub fn has_keys(&self) -> (b: bool)
        ensures
            b == (self@.keys is Some),
    {
        self.keys.is_some()
    }

    /// The negotiated confidentiality algorithm.
    pub fn confidentiality_algorithm(&self) -> (algorithm: Option<ConfidentialityAlgorithm>)
        ensures
            algorithm == self@.confidentiality_algorithm,
    {
        self.confidentiality_algorithm
    }

    /// The negotiated authentication algorithm.
    pub fn authentication_algorithm(&self) -> (algorithm: Option<AuthenticationAlgorithm>)
        ensures
            algorithm == self@.authentication_algorithm,
    {
        self.authentication_algorithm
    }

    /// The negotiated integrity algorithm.
    pub fn integrity_algorithm(&self) -> (algorithm: Option<IntegrityAlgorithm>)
        ensures
            algorithm == self@.integrity_algorithm,
    {
        self.integrity_algorithm
    }

    /// Checks the managed system's answer to the first message. On success
    /// the session has its keys, and the result is the authentication code
    /// to send in the third message. On failure nothing changes. Only
    /// HMAC-SHA1 is implemented: with any other negotiated authentication
    /// algorithm, or none, the exchange fails as unsupported.
    pub fn validate(&mut self, m1: &RakpMessageOne, m2: &RakpMessageTwo) -> (r: Result<
        Vec<u8>,
        ValidateError,
    >)
        ensures
            match r {
                Ok(code) => {
                    &&& old(self)@.authentication_algorithm == Some(
                        AuthenticationAlgorithm::RakpHmacSha1,
                    )
                    &&& old(self)@.accepts(m1@, m2@)
                    &&& final(self)@ == old(self)@.established(m1@, m2@)
                    &&& code@ == old(self)@.message_three_auth_code(m1@, m2@)
                },
                Err(ValidateError::UnsupportedAlgorithm(algorithm)) => {
                    &&& algorithm == old(self)@.authentication_algorithm
                    &&& algorithm != Some(AuthenticationAlgorithm::RakpHmacSha1)
                    &&& final(self)@ == old(self)@
                },
                Err(ValidateError::AuthCodeMismatch) => {
                    &&& old(self)@.authentication_algorithm == Some(
                        AuthenticationAlgorithm::RakpHmacSha1,
                    )
                    &&& !old(self)@.accepts(m1@, m2@)
                    &&& final(self)@ == old(self)@
                },
            },
    {
        match self.authentication_algorithm {
            Some(AuthenticationAlgorithm::RakpHmacSha1) => {
                match self.validate_hmac_sha1(m1, m2) {
                    Some(code) => Ok(slice_to_vec(code.as_slice())),
                    None => Err(ValidateError::AuthCodeMismatch),
                }
            },
            other => Err(ValidateError::UnsupportedAlgorithm(other)),
        }
    }

    fn kg(&self) -> (key: &[u8])
        ensures
            key@ == self@.kg(),
    {
        match &self.kg {
            Some(kg) => kg.as_slice(),
            None => self.password.as_slice(),
        }
    }

    fn validate_hmac_sha1(&mut self, m1: &RakpMessageOne, m2: &RakpMessageTwo) -> (r: Option<
        [u8; 20],
    >)
        ensures
            old(self)@.accepts(m1@, m2@) ==> r is Some && r->0@ == old(self)@.message_three_auth_code(
                m1@,
                m2@,
            ) && final(self)@ == old(self)@.established(m1@, m2@),
            !old(self)@.accepts(m1@, m2@) ==> r is None && final(self)@ == old(self)@,
    {
        let hmac_output = key_exchange_auth_code(self.password.as_slice(), m1, m2);

        if bytes_equal(hmac_output.as_slice(), m2.key_exchange_auth_code) {
            let sik = session_integrity_key(self.kg(), m1, m2);

            self.keys = Some(Keys::from_sik(sik));

            let output = message_three_auth_code(self.password.as_slice(), m1, m2);

            Some(output)
        } else {
            None
        }
    }

    /// Reads a packet, from its format marker on, and hands out the message
    /// that it carries. The session is left as it was.
    pub fn read_payload(&mut self, data: &[u8]) -> (r: Result<Message, ReadError>)
        ensures
            *final(self) == *old(self),
            match r {
                Ok(message) => read_frame(
                    old(self)@.encrypted(),
                    old(self)@.authenticated(),
                    data@,
                ) == Ok::<MessageView, ReadError>(message@),
                Err(e) => read_frame(old(self)@.encrypted(), old(self)@.authenticated(), data@)
                    == Err::<MessageView, ReadError>(e),
            },
    {
        if data.len() < 10 {
            return Err(ReadError::NotEnoughData);
        }
        if data[0] != 0x06 {
            return Err(ReadError::NotIpmiV2_0);
        }
        let flags = data[1];
        let encrypted = (flags & 0x80) == 0x80;
        let authenticated = (flags & 0x40) == 0x40;
        let ty_byte = flags & 0x3F;
        assert(((flags & 0x80) == 0x80) == (flags >= 0x80)) by (bit_vector);
        assert(((flags & 0x40) == 0x40) == (flags / 0x40 % 2 == 1)) by (bit_vector);
        assert(flags & 0x3F == flags % 0x40) by (bit_vector);
        let ty = match PayloadType::try_from(ty_byte) {
            Ok(ty) => ty,
            Err(_) => {
                return Err(ReadError::InvalidPayloadType(ty_byte));
            },
        };
        let session_id = get_le32(data, 2);
        let session_sequence_number = get_le32(data, 6);
        if data.len() - 10 < 2 {
            return Err(CryptoUnwrapError::NotEnoughData.into());
        }
        if self.encrypted() != encrypted {
            return Err(CryptoUnwrapError::MismatchingEncryptionState.into());
        }
        if self.authenticated() != authenticated {
            return Err(CryptoUnwrapError::MismatchingAuthenticationState.into());
        }
        let data_len = get_le16(data, 10);
        if data_len as usize != data.len() - 12 {
            return Err(CryptoUnwrapError::IncorrectPayloadLen.into());
        }
        // An in-session message ends in one pad byte, which is not payload.
        let end = if session_id != 0 && session_sequence_number != 0 {
            if data.len() == 12 {
                return Err(CryptoUnwrapError::IncorrectPayloadLen.into());
            }
            data.len() - 1
        } else {
            data.len()
        };
        Ok(
            Message {
                ty,
                session_id,
                session_sequence_number,
                payload: slice_to_vec(slice_subrange(data, 12, end)),
            },
        )
    }

    /// Appends to `buffer`, which holds the four bytes of the outer header,
    /// the session packet that carries `message`. The session is left as it
    /// was. On an error the buffer holds what was written up to it.
    pub fn write_message(&mut self, message: &Message, buffer: &mut Vec<u8>) -> (r: Result<
        (),
        WriteError,
    >)
        requires
            old(buffer)@.len() == 4,
        ensures
            *final(self) == *old(self),
            final(buffer)@ == old(buffer)@ + old(self)@.frame(message@).0,
            r == old(self)@.frame(message@).1,
    {
        let ghost header = session_header(self@.encrypted(), self@.authenticated(), message@);
        buffer.push(0x06);

        let encrypted: u8 = if self.encrypted() {
            0x80
        } else {
            0
        };
        let authenticated: u8 = if self.authenticated() {
            0x40
        } else {
            0
        };
        let ty = u8::from(message.ty);
        proof {
            message.ty.lemma_encoded();
        }
        assert(encrypted | authenticated | ty == encrypted + authenticated + ty) by (bit_vector)
            requires
                encrypted == 0x80 || encrypted == 0,
                authenticated == 0x40 || authenticated == 0,
                ty < 0x40,
        ;
        buffer.push(encrypted | authenticated | ty);

        put_le32(buffer, message.session_id);
        put_le32(buffer, message.session_sequence_number);
        assert(buffer@ =~= old(buffer)@ + header);

        let data_len = message.payload.len();
        if data_len > 0xFFFF {
            return Err(WriteError::PayloadTooLong);
        }
        // No confidentiality algorithm is implemented: a session that
        // encrypts writes no payload.
        if self.encrypted() {
            if let Some(algorithm) = self.confidentiality_algorithm {
                return Err(WriteError::UnsupportedConfidentiality(algorithm));
            }
        }
        put_le16(buffer, data_len as u16);
        buffer.extend_from_slice(message.payload.as_slice());
        let ghost body = header + le16(data_len as u16) + message@.payload;
        assert(buffer@ =~= old(buffer)@ + body);

        // The session trailer is only present if packets are authenticated.
        match (&self.keys, self.integrity_algorithm) {
            (Some(keys), Some(algorithm)) => {
                // The pad length and next header bytes are covered too.
                let pad_length = integrity_pad_length(buffer.len() - 4 + 2);
                let ghost pad = pad_length as nat;
                let mut i: usize = 0;
                while i < pad_length
                    invariant
                        i <= pad_length,
                        buffer@ == old(buffer)@ + body + Seq::new(i as nat, |j: int| 0xFFu8),
                    decreases pad_length - i,
                {
                    buffer.push(0xFF);
                    i += 1;
                    assert(buffer@ =~= old(buffer)@ + body + Seq::new(i as nat, |j: int| 0xFFu8));
                }
                buffer.push(pad_length as u8);
                buffer.push(0x07);
                let ghost covered = body + Seq::new(pad, |j: int| 0xFFu8) + seq![
                    pad as u8,
                    0x07u8,
                ];
                assert(buffer@ =~= old(buffer)@ + covered);

                match algorithm {
                    IntegrityAlgorithm::HmacSha1_96 => {
                        let auth_code_data = slice_subrange(buffer.as_slice(), 4, buffer.len());
                        assert(auth_code_data@ =~= covered);
                        let hmac = RunningHmac::new(keys.k1().as_slice()).feed(auth_code_data);
                        assert(hmac.message() =~= covered);
                        let integrity_data = hmac.finalize();
                        proof {
                            lemma_hmac_sha1_len(keys@.k1, covered);
                        }
                        buffer.extend_from_slice(slice_subrange(integrity_data.as_slice(), 0, 12));
                        assert(buffer@ =~= old(buffer)@ + (covered + hmac_sha1(
                            keys@.k1,
                            covered,
                        ).subrange(0, 12)));
                        Ok(())
                    },
                    other => Err(WriteError::UnsupportedIntegrity(other)),
                }
            },
            _ => Ok(()),
        }
    }
}

} // verus!
