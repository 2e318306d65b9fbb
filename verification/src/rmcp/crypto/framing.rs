//! Session packets: what a packet holds for a session, and which bytes a
//! session writes for a message.
//!
//! A packet is, after the four bytes of the outer header: the format marker
//! `06`, a flags byte, the session id and the sequence number (four bytes
//! each, little-endian), the payload length (two bytes, little-endian) and
//! the payload; and, where the session authenticates, pad bytes `FF`, the
//! pad length, the next header byte `07` and the integrity code.
use super::hmac::{hmac_sha1, lemma_hmac_sha1_len};
use super::{CryptoStateView, CryptoUnwrapError, IntegrityAlgorithm};
use crate::rmcp::wire::{
    from_le16, from_le32, le16, le32, lemma_le16_decode_encode, lemma_le32_decode_encode,
};
use crate::rmcp::{MessageView, PayloadType, ReadError, WriteError};
use vstd::prelude::*;

verus! {

/// The number of pad bytes that bring `covered` bytes to a multiple of four.
pub open spec fn integrity_pad_len(covered: nat) -> nat {
    ((4 - covered % 4) % 4) as nat
}

/// The flags byte of a session header: the encryption flag in the top bit,
/// the authentication flag below it, the payload type in the low six.
pub open spec fn flags_byte(encrypted: bool, authenticated: bool, ty: PayloadType) -> u8 {
    ((if encrypted {
        0x80int
    } else {
        0
    }) + (if authenticated {
        0x40int
    } else {
        0
    }) + ty.encoded()) as u8
}

/// The session header of a message: format marker, flags, session id and
/// sequence number.
pub open spec fn session_header(encrypted: bool, authenticated: bool, m: MessageView) -> Seq<u8> {
    seq![0x06u8, flags_byte(encrypted, authenticated, m.ty)] + le32(m.session_id) + le32(
        m.session_sequence_number,
    )
}

/// What a packet, from its format marker on, holds for a session that
/// encrypts and authenticates as given. The checks come in this order: ten
/// bytes of header, the format marker, the payload type, two bytes of
/// length, the two flags, the length itself. The payload of a message
/// inside a session ends one byte before the packet does: the last byte is
/// a pad byte, and a packet without it is refused.
pub open spec fn read_frame(encrypted: bool, authenticated: bool, data: Seq<u8>) -> Result<
    MessageView,
    ReadError,
> {
    if data.len() < 10 {
        Err(ReadError::NotEnoughData)
    } else if data[0] != 0x06 {
        Err(ReadError::NotIpmiV2_0)
    } else if PayloadType::decoded(data[1] % 0x40) is None {
        Err(ReadError::InvalidPayloadType(data[1] % 0x40))
    } else if data.len() < 12 {
        Err(ReadError::Unwrap(CryptoUnwrapError::NotEnoughData))
    } else if encrypted != (data[1] >= 0x80) {
        Err(ReadError::Unwrap(CryptoUnwrapError::MismatchingEncryptionState))
    } else if authenticated != (data[1] / 0x40 % 2 == 1) {
        Err(ReadError::Unwrap(CryptoUnwrapError::MismatchingAuthenticationState))
    } else if from_le16(data.subrange(10, 12)) != data.len() - 12 {
        Err(ReadError::Unwrap(CryptoUnwrapError::IncorrectPayloadLen))
    } else {
        let header = MessageView {
            ty: PayloadType::decoded(data[1] % 0x40)->0,
            session_id: from_le32(data.subrange(2, 6)),
            session_sequence_number: from_le32(data.subrange(6, 10)),
            payload: Seq::empty(),
        };
        if !header.in_session() {
            Ok(MessageView { payload: data.subrange(12, data.len() as int), ..header })
        } else if data.len() == 12 {
            Err(ReadError::Unwrap(CryptoUnwrapError::IncorrectPayloadLen))
        } else {
            Ok(MessageView { payload: data.subrange(12, data.len() - 1), ..header })
        }
    }
}

impl CryptoStateView {
    /// The bytes that writing a message appends to the buffer, and how the
    /// writing ends. The header is written in any case. A payload of more
    /// than 65535 bytes ends the writing there, and so does a session that
    /// encrypts, as no confidentiality algorithm is implemented. A session
    /// that authenticates with another algorithm than HMAC-SHA1-96 writes
    /// all but the integrity code.
    pub open spec fn frame(self, m: MessageView) -> (Seq<u8>, Result<(), WriteError>) {
        let header = session_header(self.encrypted(), self.authenticated(), m);
        if m.payload.len() > 0xFFFF {
            (header, Err(WriteError::PayloadTooLong))
        } else if self.encrypted() {
            (header, Err(WriteError::UnsupportedConfidentiality(self.confidentiality_algorithm->0)))
        } else {
            let body = header + le16(m.payload.len() as u16) + m.payload;
            match (self.keys, self.integrity_algorithm) {
                (Some(keys), Some(algorithm)) => {
                    let pad = integrity_pad_len(body.len() + 2);
                    let covered = body + Seq::new(pad, |i: int| 0xFFu8) + seq![pad as u8, 0x07u8];
                    match algorithm {
                        IntegrityAlgorithm::HmacSha1_96 => (
                            covered + hmac_sha1(keys.k1, covered).subrange(0, 12),
                            Ok(()),
                        ),
                        _ => (covered, Err(WriteError::UnsupportedIntegrity(algorithm))),
                    }
                },
                _ => (body, Ok(())),
            }
        }
    }
}

/// The pad brings what the integrity code covers to a multiple of four
/// bytes, with at most three bytes.
pub proof fn lemma_integrity_pad_len(covered: nat)
    ensures
        integrity_pad_len(covered) <= 3,
        (covered + integrity_pad_len(covered)) % 4 == 0,
{
}

/// In a session that neither encrypts nor authenticates, a message outside
/// a session (its session id or its sequence number is zero) with a payload
/// of at most 65535 bytes is written without error, and reading what was
/// written gives the message back.
pub proof fn lemma_frame_round_trip(state: CryptoStateView, m: MessageView)
    requires
        !state.encrypted(),
        !state.authenticated(),
        !m.in_session(),
        m.payload.len() <= 0xFFFF,
    ensures
        state.frame(m).1 is Ok,
        read_frame(state.encrypted(), state.authenticated(), state.frame(m).0) == Ok::<
            MessageView,
            ReadError,
        >(m),
{
    lemma_plain_frame(m);
}

/// In a session that neither encrypts nor authenticates, a message inside a
/// session (neither its session id nor its sequence number is zero) comes
/// back from reading when it was written with one pad byte, of any value,
/// after its payload: reading strips that byte.
pub proof fn lemma_frame_round_trip_in_session(state: CryptoStateView, m: MessageView, pad: u8)
    requires
        !state.encrypted(),
        !state.authenticated(),
        m.in_session(),
        m.payload.len() < 0xFFFF,
    ensures
        state.frame(MessageView { payload: m.payload.push(pad), ..m }).1 is Ok,
        read_frame(
            state.encrypted(),
            state.authenticated(),
            state.frame(MessageView { payload: m.payload.push(pad), ..m }).0,
        ) == Ok::<MessageView, ReadError>(m),
{
    let padded = MessageView { payload: m.payload.push(pad), ..m };
    lemma_plain_frame(padded);
    let data = state.frame(padded).0;
    assert(data.subrange(12, data.len() - 1) =~= m.payload);
}

/// What reading finds in a packet written without encryption and
/// authentication: every field of the message, and the payload up to the
/// end of the packet.
proof fn lemma_plain_frame(m: MessageView)
    requires
        m.payload.len() <= 0xFFFF,
    ensures
        ({
            let data = session_header(false, false, m) + le16(m.payload.len() as u16) + m.payload;
            &&& data.len() == 12 + m.payload.len()
            &&& data[0] == 0x06
            &&& data[1] == m.ty.encoded()
            &&& PayloadType::decoded(data[1] % 0x40) == Some(m.ty)
            &&& from_le32(data.subrange(2, 6)) == m.session_id
            &&& from_le32(data.subrange(6, 10)) == m.session_sequence_number
            &&& from_le16(data.subrange(10, 12)) == m.payload.len()
            &&& data.subrange(12, data.len() as int) == m.payload
        }),
{
    let data = session_header(false, false, m) + le16(m.payload.len() as u16) + m.payload;
    m.ty.lemma_encoded();
    lemma_le32_decode_encode(m.session_id);
    lemma_le32_decode_encode(m.session_sequence_number);
    lemma_le16_decode_encode(m.payload.len() as u16);
    assert(data.subrange(2, 6) =~= le32(m.session_id));
    assert(data.subrange(6, 10) =~= le32(m.session_sequence_number));
    assert(data.subrange(10, 12) =~= le16(m.payload.len() as u16));
    assert(data.subrange(12, data.len() as int) =~= m.payload);
}

/// A packet that is long enough, starts with the format marker, names a
/// known payload type and has its encryption flag set is refused, as not in
/// the state of the session, by every session without a confidentiality
/// algorithm.
pub proof fn lemma_encrypted_flag_refused(state: CryptoStateView, data: Seq<u8>)
    requires
        state.confidentiality_algorithm is None,
        data.len() >= 12,
        data[0] == 0x06,
        PayloadType::decoded(data[1] % 0x40) is Some,
        data[1] >= 0x80,
    ensures
        read_frame(state.encrypted(), state.authenticated(), data) == Err::<MessageView, ReadError>(
            ReadError::Unwrap(CryptoUnwrapError::MismatchingEncryptionState),
        ),
{
}

/// In an established session that authenticates with HMAC-SHA1-96 and does
/// not encrypt, a message with a payload of at most 65535 bytes is written
/// without error. What is written ends in the next header byte `07` and
/// twelve bytes: the first twelve of the code, under the first derived key,
/// of everything written before them, which is a multiple of four bytes.
pub proof fn lemma_integrity_trailer(state: CryptoStateView, m: MessageView)
    requires
        state.keys is Some,
        state.integrity_algorithm == Some(IntegrityAlgorithm::HmacSha1_96),
        state.confidentiality_algorithm is None,
        m.payload.len() <= 0xFFFF,
    ensures
        state.frame(m).1 is Ok,
        ({
            let written = state.frame(m).0;
            let covered = written.subrange(0, written.len() - 12);
            &&& written.len() >= 26
            &&& covered.len() % 4 == 0
            &&& covered[covered.len() - 1] == 0x07
            &&& written.subrange(written.len() - 12, written.len() as int) == hmac_sha1(
                state.keys->0.k1,
                covered,
            ).subrange(0, 12)
        }),
{
    let body = session_header(false, true, m) + le16(m.payload.len() as u16) + m.payload;
    let pad = integrity_pad_len(body.len() + 2);
    let covered = body + Seq::new(pad, |i: int| 0xFFu8) + seq![pad as u8, 0x07u8];
    let code = hmac_sha1(state.keys->0.k1, covered).subrange(0, 12);
    lemma_hmac_sha1_len(state.keys->0.k1, covered);
    let written = state.frame(m).0;
    assert(written == covered + code);
    assert(written.subrange(0, written.len() - 12) =~= covered);
    assert(written.subrange(written.len() - 12, written.len() as int) =~= code);
}

/// The number of pad bytes that go before the pad length and next header
/// bytes, so that the integrity code covers a multiple of four bytes.
/// `covered` counts all covered bytes but the pad itself.
pub fn integrity_pad_length(covered: usize) -> (pad: usize)
    ensures
        pad == integrity_pad_len(covered as nat),
        pad <= 3,
        (covered + pad) % 4 == 0,
{
    (4 - covered % 4) % 4
}

} // verus!
