//! The key exchange: which bytes of its first two messages each keyed hash
//! covers, and what a session makes of the managed system's answer.
use super::hmac::{hmac_sha1, RunningHmac};
use super::keys::derived_keys;
use super::{AuthenticationAlgorithm, CryptoStateView};
use crate::rmcp::rakp_1::{RakpMessageOne, RakpMessageOneView};
use crate::rmcp::rakp_2::{RakpMessageTwo, RakpMessageTwoView};
use crate::rmcp::wire::{le32, le32_array};
use vstd::prelude::*;

verus! {

/// Why a key exchange did not establish the session.
#[derive(Debug, Clone, Copy, PartialEq, Eq, Structural)]
pub enum ValidateError {
    /// The negotiated authentication algorithm, given here, is not
    /// implemented.
    UnsupportedAlgorithm(Option<AuthenticationAlgorithm>),
    /// The managed system's authentication code is not the expected one.
    AuthCodeMismatch,
}

/// The bytes that the managed system's authentication code covers: both
/// session ids, both random numbers, the managed system's GUID, the
/// requested privilege level, and the user name after its length.
pub open spec fn key_exchange_auth_input(m1: RakpMessageOneView, m2: RakpMessageTwoView) -> Seq<
    u8,
> {
    le32(m2.remote_console_session_id) + le32(m1.managed_system_session_id)
        + m1.remote_console_random_number + m2.managed_system_random_number
        + m2.managed_system_guid + m1.role_and_name_length() + m1.username
}

/// The bytes that the session integrity key is derived from: both random
/// numbers, the requested privilege level, and the user name after its
/// length.
pub open spec fn session_integrity_key_input(
    m1: RakpMessageOneView,
    m2: RakpMessageTwoView,
) -> Seq<u8> {
    m1.remote_console_random_number + m2.managed_system_random_number + m1.role_and_name_length()
        + m1.username
}

/// The bytes that the console's authentication code, sent in the third
/// message, covers: the managed system's random number, the remote console
/// session id, the requested privilege level, and the user name after its
/// length.
pub open spec fn message_three_auth_input(m1: RakpMessageOneView, m2: RakpMessageTwoView) -> Seq<
    u8,
> {
    m2.managed_system_random_number + le32(m2.remote_console_session_id)
        + m1.role_and_name_length() + m1.username
}

impl CryptoStateView {
    /// The authentication code that the managed system owes for these two
    /// messages, keyed with the password.
    pub open spec fn key_exchange_auth_code(
        self,
        m1: RakpMessageOneView,
        m2: RakpMessageTwoView,
    ) -> Seq<u8> {
        hmac_sha1(self.password, key_exchange_auth_input(m1, m2))
    }

    /// The session integrity key that these two messages give, keyed with
    /// the BMC key or, where there is none, the password.
    pub open spec fn session_integrity_key(
        self,
        m1: RakpMessageOneView,
        m2: RakpMessageTwoView,
    ) -> Seq<u8> {
        hmac_sha1(self.kg(), session_integrity_key_input(m1, m2))
    }

    /// The authentication code that the console sends in the third message,
    /// keyed with the password.
    pub open spec fn message_three_auth_code(
        self,
        m1: RakpMessageOneView,
        m2: RakpMessageTwoView,
    ) -> Seq<u8> {
        hmac_sha1(self.password, message_three_auth_input(m1, m2))
    }

    /// Whether the second message carries the authentication code that it
    /// owes, byte for byte and in full length.
    pub open spec fn accepts(self, m1: RakpMessageOneView, m2: RakpMessageTwoView) -> bool {
        m2.key_exchange_auth_code == self.key_exchange_auth_code(m1, m2)
    }

    /// The state with the keys that these two messages give.
    pub open spec fn established(self, m1: RakpMessageOneView, m2: RakpMessageTwoView) -> Self {
        CryptoStateView { keys: Some(derived_keys(self.session_integrity_key(m1, m2))), ..self }
    }
}

/// The codes and keys of a key exchange depend on the secrets and the two
/// messages alone: sessions with the same password and BMC key owe and give
/// the same for the same messages, whatever else they hold.
pub proof fn lemma_handshake_reproducible(
    a: CryptoStateView,
    b: CryptoStateView,
    m1: RakpMessageOneView,
    m2: RakpMessageTwoView,
)
    requires
        a.password == b.password,
        a.kg == b.kg,
    ensures
        a.key_exchange_auth_code(m1, m2) == b.key_exchange_auth_code(m1, m2),
        a.accepts(m1, m2) == b.accepts(m1, m2),
        a.session_integrity_key(m1, m2) == b.session_integrity_key(m1, m2),
        a.established(m1, m2).keys == b.established(m1, m2).keys,
        a.message_three_auth_code(m1, m2) == b.message_three_auth_code(m1, m2),
{
}

fn role_and_name_length(m1: &RakpMessageOne) -> (bytes: [u8; 2])
    ensures
        bytes@ == m1@.role_and_name_length(),
{
    let bytes: [u8; 2] = [m1.requested_maximum_privilege_level, m1.username.len()];
    assert(bytes@ =~= m1@.role_and_name_length());
    bytes
}

/// Computes the authentication code that the managed system owes for these
/// two messages under `password`.
pub fn key_exchange_auth_code(password: &[u8], m1: &RakpMessageOne, m2: &RakpMessageTwo) -> (code:
    [u8; 20])
    ensures
        code@ == hmac_sha1(password@, key_exchange_auth_input(m1@, m2@)),
{
    let remote_console_session_id = le32_array(m2.remote_console_session_id.get());
    let managed_system_session_id = le32_array(m1.managed_system_session_id.get());
    let role = role_and_name_length(m1);
    let hmac = RunningHmac::new(password)
        .feed(remote_console_session_id.as_slice())
        .feed(managed_system_session_id.as_slice())
        .feed(m1.remote_console_random_number.as_slice())
        .feed(m2.managed_system_random_number.as_slice())
        .feed(m2.managed_system_guid.as_slice())
        .feed(role.as_slice())
        .feed(m1.username.as_bytes());
    assert(hmac.message() =~= key_exchange_auth_input(m1@, m2@));
    hmac.finalize()
}

/// Computes the session integrity key that these two messages give under
/// `key`.
pub fn session_integrity_key(key: &[u8], m1: &RakpMessageOne, m2: &RakpMessageTwo) -> (sik: [u8; 20])
    ensures
        sik@ == hmac_sha1(key@, session_integrity_key_input(m1@, m2@)),
{
    let role = role_and_name_length(m1);
    let hmac = RunningHmac::new(key)
        .feed(m1.remote_console_random_number.as_slice())
        .feed(m2.managed_system_random_number.as_slice())
        .feed(role.as_slice())
        .feed(m1.username.as_bytes());
    assert(hmac.message() =~= session_integrity_key_input(m1@, m2@));
    hmac.finalize()
}

/// Computes the authentication code that the console sends in the third
/// message, under `password`.
pub fn message_three_auth_code(password: &[u8], m1: &RakpMessageOne, m2: &RakpMessageTwo) -> (code:
    [u8; 20])
    ensures
        code@ == hmac_sha1(password@, message_three_auth_input(m1@, m2@)),
{
    let remote_console_session_id = le32_array(m2.remote_console_session_id.get());
    let role = role_and_name_length(m1);
    let hmac = RunningHmac::new(password)
        .feed(m2.managed_system_random_number.as_slice())
        .feed(remote_console_session_id.as_slice())
        .feed(role.as_slice())
        .feed(m1.username.as_bytes());
    assert(hmac.message() =~= message_three_auth_input(m1@, m2@));
    hmac.finalize()
}

/// Whether two byte strings are the same, in length and in every byte.
pub fn bytes_equal(a: &[u8], b: &[u8]) -> (equal: bool)
    ensures
        equal == (a@ == b@),
{
    if a.len() != b.len() {
        return false;
    }
    let mut i: usize = 0;
    while i < a.len()
        invariant
            i <= a.len(),
            a.len() == b.len(),
            forall|j: int| 0 <= j < i ==> a[j] == b[j],
        decreases a.len() - i,
    {
        if a[i] != b[i] {
            return false;
        }
        i += 1;
    }
    assert(a@ =~= b@);
    true
}

} // verus!
