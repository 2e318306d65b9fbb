//! The first message of the key exchange, sent by the remote console.
use super::messages::{NonZeroSessionId, Username};
use super::wire::{le32, put_le32};
use vstd::prelude::*;

verus! {

/// RAKP Message 1.
#[derive(Debug)]
pub struct RakpMessageOne {
    pub message_tag: u8,
    pub managed_system_session_id: NonZeroSessionId,
    pub remote_console_random_number: [u8; 16],
    pub requested_maximum_privilege_level: u8,
    pub username: Username,
}

/// The mathematical value of a [`RakpMessageOne`].
pub struct RakpMessageOneView {
    pub message_tag: u8,
    pub managed_system_session_id: u32,
    pub remote_console_random_number: Seq<u8>,
    pub requested_maximum_privilege_level: u8,
    pub username: Seq<u8>,
}

impl View for RakpMessageOne {
    type V = RakpMessageOneView;

    open spec fn view(&self) -> RakpMessageOneView {
        RakpMessageOneView {
            message_tag: self.message_tag,
            managed_system_session_id: self.managed_system_session_id@,
            remote_console_random_number: self.remote_console_random_number@,
            requested_maximum_privilege_level: self.requested_maximum_privilege_level,
            username: self.username@,
        }
    }
}

impl RakpMessageOneView {
    /// The two bytes that every keyed hash of the exchange takes between
    /// the random numbers and the user name: the requested privilege level
    /// and the length of the user name.
    pub open spec fn role_and_name_length(self) -> Seq<u8> {
        seq![self.requested_maximum_privilege_level, self.username.len() as u8]
    }

    /// The message on the wire: tag, three reserved bytes, the managed
    /// system's session id, the console's random number, the requested
    /// privilege level, one reserved byte, and the user name after its length.
    pub open spec fn encoded(self) -> Seq<u8> {
        seq![self.message_tag, 0u8, 0u8, 0u8] + le32(self.managed_system_session_id)
            + self.remote_console_random_number + seq![
            self.requested_maximum_privilege_level,
            0u8,
            self.username.len() as u8,
        ] + self.username
    }
}

impl RakpMessageOne {
    /// Appends the message, as it goes on the wire, to `buffer`.
    pub fn write(&self, buffer: &mut Vec<u8>)
        ensures
            final(buffer)@ == old(buffer)@ + self@.encoded(),
    {
        buffer.push(self.message_tag);
        buffer.push(0);
        buffer.push(0);
        buffer.push(0);
        put_le32(buffer, self.managed_system_session_id.get());
        buffer.extend_from_slice(self.remote_console_random_number.as_slice());
        buffer.push(self.requested_maximum_privilege_level);
        buffer.push(0);
        buffer.push(self.username.len());
        buffer.extend_from_slice(self.username.as_bytes());
        assert(buffer@ =~= old(buffer)@ + self@.encoded());
    }
}

} // verus!
