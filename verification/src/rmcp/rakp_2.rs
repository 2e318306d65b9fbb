//! The second message of the key exchange, the managed system's answer.
use super::messages::{NonZeroSessionId, RakpErrorStatusCode};
use super::wire::{from_le32, get_le32};
use vstd::prelude::*;
use vstd::slice::slice_subrange;

verus! {

/// A failure that the managed system reports in place of its answer.
#[derive(Debug, Clone, Copy, PartialEq, Eq, Structural)]
pub enum ErrorStatusCode {
    CommonRakp(RakpErrorStatusCode),
    InactiveSessionId,
    InvalidRole,
    UnauthorizedRoleOrPrivilegeLevelRequested,
    InsufficientResourcesToCreateSessionAtRequestedRole,
    InvalidNameLength,
    UnauthorizedName,
}

impl ErrorStatusCode {
    /// The failure that a status byte stands for, if any: a status common to
    /// all key exchange messages, or one of this message's own.
    pub open spec fn decoded(byte: u8) -> Option<ErrorStatusCode> {
        match RakpErrorStatusCode::decoded(byte) {
            Some(common) => Some(ErrorStatusCode::CommonRakp(common)),
            None => match byte {
                0x08 => Some(ErrorStatusCode::InactiveSessionId),
                0x09 => Some(ErrorStatusCode::InvalidRole),
                0x0A => Some(ErrorStatusCode::UnauthorizedRoleOrPrivilegeLevelRequested),
                0x0B => Some(ErrorStatusCode::InsufficientResourcesToCreateSessionAtRequestedRole),
                0x0C => Some(ErrorStatusCode::InvalidNameLength),
                0x0D => Some(ErrorStatusCode::UnauthorizedName),
                _ => None,
            },
        }
    }

}

impl TryFrom<u8> for ErrorStatusCode {
    type Error = ();

    /// Decodes a status byte; a byte that stands for no failure is an error.
    fn try_from(value: u8) -> (r: Result<Self, Self::Error>) {
        if let Ok(common) = RakpErrorStatusCode::try_from(value) {
            return Ok(ErrorStatusCode::CommonRakp(common));
        }
        let value = match value {
            0x08 => ErrorStatusCode::InactiveSessionId,
            0x09 => ErrorStatusCode::InvalidRole,
            0x0A => ErrorStatusCode::UnauthorizedRoleOrPrivilegeLevelRequested,
            0x0B => ErrorStatusCode::InsufficientResourcesToCreateSessionAtRequestedRole,
            0x0C => ErrorStatusCode::InvalidNameLength,
            0x0D => ErrorStatusCode::UnauthorizedName,
            _ => return Err(()),
        };
        Ok(value)
    }
}

impl vstd::std_specs::convert::TryFromSpecImpl<u8> for ErrorStatusCode {
    open spec fn obeys_try_from_spec() -> bool {
        true
    }

    open spec fn try_from_spec(value: u8) -> Result<Self, Self::Error> {
        match ErrorStatusCode::decoded(value) {
            Some(code) => Ok(code),
            None => Err(()),
        }
    }
}

/// Why bytes are not an answer to go on with.
#[derive(Debug, Clone, Copy, PartialEq, Eq, Structural)]
pub enum RakpMessageTwoParseError {
    /// The bytes end before the message does.
    NotEnoughData,
    /// The managed system reports a failure.
    ErrorStatusCode(ErrorStatusCode),
    /// The status byte is neither zero nor a known failure.
    UnknownErrorStatusCode(u8),
    /// The remote console session id is zero.
    InvalidRemoteConsoleSessionId,
}

/// RAKP Message 2.
#[derive(Debug)]
pub struct RakpMessageTwo<'a> {
    pub message_tag: u8,
    pub remote_console_session_id: NonZeroSessionId,
    pub managed_system_random_number: [u8; 16],
    pub managed_system_guid: [u8; 16],
    pub key_exchange_auth_code: &'a [u8],
}

/// The mathematical value of a [`RakpMessageTwo`].
pub struct RakpMessageTwoView {
    pub message_tag: u8,
    pub remote_console_session_id: u32,
    pub managed_system_random_number: Seq<u8>,
    pub managed_system_guid: Seq<u8>,
    pub key_exchange_auth_code: Seq<u8>,
}

impl<'a> View for RakpMessageTwo<'a> {
    type V = RakpMessageTwoView;

    open spec fn view(&self) -> RakpMessageTwoView {
        RakpMessageTwoView {
            message_tag: self.message_tag,
            remote_console_session_id: self.remote_console_session_id@,
            managed_system_random_number: self.managed_system_random_number@,
            managed_system_guid: self.managed_system_guid@,
            key_exchange_auth_code: self.key_exchange_auth_code@,
        }
    }
}

/// What the bytes of a RAKP Message 2 hold: tag, a reserved byte, status and
/// another reserved byte; then, if the status is zero, the remote console
/// session id, the managed system's random number and GUID, and the
/// authentication code, which is all that follows.
pub open spec fn parsed_message_two(data: Seq<u8>) -> Result<
    RakpMessageTwoView,
    RakpMessageTwoParseError,
> {
    if data.len() < 3 {
        Err(RakpMessageTwoParseError::NotEnoughData)
    } else if data[2] != 0 {
        match ErrorStatusCode::decoded(data[2]) {
            Some(code) => Err(RakpMessageTwoParseError::ErrorStatusCode(code)),
            None => Err(RakpMessageTwoParseError::UnknownErrorStatusCode(data[2])),
        }
    } else if data.len() < 40 {
        Err(RakpMessageTwoParseError::NotEnoughData)
    } else if from_le32(data.subrange(4, 8)) == 0 {
        Err(RakpMessageTwoParseError::InvalidRemoteConsoleSessionId)
    } else {
        Ok(
            RakpMessageTwoView {
                message_tag: data[0],
                remote_console_session_id: from_le32(data.subrange(4, 8)),
                managed_system_random_number: data.subrange(8, 24),
                managed_system_guid: data.subrange(24, 40),
                key_exchange_auth_code: data.subrange(40, data.len() as int),
            },
        )
    }
}

fn array16(data: &[u8], at: usize) -> (out: [u8; 16])
    requires
        at + 16 <= data.len(),
    ensures
        out@ == data@.subrange(at as int, at + 16),
{
    let mut out: [u8; 16] = [0u8; 16];
    let mut i: usize = 0;
    while i < 16
        invariant
            i <= 16,
            at + 16 <= data.len(),
            forall|j: int| 0 <= j < i ==> out[j] == data[at + j],
        decreases 16 - i,
    {
        out[i] = data[at + i];
        i += 1;
    }
    assert(out@ =~= data@.subrange(at as int, at + 16));
    out
}

impl<'a> RakpMessageTwo<'a> {
    /// Parses the bytes of a RAKP Message 2.
    pub fn from_data(data: &'a [u8]) -> (r: Result<Self, RakpMessageTwoParseError>)
        ensures
            match r {
                Ok(message) => parsed_message_two(data@) == Ok::<
                    RakpMessageTwoView,
                    RakpMessageTwoParseError,
                >(message@),
                Err(e) => parsed_message_two(data@) == Err::<
                    RakpMessageTwoView,
                    RakpMessageTwoParseError,
                >(e),
            },
    {
        if data.len() < 3 {
            return Err(RakpMessageTwoParseError::NotEnoughData);
        }
        let message_tag = data[0];
        let status_code = data[2];
        if status_code != 0 {
            return match ErrorStatusCode::try_from(status_code) {
                Ok(code) => Err(RakpMessageTwoParseError::ErrorStatusCode(code)),
                Err(_) => Err(RakpMessageTwoParseError::UnknownErrorStatusCode(status_code)),
            };
        }
        if data.len() < 40 {
            return Err(RakpMessageTwoParseError::NotEnoughData);
        }
        let remote_console_session_id = if let Some(v) = NonZeroSessionId::new(
            get_le32(data, 4),
        ) {
            v
        } else {
            return Err(RakpMessageTwoParseError::InvalidRemoteConsoleSessionId);
        };
        let managed_system_random_number = array16(data, 8);
        let managed_system_guid = array16(data, 24);
        let key_exchange_auth_code = slice_subrange(data, 40, data.len());
        Ok(
            RakpMessageTwo {
                message_tag,
                remote_console_session_id,
                managed_system_random_number,
                managed_system_guid,
                key_exchange_auth_code,
            },
        )
    }
}

} // verus!
