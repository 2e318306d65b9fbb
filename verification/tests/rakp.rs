use ipmi_rs::rmcp::crypto::handshake::{
    bytes_equal, key_exchange_auth_code, message_three_auth_code, session_integrity_key,
};
use ipmi_rs::rmcp::crypto::{
    AuthenticationAlgorithm, CryptoState, IntegrityAlgorithm, Keys, ValidateError,
};
use ipmi_rs::rmcp::messages::{
    NonZeroSessionId, OpenSessionResponse, RakpErrorStatusCode, Username,
};
use ipmi_rs::rmcp::rakp_1::RakpMessageOne;
use ipmi_rs::rmcp::rakp_2::{ErrorStatusCode, RakpMessageTwo, RakpMessageTwoParseError};

const MESSAGE_TWO: [u8; 60] = [
    0x2a, 0x00, 0x00, 0x00, 0xa4, 0xa3, 0xa2, 0xa1, 0x10, 0x11, 0x12, 0x13, 0x14, 0x15, 0x16, 0x17,
    0x18, 0x19, 0x1a, 0x1b, 0x1c, 0x1d, 0x1e, 0x1f, 0x20, 0x21, 0x22, 0x23, 0x24, 0x25, 0x26, 0x27,
    0x28, 0x29, 0x2a, 0x2b, 0x2c, 0x2d, 0x2e, 0x2f, 0x62, 0x70, 0x1d, 0x43, 0x12, 0xcb, 0xc4, 0x1c,
    0x27, 0xe0, 0xe3, 0x06, 0x3f, 0x77, 0x0f, 0xe2, 0xd7, 0xb2, 0x8c, 0xb5,
];

const SIK: [u8; 20] = [
    0xdd, 0x80, 0x35, 0x57, 0xb2, 0xf6, 0x8c, 0x18, 0xe2, 0x30, 0xb6, 0xec, 0x68, 0x54, 0x98, 0x41,
    0x29, 0xff, 0xa1, 0x96,
];

const SIK_WITH_BMC_KEY: [u8; 20] = [
    0x82, 0x31, 0xc2, 0x34, 0xf7, 0xa9, 0x6a, 0x36, 0x31, 0x85, 0x83, 0x2d, 0xfb, 0x11, 0xf5, 0x19,
    0xe5, 0x00, 0xf7, 0x89,
];

const K1: [u8; 20] = [
    0x9f, 0x8d, 0x87, 0x9f, 0x73, 0xff, 0x89, 0x07, 0xe7, 0xc2, 0xc5, 0xc5, 0x88, 0x29, 0x3b, 0x87,
    0xe9, 0x34, 0x5a, 0x86,
];

const K2: [u8; 20] = [
    0xe7, 0xa6, 0xec, 0xbc, 0x6e, 0x4c, 0x03, 0x71, 0x81, 0xf7, 0xf1, 0x59, 0xa6, 0x4b, 0xba, 0x83,
    0x30, 0x41, 0x9e, 0x86,
];

const K3: [u8; 20] = [
    0xd7, 0x25, 0xf3, 0x59, 0x87, 0xf2, 0x56, 0xf7, 0x92, 0xa5, 0x08, 0xfa, 0x4d, 0x80, 0xb7, 0xba,
    0xc0, 0xd7, 0x04, 0x2b,
];

const MESSAGE_THREE_CODE: [u8; 20] = [
    0xc8, 0x3e, 0x95, 0xe4, 0x48, 0xc4, 0xfb, 0xf8, 0x49, 0x87, 0xe9, 0x4f, 0x5c, 0x5b, 0x99, 0xdc,
    0x31, 0x6c, 0x4d, 0xfc,
];

fn message_one() -> RakpMessageOne {
    let mut random = [0u8; 16];
    for (i, byte) in random.iter_mut().enumerate() {
        *byte = i as u8;
    }
    RakpMessageOne {
        message_tag: 0x2a,
        managed_system_session_id: NonZeroSessionId::new(0x0A0B0C0D).unwrap(),
        remote_console_random_number: random,
        requested_maximum_privilege_level: 0x04,
        username: Username::new(b"admin").unwrap(),
    }
}

fn negotiated(authentication: Option<AuthenticationAlgorithm>) -> OpenSessionResponse {
    OpenSessionResponse {
        authentication_payload: authentication,
        integrity_payload: Some(IntegrityAlgorithm::HmacSha1_96),
        confidentiality_payload: None,
    }
}

fn with_status(status: u8) -> Vec<u8> {
    let mut data = MESSAGE_TWO.to_vec();
    data[2] = status;
    data
}

fn parse_error(data: &[u8]) -> RakpMessageTwoParseError {
    RakpMessageTwo::from_data(data).unwrap_err()
}

#[test]
fn message_two_parses() {
    let message = RakpMessageTwo::from_data(&MESSAGE_TWO).unwrap();
    assert_eq!(message.message_tag, 0x2a);
    assert_eq!(message.remote_console_session_id.get(), 0xA1A2A3A4);
    assert_eq!(&message.managed_system_random_number[..], &MESSAGE_TWO[8..24]);
    assert_eq!(&message.managed_system_guid[..], &MESSAGE_TWO[24..40]);
    assert_eq!(message.key_exchange_auth_code, &MESSAGE_TWO[40..]);
}

#[test]
fn message_two_without_auth_code_parses() {
    let message = RakpMessageTwo::from_data(&MESSAGE_TWO[..40]).unwrap();
    assert!(message.key_exchange_auth_code.is_empty());
}

#[test]
fn message_two_shorter_than_three_bytes_is_not_enough_data() {
    assert_eq!(parse_error(&[]), RakpMessageTwoParseError::NotEnoughData);
    assert_eq!(parse_error(&[0x2a]), RakpMessageTwoParseError::NotEnoughData);
    assert_eq!(parse_error(&[0x2a, 0x00]), RakpMessageTwoParseError::NotEnoughData);
}

#[test]
fn message_two_with_status_zero_needs_forty_bytes() {
    assert_eq!(parse_error(&[0x2a, 0x00, 0x00]), RakpMessageTwoParseError::NotEnoughData);
    assert_eq!(parse_error(&MESSAGE_TWO[..39]), RakpMessageTwoParseError::NotEnoughData);
}

#[test]
fn message_two_status_is_read_before_the_rest() {
    assert_eq!(
        parse_error(&[0x2a, 0x00, 0x0D]),
        RakpMessageTwoParseError::ErrorStatusCode(ErrorStatusCode::UnauthorizedName)
    );
    assert_eq!(
        parse_error(&[0x2a, 0x00, 0x7F]),
        RakpMessageTwoParseError::UnknownErrorStatusCode(0x7F)
    );
}

#[test]
fn message_two_known_status_maps_to_its_name() {
    let known = [
        (
            0x01u8,
            ErrorStatusCode::CommonRakp(RakpErrorStatusCode::InsufficientResourcesToCreateSession),
        ),
        (0x02, ErrorStatusCode::CommonRakp(RakpErrorStatusCode::InvalidSessionId)),
        (0x08, ErrorStatusCode::InactiveSessionId),
        (0x09, ErrorStatusCode::InvalidRole),
        (0x0A, ErrorStatusCode::UnauthorizedRoleOrPrivilegeLevelRequested),
        (0x0B, ErrorStatusCode::InsufficientResourcesToCreateSessionAtRequestedRole),
        (0x0C, ErrorStatusCode::InvalidNameLength),
        (0x0D, ErrorStatusCode::UnauthorizedName),
        (0x12, ErrorStatusCode::CommonRakp(RakpErrorStatusCode::IllegalOrUnrecognizedParameter)),
    ];
    for (status, code) in known {
        assert_eq!(ErrorStatusCode::try_from(status), Ok(code));
        assert_eq!(
            parse_error(&with_status(status)),
            RakpMessageTwoParseError::ErrorStatusCode(code)
        );
    }
}

#[test]
fn message_two_unknown_status_is_reported_with_its_byte() {
    for status in 1..=255u8 {
        if ErrorStatusCode::try_from(status).is_err() {
            assert_eq!(
                parse_error(&with_status(status)),
                RakpMessageTwoParseError::UnknownErrorStatusCode(status)
            );
        }
    }
    assert_eq!(ErrorStatusCode::try_from(0x00), Err(()));
    assert_eq!(ErrorStatusCode::try_from(0x03), Err(()));
    assert_eq!(ErrorStatusCode::try_from(0x0E), Err(()));
    assert_eq!(ErrorStatusCode::try_from(0xFF), Err(()));
}

#[test]
fn message_two_with_session_id_zero_is_invalid() {
    let mut data = MESSAGE_TWO.to_vec();
    for byte in &mut data[4..8] {
        *byte = 0;
    }
    assert_eq!(parse_error(&data), RakpMessageTwoParseError::InvalidRemoteConsoleSessionId);
}

#[test]
fn session_ids_are_not_zero() {
    assert!(NonZeroSessionId::new(0).is_none());
    assert_eq!(NonZeroSessionId::new(1).unwrap().get(), 1);
    assert_eq!(NonZeroSessionId::new(u32::MAX).unwrap().get(), u32::MAX);
}

#[test]
fn user_names_have_at_most_255_bytes() {
    assert_eq!(Username::new_empty().len(), 0);
    assert_eq!(Username::new(b"admin").unwrap().as_bytes(), b"admin");
    assert_eq!(Username::new(&[b'a'; 255]).unwrap().len(), 255);
    assert!(Username::new(&[b'a'; 256]).is_none());
    let name = Username::new(b"root").unwrap();
    assert_eq!(name.clone(), name);
}

#[test]
fn message_one_on_the_wire() {
    let mut buffer = vec![0xEE];
    message_one().write(&mut buffer);
    let mut expected = vec![0xEE, 0x2a, 0x00, 0x00, 0x00, 0x0D, 0x0C, 0x0B, 0x0A];
    expected.extend(0u8..16);
    expected.extend([0x04, 0x00, 0x05]);
    expected.extend(b"admin");
    assert_eq!(buffer, expected);
}

#[test]
fn keys_from_session_integrity_key() {
    let keys = Keys::from_sik(SIK);
    assert_eq!(keys.sik(), &SIK);
    assert_eq!(keys.k1(), &K1);
    assert_eq!(keys.k2(), &K2);
    assert_eq!(keys.k3(), &K3);
}

#[test]
fn handshake_codes_known_answers() {
    let m1 = message_one();
    let m2 = RakpMessageTwo::from_data(&MESSAGE_TWO).unwrap();
    assert_eq!(&key_exchange_auth_code(b"test", &m1, &m2)[..], &MESSAGE_TWO[40..]);
    assert_eq!(session_integrity_key(b"test", &m1, &m2), SIK);
    let kg: Vec<u8> = (0x40..0x54u8).collect();
    assert_eq!(session_integrity_key(&kg, &m1, &m2), SIK_WITH_BMC_KEY);
    assert_eq!(message_three_auth_code(b"test", &m1, &m2), MESSAGE_THREE_CODE);
}

#[test]
fn handshake_codes_with_an_empty_user_name() {
    // With no user name the hashed bytes end in the privilege level and a
    // zero length.
    let mut m1 = message_one();
    m1.username = Username::new_empty();
    let m2 = RakpMessageTwo::from_data(&MESSAGE_TWO).unwrap();
    let mut input = MESSAGE_TWO[8..24].to_vec();
    input.extend([0xa4, 0xa3, 0xa2, 0xa1, 0x04, 0x00]);
    let expected = ipmi_rs::rmcp::crypto::RunningHmac::new(b"test").feed(&input).finalize();
    assert_eq!(message_three_auth_code(b"test", &m1, &m2), expected);
}

#[test]
fn byte_strings_compare_in_full_length() {
    assert!(bytes_equal(b"", b""));
    assert!(bytes_equal(b"abc", b"abc"));
    assert!(!bytes_equal(b"abc", b"abd"));
    assert!(!bytes_equal(b"abc", b"ab"));
    assert!(!bytes_equal(b"ab", b"abc"));
    assert!(!bytes_equal(b"", b"a"));
}

#[test]
fn handshake_known_answers() {
    let m1 = message_one();
    let m2 = RakpMessageTwo::from_data(&MESSAGE_TWO).unwrap();
    let mut state =
        CryptoState::new(None, b"test", &negotiated(Some(AuthenticationAlgorithm::RakpHmacSha1)));
    assert!(!state.authenticated());
    assert!(!state.has_keys());
    let code = state.validate(&m1, &m2).unwrap();
    assert!(state.has_keys());
    assert_eq!(code, MESSAGE_THREE_CODE.to_vec());
    assert_eq!(state.sik(), &SIK);
    assert_eq!(state.k1(), &K1);
    assert!(state.authenticated());
    assert!(!state.encrypted());
}

#[test]
fn handshake_is_reproducible() {
    let m1 = message_one();
    let m2 = RakpMessageTwo::from_data(&MESSAGE_TWO).unwrap();
    let response = negotiated(Some(AuthenticationAlgorithm::RakpHmacSha1));
    let mut first = CryptoState::new(None, b"test", &response);
    let mut second = CryptoState::new(None, b"test", &response);
    assert_eq!(first.validate(&m1, &m2), second.validate(&m1, &m2));
    assert_eq!(first.sik(), second.sik());
    assert_eq!(first.k1(), second.k1());
    // Validating again on an established session gives the same again.
    assert_eq!(first.validate(&m1, &m2), Ok(MESSAGE_THREE_CODE.to_vec()));
    assert_eq!(first.sik(), &SIK);
}

#[test]
fn handshake_derives_the_integrity_key_from_the_bmc_key() {
    let m1 = message_one();
    let m2 = RakpMessageTwo::from_data(&MESSAGE_TWO).unwrap();
    let mut kg = [0u8; 20];
    for (i, byte) in kg.iter_mut().enumerate() {
        *byte = 0x40 + i as u8;
    }
    let mut state = CryptoState::new(
        Some(kg),
        b"test",
        &negotiated(Some(AuthenticationAlgorithm::RakpHmacSha1)),
    );
    // The authentication codes are keyed with the password, whatever the BMC key.
    assert_eq!(state.validate(&m1, &m2), Ok(MESSAGE_THREE_CODE.to_vec()));
    assert_eq!(state.sik(), &SIK_WITH_BMC_KEY);
}

#[test]
fn handshake_with_a_wrong_code_fails_and_derives_nothing() {
    let m1 = message_one();
    let response = negotiated(Some(AuthenticationAlgorithm::RakpHmacSha1));

    let mut flipped = MESSAGE_TWO.to_vec();
    flipped[59] ^= 0x01;
    let m2 = RakpMessageTwo::from_data(&flipped).unwrap();
    let mut state = CryptoState::new(None, b"test", &response);
    assert_eq!(state.validate(&m1, &m2), Err(ValidateError::AuthCodeMismatch));
    assert!(!state.authenticated());

    // A code cut to its first twelve bytes is not the code.
    let m2 = RakpMessageTwo::from_data(&MESSAGE_TWO[..52]).unwrap();
    assert_eq!(state.validate(&m1, &m2), Err(ValidateError::AuthCodeMismatch));
    assert!(!state.authenticated());

    // Nor is the code with a byte after it.
    let mut longer = MESSAGE_TWO.to_vec();
    longer.push(0);
    let m2 = RakpMessageTwo::from_data(&longer).unwrap();
    assert_eq!(state.validate(&m1, &m2), Err(ValidateError::AuthCodeMismatch));

    // Another password expects another code.
    let m2 = RakpMessageTwo::from_data(&MESSAGE_TWO).unwrap();
    let mut other = CryptoState::new(None, b"tesu", &response);
    assert_eq!(other.validate(&m1, &m2), Err(ValidateError::AuthCodeMismatch));
}

#[test]
fn handshake_covers_every_field_of_both_messages() {
    let m2 = RakpMessageTwo::from_data(&MESSAGE_TWO).unwrap();
    let response = negotiated(Some(AuthenticationAlgorithm::RakpHmacSha1));
    let mut state = CryptoState::new(None, b"test", &response);

    let mut m1 = message_one();
    m1.managed_system_session_id = NonZeroSessionId::new(0x0A0B0C0E).unwrap();
    assert_eq!(state.validate(&m1, &m2), Err(ValidateError::AuthCodeMismatch));

    let mut m1 = message_one();
    m1.remote_console_random_number[15] ^= 0x80;
    assert_eq!(state.validate(&m1, &m2), Err(ValidateError::AuthCodeMismatch));

    let mut m1 = message_one();
    m1.requested_maximum_privilege_level = 0x03;
    assert_eq!(state.validate(&m1, &m2), Err(ValidateError::AuthCodeMismatch));

    let mut m1 = message_one();
    m1.username = Username::new(b"admim").unwrap();
    assert_eq!(state.validate(&m1, &m2), Err(ValidateError::AuthCodeMismatch));

    for at in 4..40 {
        let mut changed = MESSAGE_TWO.to_vec();
        changed[at] ^= 0x10;
        let m2 = RakpMessageTwo::from_data(&changed).unwrap();
        assert_eq!(state.validate(&message_one(), &m2), Err(ValidateError::AuthCodeMismatch));
    }
    assert!(!state.authenticated());
}

#[test]
fn handshake_with_another_algorithm_is_unsupported() {
    let m1 = message_one();
    let m2 = RakpMessageTwo::from_data(&MESSAGE_TWO).unwrap();
    for algorithm in [
        None,
        Some(AuthenticationAlgorithm::RakpHmacMd5),
        Some(AuthenticationAlgorithm::RakpHmacSha256),
    ] {
        let mut state = CryptoState::new(None, b"test", &negotiated(algorithm));
        assert_eq!(
            state.validate(&m1, &m2),
            Err(ValidateError::UnsupportedAlgorithm(algorithm))
        );
        assert!(!state.authenticated());
    }
}
