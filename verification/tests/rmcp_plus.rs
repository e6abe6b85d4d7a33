use rust_ipmi::commands::channel::Privilege;
use rust_ipmi::err::{
    AuthAlgorithmError, ConfidentialityAlgorithmError, IPMIClientError, IntegrityAlgorithmError,
    IpmiPayloadError, ParseError, PrivilegeError,
};
use rust_ipmi::parser::ipmi_header::IpmiHeader;
use rust_ipmi::parser::ipmi_v2_header::PayloadType;
use rust_ipmi::parser::packet::Payload;
use rust_ipmi::parser::rakp::{RAKPMessage1, RAKPMessage2, RAKPMessage3, RAKPMessage4, RAKP};
use rust_ipmi::parser::rmcp_open_session::{
    AuthAlgorithm, ConfidentialityAlgorithm, IntegrityAlgorithm, RMCPPlusOpenSession,
    RMCPPlusOpenSessionRequest, RMCPPlusOpenSessionResponse, StatusCode,
};

#[test]
fn status_code_round_trip_over_every_byte() {
    for b in 0u8..=255 {
        assert_eq!(StatusCode::from_u8(b).to_u8(), b);
    }
    assert_eq!(StatusCode::from_u8(0), StatusCode::NoErrors);
    assert_eq!(StatusCode::from_u8(0x02), StatusCode::InvalidSessionId);
    assert_eq!(StatusCode::from_u8(0x0D), StatusCode::UnauthorizedName);
    assert_eq!(StatusCode::from_u8(0x12), StatusCode::IllegalParameter);
    assert_eq!(StatusCode::from_u8(0x13), StatusCode::Reserved(0x13));
}

#[test]
fn auth_algorithm_codes() {
    assert_eq!(AuthAlgorithm::from_u8(0), Ok(AuthAlgorithm::RakpNone));
    assert_eq!(AuthAlgorithm::from_u8(1), Ok(AuthAlgorithm::RakpHmacSha1));
    assert_eq!(AuthAlgorithm::from_u8(2), Ok(AuthAlgorithm::RakpHmacMd5));
    assert_eq!(AuthAlgorithm::from_u8(3), Ok(AuthAlgorithm::RakpHmacSha256));
    assert_eq!(AuthAlgorithm::from_u8(0xC0), Ok(AuthAlgorithm::OEM(0xC0)));
    assert_eq!(AuthAlgorithm::from_u8(0xFF), Ok(AuthAlgorithm::OEM(0xFF)));
    assert_eq!(
        AuthAlgorithm::from_u8(4),
        Err(IpmiPayloadError::AuthAlgorithm(AuthAlgorithmError::UnknownAuthAlgorithm(4)))
    );
    assert_eq!(AuthAlgorithm::RakpHmacSha256.to_u8(), 3);
    assert_eq!(AuthAlgorithm::OEM(0xC5).to_u8(), 0xC5);
}

#[test]
fn integrity_algorithm_codes() {
    assert_eq!(IntegrityAlgorithm::from_u8(0), Ok(IntegrityAlgorithm::IntegrityNone));
    assert_eq!(IntegrityAlgorithm::from_u8(1), Ok(IntegrityAlgorithm::HmacSha196));
    assert_eq!(IntegrityAlgorithm::from_u8(2), Ok(IntegrityAlgorithm::HmacMd5128));
    assert_eq!(IntegrityAlgorithm::from_u8(3), Ok(IntegrityAlgorithm::Md5128));
    assert_eq!(IntegrityAlgorithm::from_u8(4), Ok(IntegrityAlgorithm::HmacSha256128));
    assert_eq!(IntegrityAlgorithm::from_u8(0xC0), Ok(IntegrityAlgorithm::OEM(0xC0)));
    assert_eq!(
        IntegrityAlgorithm::from_u8(5),
        Err(IpmiPayloadError::IntegrityAlgorithm(
            IntegrityAlgorithmError::UnknownIntegrityAlgorithm(5)
        ))
    );
    assert_eq!(IntegrityAlgorithm::HmacSha256128.to_u8(), 4);
}

#[test]
fn confidentiality_algorithm_codes() {
    assert_eq!(
        ConfidentialityAlgorithm::from_u8(0),
        Ok(ConfidentialityAlgorithm::ConfidentialityNone)
    );
    assert_eq!(ConfidentialityAlgorithm::from_u8(1), Ok(ConfidentialityAlgorithm::AesCbc128));
    assert_eq!(ConfidentialityAlgorithm::from_u8(2), Ok(ConfidentialityAlgorithm::XRc4128));
    assert_eq!(ConfidentialityAlgorithm::from_u8(3), Ok(ConfidentialityAlgorithm::XRc440));
    assert_eq!(ConfidentialityAlgorithm::from_u8(0x30), Ok(ConfidentialityAlgorithm::OEM(0x30)));
    assert_eq!(
        ConfidentialityAlgorithm::from_u8(0x2F),
        Err(IpmiPayloadError::ConfidentialityAlgorithm(
            ConfidentialityAlgorithmError::UnknownConfidentialityAlgorithm(0x2F)
        ))
    );
    assert_eq!(ConfidentialityAlgorithm::AesCbc128.to_u8(), 1);
}

#[test]
fn privilege_codes() {
    let all = [
        (Privilege::Reserved, 0u8),
        (Privilege::Callback, 1),
        (Privilege::User, 2),
        (Privilege::Operator, 3),
        (Privilege::Administrator, 4),
        (Privilege::Oem, 5),
    ];
    for (p, code) in all {
        assert_eq!(p.to_u8(), code);
        assert_eq!(Privilege::from_u8(code), Ok(p));
    }
    assert_eq!(
        Privilege::from_u8(6),
        Err(IpmiPayloadError::Parse(ParseError::Privilege(PrivilegeError::UnknownPrivilege(6))))
    );
}

fn request() -> RMCPPlusOpenSessionRequest {
    RMCPPlusOpenSessionRequest::new(
        0,
        Privilege::Administrator,
        0xA0A2A3A4,
        AuthAlgorithm::RakpHmacSha256,
        IntegrityAlgorithm::HmacSha256128,
        ConfidentialityAlgorithm::AesCbc128,
    )
}

#[test]
fn open_session_request_bytes() {
    let bytes = request().to_bytes();
    assert_eq!(
        bytes,
        vec![
            0x00, 0x04, 0x00, 0x00, 0xA4, 0xA3, 0xA2, 0xA0, //
            0x00, 0x00, 0x00, 0x08, 0x03, 0x00, 0x00, 0x00, //
            0x01, 0x00, 0x00, 0x08, 0x04, 0x00, 0x00, 0x00, //
            0x02, 0x00, 0x00, 0x08, 0x01, 0x00, 0x00, 0x00,
        ]
    );
    assert_eq!(RMCPPlusOpenSession::Request(request()).to_bytes(), bytes);
}

#[test]
fn open_session_request_packet() {
    let packet = request().create_packet();
    assert_eq!(packet.ipmi_header.payload_type(), PayloadType::RcmpOpenSessionRequest);
    assert_eq!(packet.ipmi_header.payload_len(), 32);
    assert_eq!(packet.payload, Some(Payload::RMCP(RMCPPlusOpenSession::Request(request()))));
    let bytes = packet.to_bytes();
    assert_eq!(bytes.len(), 4 + 12 + 32);
    assert_eq!(&bytes[..6], &[0x06, 0x00, 0xFF, 0x07, 0x06, 0x10]);
    assert_eq!(&bytes[14..16], &[32, 0]);
}

fn response() -> RMCPPlusOpenSessionResponse {
    RMCPPlusOpenSessionResponse {
        message_tag: 0x55,
        rmcp_plus_status_code: StatusCode::NoErrors,
        max_privilege: Privilege::Administrator,
        remote_console_session_id: 0xA0A2A3A4,
        managed_system_session_id: 0x01020304,
        authentication_algorithm: AuthAlgorithm::RakpHmacSha256,
        integrity_algorithm: IntegrityAlgorithm::HmacSha256128,
        confidentiality_algorithm: ConfidentialityAlgorithm::AesCbc128,
    }
}

#[test]
fn open_session_response_round_trip() {
    let bytes = response().to_bytes();
    assert_eq!(bytes.len(), 36);
    assert_eq!(&bytes[..12], &[0x55, 0, 4, 0, 0xA4, 0xA3, 0xA2, 0xA0, 4, 3, 2, 1]);
    assert_eq!(bytes[16], 3);
    assert_eq!(bytes[24], 4);
    assert_eq!(bytes[32], 1);
    assert_eq!(RMCPPlusOpenSessionResponse::from_slice(&bytes), Ok(response()));
    assert_eq!(RMCPPlusOpenSessionResponse::from_slice(&bytes[..33]), Ok(response()));
    assert_eq!(RMCPPlusOpenSession::Response(response()).to_bytes(), bytes);
}

#[test]
fn open_session_response_errors() {
    let bytes = response().to_bytes();
    assert_eq!(
        RMCPPlusOpenSessionResponse::from_slice(&bytes[..32]),
        Err(IpmiPayloadError::WrongLength)
    );
    assert_eq!(RMCPPlusOpenSessionResponse::from_slice(&[]), Err(IpmiPayloadError::WrongLength));
    let mut bad = bytes.clone();
    bad[2] = 9;
    assert_eq!(
        RMCPPlusOpenSessionResponse::from_slice(&bad),
        Err(IpmiPayloadError::Parse(ParseError::Privilege(PrivilegeError::UnknownPrivilege(9))))
    );
    let mut bad = bytes.clone();
    bad[16] = 0x10;
    assert_eq!(
        RMCPPlusOpenSessionResponse::from_slice(&bad),
        Err(IpmiPayloadError::AuthAlgorithm(AuthAlgorithmError::UnknownAuthAlgorithm(0x10)))
    );
    let mut bad = bytes.clone();
    bad[24] = 0x10;
    assert_eq!(
        RMCPPlusOpenSessionResponse::from_slice(&bad),
        Err(IpmiPayloadError::IntegrityAlgorithm(
            IntegrityAlgorithmError::UnknownIntegrityAlgorithm(0x10)
        ))
    );
    let mut bad = bytes.clone();
    bad[32] = 0x10;
    assert_eq!(
        RMCPPlusOpenSessionResponse::from_slice(&bad),
        Err(IpmiPayloadError::ConfidentialityAlgorithm(
            ConfidentialityAlgorithmError::UnknownConfidentialityAlgorithm(0x10)
        ))
    );
}

#[test]
fn open_session_response_keeps_an_error_status() {
    let mut r = response();
    r.rmcp_plus_status_code = StatusCode::NoCipherSuiteMatch;
    let back = RMCPPlusOpenSessionResponse::from_slice(&r.to_bytes()).unwrap();
    assert_eq!(back.rmcp_plus_status_code, StatusCode::NoCipherSuiteMatch);
}

fn rakp1(username: &str) -> Result<RAKPMessage1, IPMIClientError> {
    RAKPMessage1::new(
        0x07,
        0x01020304,
        0x0F0E0D0C0B0A09080706050403020100,
        true,
        Privilege::Administrator,
        username.to_string(),
    )
}

#[test]
fn rakp1_bytes() {
    let m = rakp1("root").unwrap();
    assert_eq!(m.username_length, 4);
    let bytes = m.to_bytes();
    let mut expected = vec![0x07, 0, 0, 0, 4, 3, 2, 1];
    expected.extend(0u8..16);
    expected.extend_from_slice(&[0x14, 0, 0, 4]);
    expected.extend_from_slice(b"root");
    assert_eq!(bytes, expected);
    assert_eq!(RAKP::Message1(m).to_bytes(), expected);
}

#[test]
fn rakp1_role_byte_without_inherit_role() {
    let m = RAKPMessage1::new(0, 0, 0, false, Privilege::Operator, String::new()).unwrap();
    assert_eq!(m.to_bytes()[24], 0x03);
}

#[test]
fn rakp1_usernames_of_length_0_1_and_255() {
    for len in [0usize, 1, 255] {
        let name = "u".repeat(len);
        let m = rakp1(&name).unwrap();
        assert_eq!(m.username_length as usize, len);
        assert_eq!(m.username, name);
        let bytes = m.to_bytes();
        assert_eq!(bytes.len(), 28 + len);
        assert_eq!(bytes[27] as usize, len);
        assert_eq!(&bytes[28..], name.as_bytes());
        let packet = m.create_packet();
        assert_eq!(packet.ipmi_header.payload_len(), 28 + len);
        let datagram = packet.to_bytes();
        assert_eq!(datagram.len(), 4 + 12 + 28 + len);
        assert_eq!(String::from_utf8(datagram[44..].to_vec()), Ok(name));
    }
}

#[test]
fn rakp1_username_over_255_is_refused() {
    assert_eq!(rakp1(&"u".repeat(256)), Err(IPMIClientError::UsernameOver255InLength));
    assert_eq!(rakp1(&"u".repeat(1000)), Err(IPMIClientError::UsernameOver255InLength));
}

#[test]
fn rakp1_username_length_counts_bytes() {
    let m = rakp1("é").unwrap();
    assert_eq!(m.username_length, 2);
    assert_eq!(&m.to_bytes()[28..], "é".as_bytes());
    assert_eq!(rakp1(&"é".repeat(128)), Err(IPMIClientError::UsernameOver255InLength));
    assert!(rakp1(&"é".repeat(127)).is_ok());
}

fn rakp2(code: Option<Vec<u8>>) -> RAKPMessage2 {
    RAKPMessage2 {
        message_tag: 1,
        rmcp_plus_status_code: StatusCode::NoErrors,
        remote_console_session_id: 0xA0A2A3A4,
        managed_system_random_number: 0x11112222333344445555666677778888,
        managed_system_guid: 0x99990000AAAABBBBCCCCDDDDEEEEFFFF,
        key_exchange_auth_code: code,
    }
}

#[test]
fn rakp2_round_trip() {
    for code in [None, Some(vec![0xAB; 32]), Some(vec![1])] {
        let m = rakp2(code.clone());
        let bytes = m.to_bytes();
        assert_eq!(bytes.len(), 40 + code.map_or(0, |c| c.len()));
        assert_eq!(&bytes[..8], &[1, 0, 0, 0, 0xA4, 0xA3, 0xA2, 0xA0]);
        assert_eq!(bytes[8], 0x88);
        assert_eq!(bytes[23], 0x11);
        assert_eq!(bytes[24], 0xFF);
        assert_eq!(bytes[39], 0x99);
        assert_eq!(RAKPMessage2::from_slice(&bytes), Ok(m.clone()));
        assert_eq!(RAKP::Message2(m).to_bytes(), bytes);
    }
}

#[test]
fn rakp2_short_forms() {
    assert_eq!(RAKPMessage2::from_slice(&[0u8; 7]), Err(IpmiPayloadError::WrongLength));
    let short = RAKPMessage2::from_slice(&[9, 0x0D, 0, 0, 1, 0, 0, 0]).unwrap();
    assert_eq!(short.message_tag, 9);
    assert_eq!(short.rmcp_plus_status_code, StatusCode::UnauthorizedName);
    assert_eq!(short.remote_console_session_id, 1);
    assert_eq!(short.managed_system_random_number, 0);
    assert_eq!(short.managed_system_guid, 0);
    assert_eq!(short.key_exchange_auth_code, None);
    let mut almost = vec![0xFFu8; 39];
    almost[1] = 0;
    let m = RAKPMessage2::from_slice(&almost).unwrap();
    assert_eq!(m.managed_system_random_number, 0);
    assert_eq!(m.key_exchange_auth_code, None);
}

#[test]
fn rakp3_bytes_and_packet() {
    let m = RAKPMessage3::new(0, StatusCode::NoErrors, 0x01020304, Some(vec![0xEE; 32]));
    let bytes = m.to_bytes();
    let mut expected = vec![0, 0, 0, 0, 4, 3, 2, 1];
    expected.extend_from_slice(&[0xEE; 32]);
    assert_eq!(bytes, expected);
    let packet = m.clone().create_packet();
    assert_eq!(packet.ipmi_header.payload_type(), PayloadType::RAKP3);
    assert_eq!(packet.ipmi_header.payload_len(), 40);
    assert!(matches!(packet.ipmi_header, IpmiHeader::V2_0(h) if !h.payload_enc && !h.payload_auth));
    assert_eq!(packet.payload, Some(Payload::RAKP(RAKP::Message3(m))));
    let bare = RAKPMessage3::new(3, StatusCode::InvalidRole, 5, None);
    assert_eq!(bare.to_bytes(), vec![3, 9, 0, 0, 5, 0, 0, 0]);
    assert_eq!(bare.create_packet().ipmi_header.payload_len(), 8);
}

#[test]
fn rakp4_round_trip() {
    for value in [None, Some(vec![0x77; 16])] {
        let m = RAKPMessage4 {
            message_tag: 2,
            rmcp_plus_status_code: StatusCode::NoErrors,
            management_console_session_id: 0xA0A2A3A4,
            integrity_check_value: value,
        };
        let bytes = m.to_bytes();
        assert_eq!(&bytes[..8], &[2, 0, 0, 0, 0xA4, 0xA3, 0xA2, 0xA0]);
        assert_eq!(RAKPMessage4::from_slice(&bytes), Ok(m.clone()));
        assert_eq!(RAKP::Message4(m).to_bytes(), bytes);
    }
    assert_eq!(RAKPMessage4::from_slice(&[0u8; 7]), Err(IpmiPayloadError::WrongLength));
}
