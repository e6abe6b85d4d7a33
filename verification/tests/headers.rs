use rust_ipmi::err::{IpmiHeaderError, IpmiV1HeaderError, IpmiV2HeaderError, RMCPHeaderError};
use rust_ipmi::parser::ipmi_header::{AuthType, IpmiHeader, Version};
use rust_ipmi::parser::ipmi_v1_header::IpmiV1Header;
use rust_ipmi::parser::ipmi_v2_header::{IpmiV2Header, PayloadType};
use rust_ipmi::parser::rmcp_header::{MessageClass, RmcpHeader};

#[test]
fn rmcp_default_header_bytes() {
    let h = RmcpHeader::default();
    assert_eq!(h.version, 0x06);
    assert_eq!(h.reserved, 0x00);
    assert_eq!(h.sequence_number, 0xFF);
    assert!(!h.rmcp_ack);
    assert_eq!(h.message_class, MessageClass::IPMI);
    assert_eq!(h.to_bytes(), vec![0x06, 0x00, 0xFF, 0x07]);
}

#[test]
fn rmcp_new_clears_reserved_and_ack() {
    let h = RmcpHeader::new(0x06, 0x12, MessageClass::ASF);
    assert_eq!(
        h,
        RmcpHeader {
            version: 0x06,
            reserved: 0,
            sequence_number: 0x12,
            rmcp_ack: false,
            message_class: MessageClass::ASF
        }
    );
    assert_eq!(h.to_bytes(), vec![0x06, 0x00, 0x12, 0x06]);
}

#[test]
fn rmcp_ack_is_the_top_bit() {
    let h = RmcpHeader {
        version: 6,
        reserved: 0,
        sequence_number: 1,
        rmcp_ack: true,
        message_class: MessageClass::OEM,
    };
    assert_eq!(h.to_bytes(), vec![6, 0, 1, 0x88]);
    assert_eq!(RmcpHeader::from_slice(&[6, 0, 1, 0x88]), Ok(h));
}

#[test]
fn rmcp_round_trip_over_every_field() {
    for class in [MessageClass::ASF, MessageClass::IPMI, MessageClass::OEM] {
        for ack in [false, true] {
            for byte in [0u8, 1, 6, 0x7F, 0x80, 0xFF] {
                let h = RmcpHeader {
                    version: byte,
                    reserved: byte.wrapping_add(3),
                    sequence_number: byte.wrapping_mul(7),
                    rmcp_ack: ack,
                    message_class: class,
                };
                let bytes = h.to_bytes();
                assert_eq!(bytes.len(), 4);
                assert_eq!(RmcpHeader::from_slice(&bytes), Ok(h));
            }
        }
    }
}

#[test]
fn rmcp_parse_ignores_reserved_bits_and_trailing_bytes() {
    let h = RmcpHeader::from_slice(&[0x06, 0x00, 0xFF, 0x77, 0xAA, 0xBB]).unwrap();
    assert_eq!(h.message_class, MessageClass::IPMI);
    assert!(!h.rmcp_ack);
}

#[test]
fn rmcp_parse_errors() {
    assert_eq!(RmcpHeader::from_slice(&[]), Err(RMCPHeaderError::WrongLength));
    assert_eq!(RmcpHeader::from_slice(&[6, 0, 0xFF]), Err(RMCPHeaderError::WrongLength));
    assert_eq!(
        RmcpHeader::from_slice(&[6, 0, 0xFF, 0x05]),
        Err(RMCPHeaderError::UnsupportedMessageClass(5))
    );
    assert_eq!(
        RmcpHeader::from_slice(&[6, 0, 0xFF, 0x89]),
        Err(RMCPHeaderError::UnsupportedMessageClass(9))
    );
}

#[test]
fn message_class_codes() {
    assert_eq!(MessageClass::ASF.to_u8(), 6);
    assert_eq!(MessageClass::IPMI.to_u8(), 7);
    assert_eq!(MessageClass::OEM.to_u8(), 8);
    assert_eq!(MessageClass::from_u8(6), Ok(MessageClass::ASF));
    assert_eq!(MessageClass::from_u8(7), Ok(MessageClass::IPMI));
    assert_eq!(MessageClass::from_u8(8), Ok(MessageClass::OEM));
    assert_eq!(MessageClass::from_u8(0), Err(RMCPHeaderError::UnsupportedMessageClass(0)));
}

#[test]
fn auth_type_codes() {
    let all = [
        (AuthType::AuthNone, 0u8),
        (AuthType::MD2, 1),
        (AuthType::MD5, 2),
        (AuthType::PasswordOrKey, 4),
        (AuthType::OEM, 5),
        (AuthType::RmcpPlus, 6),
    ];
    for (t, code) in all {
        assert_eq!(t.to_u8(), code);
        assert_eq!(AuthType::from_u8(code), Ok(t));
    }
    assert_eq!(AuthType::from_u8(3), Err(IpmiHeaderError::UnsupportedAuthType(3)));
    assert_eq!(AuthType::from_u8(7), Err(IpmiHeaderError::UnsupportedAuthType(7)));
    assert_eq!(AuthType::from_u8(0xFF), Err(IpmiHeaderError::UnsupportedAuthType(0xFF)));
}

#[test]
fn payload_type_codes() {
    let all = [
        (PayloadType::IPMI, 0x00u8),
        (PayloadType::SOL, 0x01),
        (PayloadType::OEM, 0x02),
        (PayloadType::RcmpOpenSessionRequest, 0x10),
        (PayloadType::RcmpOpenSessionResponse, 0x11),
        (PayloadType::RAKP1, 0x12),
        (PayloadType::RAKP2, 0x13),
        (PayloadType::RAKP3, 0x14),
        (PayloadType::RAKP4, 0x15),
    ];
    for (t, code) in all {
        assert_eq!(t.to_u8(), code);
        assert_eq!(PayloadType::from_u8(code), Ok(t));
    }
    assert_eq!(PayloadType::from_u8(0x03), Err(IpmiV2HeaderError::UnsupportedPayloadType(3)));
    assert_eq!(PayloadType::from_u8(0x16), Err(IpmiV2HeaderError::UnsupportedPayloadType(0x16)));
}

#[test]
fn version_follows_the_auth_type() {
    assert_eq!(IpmiHeader::version_from_auth_type(AuthType::RmcpPlus), Version::V2_0);
    assert_eq!(IpmiHeader::version_from_auth_type(AuthType::AuthNone), Version::V1_5);
    assert_eq!(IpmiHeader::version_from_auth_type(AuthType::MD5), Version::V1_5);
}

#[test]
fn header_len_of_the_four_formats() {
    assert_eq!(IpmiHeader::header_len(0x00, 0x00), Ok(10));
    assert_eq!(IpmiHeader::header_len(0x02, 0x00), Ok(26));
    assert_eq!(IpmiHeader::header_len(0x04, 0xFF), Ok(26));
    assert_eq!(IpmiHeader::header_len(0x06, 0x00), Ok(12));
    assert_eq!(IpmiHeader::header_len(0x06, 0xC0), Ok(12));
    assert_eq!(IpmiHeader::header_len(0x06, 0x15), Ok(12));
    assert_eq!(IpmiHeader::header_len(0x06, 0x02), Ok(18));
    assert_eq!(IpmiHeader::header_len(0x06, 0x82), Ok(18));
    assert_eq!(IpmiHeader::MAX_LEN, 26);
}

#[test]
fn header_len_errors() {
    assert_eq!(IpmiHeader::header_len(0x03, 0x00), Err(IpmiHeaderError::UnsupportedAuthType(3)));
    assert_eq!(
        IpmiHeader::header_len(0x06, 0x03),
        Err(IpmiHeaderError::V2Error(IpmiV2HeaderError::UnsupportedPayloadType(3)))
    );
    assert_eq!(
        IpmiHeader::header_len(0x06, 0x3F),
        Err(IpmiHeaderError::V2Error(IpmiV2HeaderError::UnsupportedPayloadType(0x3F)))
    );
}

#[test]
fn v2_header_serialization_without_protection() {
    let h = IpmiV2Header::new(AuthType::RmcpPlus, false, false, PayloadType::IPMI, 0, 0, 32);
    assert_eq!(
        h.to_bytes(),
        vec![0x06, 0x00, 0x00, 0x00, 0x00, 0x00, 0x00, 0x00, 0x00, 0x00, 0x20, 0x00]
    );
}

#[test]
fn v2_header_fields_are_little_endian() {
    let h = IpmiV2Header::new(
        AuthType::RmcpPlus,
        true,
        true,
        PayloadType::RAKP3,
        0xA0A2A3A4,
        0x0000000A,
        0x0102,
    );
    assert_eq!(
        h.to_bytes(),
        vec![0x06, 0xD4, 0xA4, 0xA3, 0xA2, 0xA0, 0x0A, 0x00, 0x00, 0x00, 0x02, 0x01]
    );
    assert_eq!(IpmiV2Header::from_slice(&h.to_bytes()), Ok(h));
}

#[test]
fn v2_header_with_oem_fields() {
    let h = IpmiV2Header {
        auth_type: AuthType::RmcpPlus,
        payload_enc: false,
        payload_auth: true,
        payload_type: PayloadType::OEM,
        oem_iana: Some(0x11223344),
        oem_payload_id: Some(0x5566),
        rmcp_plus_session_id: 1,
        session_seq_number: 2,
        payload_length: 3,
    };
    let bytes = h.to_bytes();
    assert_eq!(
        bytes,
        vec![0x06, 0x42, 0x44, 0x33, 0x22, 0x11, 0x66, 0x55, 1, 0, 0, 0, 2, 0, 0, 0, 3, 0]
    );
    assert_eq!(IpmiV2Header::from_slice(&bytes), Ok(h));
    assert_eq!(IpmiHeader::from_slice(&bytes), Ok(IpmiHeader::V2_0(h)));
}

#[test]
fn v2_header_round_trip_over_types_and_flags() {
    let types = [
        PayloadType::IPMI,
        PayloadType::SOL,
        PayloadType::RcmpOpenSessionRequest,
        PayloadType::RcmpOpenSessionResponse,
        PayloadType::RAKP1,
        PayloadType::RAKP2,
        PayloadType::RAKP3,
        PayloadType::RAKP4,
    ];
    for t in types {
        for (enc, auth) in [(false, false), (false, true), (true, false), (true, true)] {
            let h = IpmiV2Header::new(AuthType::RmcpPlus, enc, auth, t, 0xDEADBEEF, 0xFFFFFFFF, 0xFFFF);
            let bytes = h.to_bytes();
            assert_eq!(bytes.len(), 12);
            assert_eq!(IpmiHeader::from_slice(&bytes), Ok(IpmiHeader::V2_0(h)));
            assert_eq!(IpmiHeader::header_len(bytes[0], bytes[1]), Ok(12));
        }
    }
}

#[test]
fn v2_header_parse_errors() {
    let wrong = Err(IpmiHeaderError::V2Error(IpmiV2HeaderError::WrongLength));
    assert_eq!(IpmiV2Header::from_slice(&[0x06; 11]), wrong);
    assert_eq!(IpmiV2Header::from_slice(&[0x06; 13]), wrong);
    assert_eq!(IpmiV2Header::from_slice(&[]), wrong);
    let mut oem_short = vec![0u8; 12];
    oem_short[0] = 0x06;
    oem_short[1] = 0x02;
    assert_eq!(IpmiV2Header::from_slice(&oem_short), wrong);
    let mut plain_long = vec![0u8; 18];
    plain_long[0] = 0x06;
    assert_eq!(IpmiV2Header::from_slice(&plain_long), wrong);
    let mut unknown = vec![0u8; 12];
    unknown[0] = 0x06;
    unknown[1] = 0x0F;
    assert_eq!(
        IpmiV2Header::from_slice(&unknown),
        Err(IpmiHeaderError::V2Error(IpmiV2HeaderError::UnsupportedPayloadType(0x0F)))
    );
    let mut bad_auth = vec![0u8; 12];
    bad_auth[0] = 0x09;
    assert_eq!(IpmiV2Header::from_slice(&bad_auth), Err(IpmiHeaderError::UnsupportedAuthType(9)));
}

#[test]
fn v1_header_without_auth_code() {
    let h = IpmiV1Header {
        auth_type: AuthType::AuthNone,
        session_seq_number: 0x01020304,
        session_id: 0x0A0B0C0D,
        auth_code: None,
        payload_length: 9,
    };
    let bytes = h.to_bytes();
    assert_eq!(bytes, vec![0x00, 1, 2, 3, 4, 0x0A, 0x0B, 0x0C, 0x0D, 9]);
    assert_eq!(IpmiV1Header::from_slice(&bytes), Ok(h));
    assert_eq!(IpmiHeader::from_slice(&bytes), Ok(IpmiHeader::V1_5(h)));
    assert_eq!(IpmiHeader::V1_5(h).to_bytes(), bytes);
}

#[test]
fn v1_header_with_auth_code() {
    let h = IpmiV1Header {
        auth_type: AuthType::MD5,
        session_seq_number: 7,
        session_id: 0xFFFFFFFF,
        auth_code: Some(0x000102030405060708090A0B0C0D0E0F),
        payload_length: 0xFF,
    };
    let bytes = h.to_bytes();
    let mut expected = vec![0x02, 0, 0, 0, 7, 0xFF, 0xFF, 0xFF, 0xFF];
    expected.extend(0u8..16);
    expected.push(0xFF);
    assert_eq!(bytes, expected);
    assert_eq!(bytes.len(), 26);
    assert_eq!(IpmiHeader::from_slice(&bytes), Ok(IpmiHeader::V1_5(h)));
    assert_eq!(IpmiHeader::header_len(bytes[0], bytes[1]), Ok(26));
}

#[test]
fn v1_header_new_and_default() {
    assert_eq!(
        IpmiV1Header::new(AuthType::AuthNone, 3, 4),
        IpmiV1Header {
            auth_type: AuthType::AuthNone,
            session_seq_number: 3,
            session_id: 4,
            auth_code: None,
            payload_length: 0
        }
    );
    assert_eq!(IpmiV1Header::new(AuthType::MD2, 3, 4).auth_code, Some(0));
    assert_eq!(IpmiV1Header::new(AuthType::MD2, 3, 4).to_bytes().len(), 26);
    assert_eq!(IpmiV1Header::default(), IpmiV1Header::new(AuthType::AuthNone, 0, 0));
    assert_eq!(IpmiV1Header::default().to_bytes(), vec![0u8; 10]);
    assert_eq!(IpmiV1Header::MIN_LEN, 10);
    assert_eq!(IpmiV1Header::MAX_LEN, 26);
}

#[test]
fn v1_header_parse_errors() {
    let wrong = Err(IpmiHeaderError::V1_5Error(IpmiV1HeaderError::WrongLength));
    assert_eq!(IpmiV1Header::from_slice(&[0u8; 9]), wrong);
    assert_eq!(IpmiV1Header::from_slice(&[0u8; 11]), wrong);
    assert_eq!(IpmiV1Header::from_slice(&[0u8; 26]), wrong);
    let mut authed_short = vec![0u8; 10];
    authed_short[0] = 0x01;
    assert_eq!(IpmiV1Header::from_slice(&authed_short), wrong);
    let mut bad = vec![0u8; 10];
    bad[0] = 0x03;
    assert_eq!(IpmiV1Header::from_slice(&bad), Err(IpmiHeaderError::UnsupportedAuthType(3)));
}

#[test]
fn ipmi_header_parse_errors() {
    assert_eq!(IpmiHeader::from_slice(&[]), Err(IpmiHeaderError::WrongLength));
    assert_eq!(IpmiHeader::from_slice(&[0x06; 9]), Err(IpmiHeaderError::WrongLength));
    assert_eq!(
        IpmiHeader::from_slice(&[0x07; 12]),
        Err(IpmiHeaderError::UnsupportedAuthType(7))
    );
    assert_eq!(
        IpmiHeader::from_slice(&[0x06; 10]),
        Err(IpmiHeaderError::V2Error(IpmiV2HeaderError::WrongLength))
    );
}

#[test]
fn ipmi_header_getters() {
    let v1 = IpmiHeader::V1_5(IpmiV1Header {
        auth_type: AuthType::AuthNone,
        session_seq_number: 0,
        session_id: 0,
        auth_code: None,
        payload_length: 21,
    });
    assert_eq!(v1.payload_type(), PayloadType::IPMI);
    assert_eq!(v1.payload_len(), 21);
    let v2 = IpmiHeader::V2_0(IpmiV2Header::new(
        AuthType::RmcpPlus,
        false,
        false,
        PayloadType::RAKP2,
        0,
        0,
        0x1234,
    ));
    assert_eq!(v2.payload_type(), PayloadType::RAKP2);
    assert_eq!(v2.payload_len(), 0x1234);
}

#[test]
fn rmcp_last_byte_is_read_bit_by_bit() {
    for b in 0u8..=255 {
        let parsed = RmcpHeader::from_slice(&[6, 0, 0xFF, b]);
        match b & 0x0F {
            6 | 7 | 8 => {
                let h = parsed.unwrap();
                assert_eq!(h.rmcp_ack, b & 0x80 != 0);
                assert_eq!(h.message_class.to_u8(), b & 0x0F);
                assert_eq!(h.to_bytes()[3], b & 0x8F);
            }
            class => assert_eq!(parsed, Err(RMCPHeaderError::UnsupportedMessageClass(class))),
        }
    }
}

#[test]
fn v2_flags_byte_is_read_bit_by_bit() {
    for b in 0u8..=255 {
        let mut bytes = vec![0u8; 12];
        bytes[0] = 0x06;
        bytes[1] = b;
        let code = b & 0x3F;
        match IpmiV2Header::from_slice(&bytes) {
            Ok(h) => {
                assert_eq!(h.payload_enc, b & 0x80 != 0);
                assert_eq!(h.payload_auth, b & 0x40 != 0);
                assert_eq!(h.payload_type.to_u8(), code);
                assert_eq!(h.to_bytes()[1], b);
            }
            Err(IpmiHeaderError::V2Error(IpmiV2HeaderError::UnsupportedPayloadType(c))) => {
                assert_eq!(c, code);
                assert!(PayloadType::from_u8(code).is_err());
            }
            Err(IpmiHeaderError::V2Error(IpmiV2HeaderError::WrongLength)) => {
                assert_eq!(code, 0x02);
            }
            Err(other) => panic!("unexpected error {:?}", other),
        }
    }
}
