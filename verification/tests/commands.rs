use rust_ipmi::commands::channel::{
    AnonLogin, AnonStatus, AuthVersion, GetChannelAuthCapabilitiesRequest,
    GetChannelAuthCapabilitiesResponse, Privilege, KG,
};
use rust_ipmi::commands::cipher::{
    choose_cipher_suite, CipherSuite, GetChannelCipherSuitesRequest,
    GetChannelCipherSuitesResponse, RECORD_DELIMITER,
};
use rust_ipmi::commands::command::Command;
use rust_ipmi::err::IpmiPayloadError;
use rust_ipmi::parser::ipmi_header::{AuthType, IpmiHeader};
use rust_ipmi::parser::ipmi_payload::{IpmiPayload, NetFn};
use rust_ipmi::parser::ipmi_raw_request::IpmiPayloadRawRequest;
use rust_ipmi::parser::ipmi_v2_header::PayloadType;
use rust_ipmi::parser::packet::Payload;
use rust_ipmi::parser::rmcp_open_session::{
    AuthAlgorithm, ConfidentialityAlgorithm, IntegrityAlgorithm,
};

#[test]
fn flags_to_enums() {
    assert_eq!(KG::from_bool(false), KG::Defualt);
    assert_eq!(KG::from_bool(true), KG::NonZero);
    assert_eq!(AnonStatus::from_bool(true), AnonStatus::Enabled);
    assert_eq!(AnonStatus::from_bool(false), AnonStatus::Disabled);
    assert_eq!(AuthVersion::from_bool(true), AuthVersion::IpmiV2);
    assert_eq!(AuthVersion::from_bool(false), AuthVersion::IpmiV1_5);
    assert_eq!(
        AnonLogin::new(AnonStatus::Enabled, AnonStatus::Disabled, AnonStatus::Enabled),
        AnonLogin {
            non_null_username: AnonStatus::Enabled,
            null_username: AnonStatus::Disabled,
            anonymous_login: AnonStatus::Enabled
        }
    );
}

#[test]
fn capabilities_request_bytes() {
    let r = GetChannelAuthCapabilitiesRequest::new(true, 0xE, Privilege::Administrator);
    assert_eq!(r.to_bytes(), vec![0x8E, 0x04]);
    let r = GetChannelAuthCapabilitiesRequest::new(false, 0x1, Privilege::User);
    assert_eq!(r.to_bytes(), vec![0x01, 0x02]);
    let r = GetChannelAuthCapabilitiesRequest::new(false, 0xFF, Privilege::Callback);
    assert_eq!(r.to_bytes(), vec![0x0F, 0x01]);
}

#[test]
fn capabilities_request_packet() {
    let r = GetChannelAuthCapabilitiesRequest::new(true, 0xE, Privilege::Administrator);
    let packet = r.create_packet(AuthType::AuthNone, 0, 0, None);
    assert_eq!(packet.ipmi_header.payload_len(), 9);
    assert!(matches!(packet.ipmi_header, IpmiHeader::V1_5(_)));
    let bytes = packet.to_bytes();
    assert_eq!(
        bytes,
        vec![
            0x06, 0x00, 0xFF, 0x07, // RMCP
            0x00, 0, 0, 0, 0, 0, 0, 0, 0, 0x09, // session header
            0x20, 0x18, 0xC8, 0x81, 0x20, 0x38, 0x8E, 0x04, 0x95,
        ]
    );
}

#[test]
fn capabilities_response_fields() {
    let r = GetChannelAuthCapabilitiesResponse::from_slice(&[
        0x01, 0b1011_0111, 0b0010_1110, 0b0000_0010, 0x11, 0x22, 0x33, 0x44,
    ])
    .unwrap();
    assert_eq!(r.channel_number, 1);
    assert_eq!(r.auth_version, AuthVersion::IpmiV2);
    assert_eq!(
        r.auth_type,
        vec![AuthType::OEM, AuthType::PasswordOrKey, AuthType::MD5, AuthType::MD2, AuthType::AuthNone]
    );
    assert_eq!(r.kg_status, KG::NonZero);
    assert!(r.per_message_auth);
    assert!(!r.user_level_auth);
    assert_eq!(
        r.anon_login,
        AnonLogin::new(AnonStatus::Enabled, AnonStatus::Enabled, AnonStatus::Disabled)
    );
    assert_eq!(r.channel_extended_cap, AuthVersion::IpmiV2);
    assert_eq!(r.oem_id, 0x33221100);
    assert_eq!(r.oem_aux_data, 0x44);
}

#[test]
fn capabilities_response_of_a_v15_channel() {
    let r = GetChannelAuthCapabilitiesResponse::from_slice(&[0x0E, 0x04, 0x18, 0, 0, 0, 0, 0])
        .unwrap();
    assert_eq!(r.auth_version, AuthVersion::IpmiV1_5);
    assert_eq!(r.auth_type, vec![AuthType::MD5]);
    assert_eq!(r.kg_status, KG::Defualt);
    assert!(!r.per_message_auth);
    assert!(!r.user_level_auth);
    assert_eq!(r.channel_extended_cap, AuthVersion::IpmiV1_5);
    assert_eq!(r.oem_id, 0);
}

#[test]
fn capabilities_response_wrong_length() {
    assert_eq!(
        GetChannelAuthCapabilitiesResponse::from_slice(&[0u8; 7]),
        Err(IpmiPayloadError::WrongLength)
    );
    assert_eq!(
        GetChannelAuthCapabilitiesResponse::from_slice(&[0u8; 9]),
        Err(IpmiPayloadError::WrongLength)
    );
}

#[test]
fn cipher_suites_request_bytes() {
    assert_eq!(GetChannelCipherSuitesRequest::default().to_bytes(), vec![0x0E, 0x00, 0x80]);
    let r = GetChannelCipherSuitesRequest::new(0xE, PayloadType::IPMI, true, 3);
    assert_eq!(r.to_bytes(), vec![0x0E, 0x00, 0x83]);
    let r = GetChannelCipherSuitesRequest::new(0x12, PayloadType::SOL, false, 0x7F);
    assert_eq!(r.to_bytes(), vec![0x02, 0x01, 0x3F]);
    let r = GetChannelCipherSuitesRequest::new(0, PayloadType::RAKP4, false, 0);
    assert_eq!(r.to_bytes(), vec![0x00, 0x15, 0x00]);
}

#[test]
fn cipher_suites_request_packet() {
    let packet = GetChannelCipherSuitesRequest::default().create_packet();
    assert_eq!(packet.ipmi_header.payload_type(), PayloadType::IPMI);
    assert_eq!(packet.ipmi_header.payload_len(), 10);
    let bytes = packet.to_bytes();
    assert_eq!(bytes.len(), 4 + 12 + 10);
    assert_eq!(&bytes[16..22], &[0x20, 0x18, 0xC8, 0x81, 0x20, 0x54]);
    assert_eq!(&bytes[22..25], &[0x0E, 0x00, 0x80]);
}

#[test]
fn cipher_suites_response() {
    let r = GetChannelCipherSuitesResponse::from_slice(&[0x01, 0xC0, 0x11, 0x03, 0x44, 0x81]).unwrap();
    assert_eq!(r.channel_number, 1);
    assert_eq!(r.cypher_suite_record_data_bytes, vec![0xC0, 0x11, 0x03, 0x44, 0x81]);
    assert!(r.is_last());
    let mut full = vec![0x01];
    full.extend_from_slice(&[0xAA; 16]);
    let r = GetChannelCipherSuitesResponse::from_slice(&full).unwrap();
    assert!(!r.is_last());
    assert_eq!(GetChannelCipherSuitesResponse::from_slice(&[1]), Err(IpmiPayloadError::WrongLength));
    assert_eq!(GetChannelCipherSuitesResponse::from_slice(&[]), Err(IpmiPayloadError::WrongLength));
}

fn null_suite() -> CipherSuite {
    CipherSuite {
        id: 0,
        authentication: AuthAlgorithm::RakpNone,
        integrity: IntegrityAlgorithm::IntegrityNone,
        confidentiality: ConfidentialityAlgorithm::ConfidentialityNone,
    }
}

#[test]
fn suite_ranks() {
    let best = CipherSuite {
        id: 17,
        authentication: AuthAlgorithm::RakpHmacSha256,
        integrity: IntegrityAlgorithm::HmacSha256128,
        confidentiality: ConfidentialityAlgorithm::AesCbc128,
    };
    assert_eq!(best.rank(), 10);
    assert_eq!(null_suite().rank(), 0);
    let mixed = CipherSuite {
        id: 1,
        authentication: AuthAlgorithm::RakpHmacSha1,
        integrity: IntegrityAlgorithm::HmacMd5128,
        confidentiality: ConfidentialityAlgorithm::XRc440,
    };
    assert_eq!(mixed.rank(), 2 + 3 + 1);
    let odd = CipherSuite {
        id: 1,
        authentication: AuthAlgorithm::RakpHmacMd5,
        integrity: IntegrityAlgorithm::Md5128,
        confidentiality: ConfidentialityAlgorithm::XRc4128,
    };
    assert_eq!(odd.rank(), 1 + 1 + 2);
    assert_eq!(RECORD_DELIMITER, 0xC0);
}

#[test]
fn suite_read_maps_unknown_bytes_to_none() {
    let s = CipherSuite::read(&[0xEE, 7, 0x03, 0x44, 0x81], 1);
    assert_eq!(
        s,
        CipherSuite {
            id: 7,
            authentication: AuthAlgorithm::RakpHmacSha256,
            integrity: IntegrityAlgorithm::HmacSha256128,
            confidentiality: ConfidentialityAlgorithm::AesCbc128
        }
    );
    assert_eq!(CipherSuite::read(&[9, 0x04, 0x45, 0x84], 0), CipherSuite { id: 9, ..null_suite() });
}

#[test]
fn choose_falls_back_to_the_null_suite() {
    assert_eq!(choose_cipher_suite(&[]), null_suite());
    assert_eq!(choose_cipher_suite(&[0xC0]), null_suite());
    assert_eq!(choose_cipher_suite(&[0xC0, 1, 2, 3]), null_suite());
    assert_eq!(choose_cipher_suite(&[0xC0, 1, 2, 3, 4, 5]), null_suite());
    assert_eq!(choose_cipher_suite(&[1, 2, 3, 4, 5, 0xC0]), null_suite());
}

#[test]
fn choose_picks_the_highest_score() {
    let bytes = [
        0xC0, 0x01, 0x01, 0x40, 0x80, // suite 1: sha1, none, none
        0xC0, 0x03, 0x01, 0x41, 0x81, // suite 3: sha1, sha1-96, aes
        0xC0, 0x11, 0x03, 0x44, 0x81, // suite 17: sha256, sha256-128, aes
        0xC0, 0x0C, 0x02, 0x42, 0x81, // suite 12: md5, md5-128, aes
    ];
    let chosen = choose_cipher_suite(&bytes);
    assert_eq!(chosen.id, 0x11);
    assert_eq!(chosen.authentication, AuthAlgorithm::RakpHmacSha256);
    assert_eq!(chosen.integrity, IntegrityAlgorithm::HmacSha256128);
    assert_eq!(chosen.confidentiality, ConfidentialityAlgorithm::AesCbc128);
}

#[test]
fn choose_prefers_the_first_among_equals() {
    let bytes = [
        0xC0, 0x07, 0x02, 0x42, 0x81, // 1 + 3 + 3
        0xC0, 0x08, 0x03, 0x44, 0x80, // 3 + 4 + 0
        0xC0, 0x02, 0x01, 0x41, 0x80, // 2 + 2 + 0
    ];
    assert_eq!(choose_cipher_suite(&bytes).id, 0x07);
}

#[test]
fn choose_reads_a_record_without_leading_delimiter_and_skips_odd_groups() {
    assert_eq!(choose_cipher_suite(&[0x05, 0x01, 0x41, 0x81]).id, 5);
    assert_eq!(choose_cipher_suite(&[0x05, 0x01, 0x41, 0x81, 0xC0]).id, 5);
    let bytes = [0x05, 0x01, 0x41, 0x81, 0xC0, 0x09, 0x03, 0xC0, 0x06, 0x03, 0x44, 0x81, 0xC0, 0x01];
    assert_eq!(choose_cipher_suite(&bytes).id, 6);
    // a record with a score of nothing is still a record
    assert_eq!(choose_cipher_suite(&[0xC0, 0x2A, 0x00, 0x40, 0x80]), CipherSuite { id: 0x2A, ..null_suite() });
}

#[test]
fn raw_request_packet_is_protected_and_knows_its_length() {
    let raw = IpmiPayloadRawRequest::new(NetFn::App, Command::SetSessionPrivilegeLevel, Some(vec![4]));
    assert_eq!(raw.netfn, NetFn::App);
    let packet = raw.create_packet(0x01020304, 0x0A);
    match packet.ipmi_header {
        IpmiHeader::V2_0(h) => {
            assert_eq!(h.auth_type, AuthType::RmcpPlus);
            assert!(h.payload_enc);
            assert!(h.payload_auth);
            assert_eq!(h.payload_type, PayloadType::IPMI);
            assert_eq!(h.rmcp_plus_session_id, 0x01020304);
            assert_eq!(h.session_seq_number, 0x0A);
            assert_eq!(h.payload_length, 8);
            assert_eq!(h.oem_iana, None);
        }
        _ => panic!("a v2.0 header was expected"),
    }
    match packet.payload {
        Some(Payload::Ipmi(IpmiPayload::Request(r))) => {
            assert_eq!(r.command, Command::SetSessionPrivilegeLevel);
            assert_eq!(r.data, Some(vec![4]));
            assert_eq!(r.to_bytes().len(), 8);
        }
        _ => panic!("a request was expected"),
    }
    let bare = IpmiPayloadRawRequest::new(NetFn::Chassis, Command::Unknown(1), None);
    assert_eq!(bare.create_packet(1, 2).ipmi_header.payload_len(), 7);
}

#[test]
fn capabilities_flags_are_read_bit_by_bit() {
    for b in 0u8..=255 {
        let r = GetChannelAuthCapabilitiesResponse::from_slice(&[0, b, b, b, 0, 0, 0, 0]).unwrap();
        let bit = |i: u8| b & (0x80 >> i) != 0;
        assert_eq!(r.auth_version, AuthVersion::from_bool(bit(0)));
        let mut kinds = vec![];
        for (i, kind) in [
            (2u8, AuthType::OEM),
            (3, AuthType::PasswordOrKey),
            (5, AuthType::MD5),
            (6, AuthType::MD2),
            (7, AuthType::AuthNone),
        ] {
            if bit(i) {
                kinds.push(kind);
            }
        }
        assert_eq!(r.auth_type, kinds);
        assert_eq!(r.kg_status, KG::from_bool(bit(2)));
        assert_eq!(r.per_message_auth, !bit(3));
        assert_eq!(r.user_level_auth, !bit(4));
        assert_eq!(r.anon_login.non_null_username, AnonStatus::from_bool(bit(5)));
        assert_eq!(r.anon_login.null_username, AnonStatus::from_bool(bit(6)));
        assert_eq!(r.anon_login.anonymous_login, AnonStatus::from_bool(bit(7)));
        assert_eq!(r.channel_extended_cap, AuthVersion::from_bool(bit(6)));
    }
}

#[test]
fn request_bytes_keep_only_the_bits_that_have_room() {
    for b in 0u8..=255 {
        let caps = GetChannelAuthCapabilitiesRequest::new(b & 1 == 1, b, Privilege::User);
        assert_eq!(caps.to_bytes()[0], ((b & 1) << 7) | (b & 0x0F));
        let suites = GetChannelCipherSuitesRequest::new(b, PayloadType::IPMI, b & 2 == 2, b);
        assert_eq!(suites.to_bytes(), vec![b & 0x0F, 0, (((b >> 1) & 1) << 7) | (b & 0x3F)]);
    }
}
