use rust_ipmi::commands::command::Command;
use rust_ipmi::err::{IpmiPayloadError, IpmiPayloadRequestError, LunError, NetFnError};
use rust_ipmi::helpers::utils::get8bit_checksum;
use rust_ipmi::parser::ipmi_payload::{
    AddrType, CommandType, IpmiPayload, Lun, NetFn, SlaveAddress, SoftwareType,
};
use rust_ipmi::parser::ipmi_payload_request::IpmiPayloadRequest;
use rust_ipmi::parser::ipmi_payload_response::{Address, CompletionCode, IpmiPayloadResponse};

#[test]
fn netfn_codes_by_direction() {
    let named = [
        (NetFn::Chassis, 0x00u8),
        (NetFn::Bridge, 0x02),
        (NetFn::SensorEvent, 0x04),
        (NetFn::App, 0x06),
        (NetFn::Firmware, 0x08),
        (NetFn::Storage, 0x0A),
        (NetFn::Transport, 0x0C),
    ];
    for (f, code) in named {
        assert_eq!(f.to_u8(CommandType::Request), code);
        assert_eq!(f.to_u8(CommandType::Response), code + 1);
        assert_eq!(NetFn::from_u8(code), f);
        assert_eq!(NetFn::from_u8(code + 1), f);
    }
    assert_eq!(NetFn::Reserved.to_u8(CommandType::Request), 0x0E);
    assert_eq!(NetFn::Reserved.to_u8(CommandType::Response), 0x2B);
    assert_eq!(NetFn::from_u8(0x0E), NetFn::Reserved);
    assert_eq!(NetFn::from_u8(0x2B), NetFn::Reserved);
    assert_eq!(NetFn::from_u8(0x2C), NetFn::Unknown(0x2C));
    assert_eq!(NetFn::Unknown(0x30).to_u8(CommandType::Request), 0x30);
    assert_eq!(NetFn::Unknown(0x31).to_u8(CommandType::Response), 0x31);
}

#[test]
fn netfn_checked_decoding() {
    assert_eq!(NetFn::checked_from_u8(0x06), Ok(NetFn::App));
    assert_eq!(NetFn::checked_from_u8(0x2B), Ok(NetFn::Reserved));
    assert_eq!(NetFn::checked_from_u8(0x2C), Err(NetFnError::UnknownNetFn(0x2C)));
    assert_eq!(NetFn::checked_from_u8(0xFF), Err(NetFnError::UnknownNetFn(0xFF)));
}

#[test]
fn command_type_by_parity() {
    assert_eq!(CommandType::from_u8(0x06), CommandType::Request);
    assert_eq!(CommandType::from_u8(0x07), CommandType::Response);
    assert_eq!(CommandType::from_u8(0x00), CommandType::Request);
    assert_eq!(CommandType::from_u8(0xFF), CommandType::Response);
}

#[test]
fn lun_codes() {
    let all = [(Lun::Bmc, 0u8), (Lun::Oem1, 1), (Lun::Sms, 2), (Lun::Oem2, 3)];
    for (l, code) in all {
        assert_eq!(l.to_u8(), code);
        assert_eq!(Lun::from_u8(code), Ok(l));
    }
    assert_eq!(Lun::from_u8(4), Err(LunError::UnknownLun(4)));
}

#[test]
fn addr_type_codes() {
    assert_eq!(AddrType::from_bool(false), AddrType::SlaveAddress);
    assert_eq!(AddrType::from_bool(true), AddrType::SoftwareId);
    assert_eq!(AddrType::SlaveAddress.to_u8(), 0);
    assert_eq!(AddrType::SoftwareId.to_u8(), 1);
}

#[test]
fn software_type_ranges() {
    assert_eq!(SoftwareType::from_u8(0x00), SoftwareType::Bios);
    assert_eq!(SoftwareType::from_u8(0x0F), SoftwareType::Bios);
    assert_eq!(SoftwareType::from_u8(0x10), SoftwareType::SmiHandler);
    assert_eq!(SoftwareType::from_u8(0x2F), SoftwareType::SystemManagementSoftware);
    assert_eq!(SoftwareType::from_u8(0x30), SoftwareType::Oem);
    assert_eq!(SoftwareType::from_u8(0x40), SoftwareType::RemoteConsoleSoftware(1));
    assert_eq!(SoftwareType::from_u8(0x46), SoftwareType::RemoteConsoleSoftware(7));
    assert_eq!(SoftwareType::from_u8(0x47), SoftwareType::TerminalModeRemoteConsole);
    assert_eq!(SoftwareType::from_u8(0x48), SoftwareType::Reserved(0x48));
    assert_eq!(SoftwareType::Bios.to_u8(), 0x00);
    assert_eq!(SoftwareType::SmiHandler.to_u8(), 0x10);
    assert_eq!(SoftwareType::SystemManagementSoftware.to_u8(), 0x20);
    assert_eq!(SoftwareType::Oem.to_u8(), 0x30);
    assert_eq!(SoftwareType::RemoteConsoleSoftware(1).to_u8(), 1);
    assert_eq!(SoftwareType::TerminalModeRemoteConsole.to_u8(), 0x47);
    assert_eq!(SoftwareType::Reserved(0x60).to_u8(), 0x60);
}

#[test]
fn slave_address_codes() {
    assert_eq!(SlaveAddress::from_u8(0x20), SlaveAddress::Bmc);
    assert_eq!(SlaveAddress::from_u8(0x21), SlaveAddress::Unknown(0x21));
    assert_eq!(SlaveAddress::Bmc.to_u8(), 0x20);
    assert_eq!(SlaveAddress::Unknown(0x55).to_u8(), 0x55);
}

#[test]
fn address_byte_packs_kind_and_address() {
    assert_eq!(Address::Slave(SlaveAddress::Bmc).to_u8(), 0x20);
    assert_eq!(Address::Software(SoftwareType::RemoteConsoleSoftware(1)).to_u8(), 0x81);
    assert_eq!(Address::Software(SoftwareType::Bios).to_u8(), 0x80);
    assert_eq!(Address::Slave(SlaveAddress::Unknown(0xFF)).to_u8(), 0x7F);
    assert_eq!(Address::from_u8(0x20), Address::Slave(SlaveAddress::Bmc));
    assert_eq!(Address::from_u8(0x7F), Address::Slave(SlaveAddress::Unknown(0x7F)));
    assert_eq!(Address::from_u8(0x81), Address::Software(SoftwareType::Bios));
    assert_eq!(Address::from_u8(0xC0), Address::Software(SoftwareType::RemoteConsoleSoftware(1)));
    assert_eq!(Address::from_u8(0xC7), Address::Software(SoftwareType::TerminalModeRemoteConsole));
}

#[test]
fn address_round_trip_of_slave_bytes() {
    for b in 0u8..128 {
        assert_eq!(Address::from_u8(b).to_u8(), b);
    }
}

#[test]
fn command_codes() {
    assert_eq!(Command::GetChannelAuthCapabilities.to_u8(), 0x38);
    assert_eq!(Command::GetChannelCipherSuites.to_u8(), 0x54);
    assert_eq!(Command::SetSessionPrivilegeLevel.to_u8(), 0x3b);
    assert_eq!(Command::Unknown(0x01).to_u8(), 0x01);
    assert_eq!(Command::from_u8_and_netfn(0x38, NetFn::App), Command::GetChannelAuthCapabilities);
    assert_eq!(Command::from_u8_and_netfn(0x54, NetFn::App), Command::GetChannelCipherSuites);
    assert_eq!(Command::from_u8_and_netfn(0x3b, NetFn::App), Command::SetSessionPrivilegeLevel);
    assert_eq!(Command::from_u8_and_netfn(0x01, NetFn::App), Command::Unknown(0x01));
    assert_eq!(Command::from_u8_and_netfn(0x38, NetFn::Chassis), Command::Unknown(0x38));
    assert_eq!(Command::GetChannelCipherSuites.to_netfn(), NetFn::App);
    assert_eq!(Command::Unknown(3).to_netfn(), NetFn::Unknown(0));
}

#[test]
fn completion_code_table() {
    assert_eq!(CompletionCode::from_u8(0x00), CompletionCode::CompletedNormally);
    assert_eq!(CompletionCode::from_u8(0xC0), CompletionCode::NodeBusy);
    assert_eq!(CompletionCode::from_u8(0xC1), CompletionCode::InvalidCommand);
    assert_eq!(CompletionCode::from_u8(0xD4), CompletionCode::CannotExecuteCommandInsuffientPrivileges);
    assert_eq!(CompletionCode::from_u8(0xD6), CompletionCode::CannotExecuteCommandIllegalParam);
    assert_eq!(CompletionCode::from_u8(0xFF), CompletionCode::UnspecifiedError);
    assert_eq!(CompletionCode::from_u8(0x01), CompletionCode::OEM(0x01));
    assert_eq!(CompletionCode::from_u8(0x7E), CompletionCode::OEM(0x7E));
    assert_eq!(CompletionCode::from_u8(0x7F), CompletionCode::Reserved(0x7F));
    assert_eq!(CompletionCode::from_u8(0x80), CompletionCode::CommandCode(0x80));
    assert_eq!(CompletionCode::from_u8(0xBE), CompletionCode::CommandCode(0xBE));
    assert_eq!(CompletionCode::from_u8(0xBF), CompletionCode::Reserved(0xBF));
    assert_eq!(CompletionCode::from_u8(0xD7), CompletionCode::Reserved(0xD7));
}

#[test]
fn completion_code_round_trip_over_every_byte() {
    for b in 0u8..=255 {
        assert_eq!(CompletionCode::from_u8(b).to_u8(), b);
    }
}

#[test]
fn request_bytes_of_the_discovery_command() {
    let r = IpmiPayloadRequest::new(NetFn::App, Command::GetChannelAuthCapabilities, Some(vec![0x8E, 0x04]));
    assert_eq!(r.rq_sequence, 0x8);
    let bytes = r.to_bytes();
    assert_eq!(bytes[0], 0x20);
    assert_eq!(bytes[1], 0x18);
    assert_eq!(bytes[2], 0xC8);
    assert_eq!(bytes[3], 0x81);
    assert_eq!(bytes[4], 0x20);
    assert_eq!(bytes[5], 0x38);
    assert_eq!(&bytes[6..8], &[0x8E, 0x04]);
    assert_eq!(bytes[8], get8bit_checksum(&bytes[3..8]));
    assert_eq!(bytes.len(), 9);
    assert_eq!(r.payload_length(), 9);
}

#[test]
fn request_default_and_length_without_data() {
    let r = IpmiPayloadRequest::default();
    assert_eq!(r.net_fn, NetFn::App);
    assert_eq!(r.command, Command::GetChannelAuthCapabilities);
    assert_eq!(r.rq_sequence, 0);
    assert_eq!(r.data, None);
    assert_eq!(r.payload_length(), 7);
    assert_eq!(r.to_bytes().len(), 7);
    assert_eq!(IpmiPayloadRequest::MAX_PAYLOAD_LENGTH, 0xFF);
    assert_eq!(IpmiPayload::PAYLOAD_MAX_LEN, 0xFF);
}

fn canonical_request(data: Option<Vec<u8>>) -> IpmiPayloadRequest {
    IpmiPayloadRequest {
        rs_addr: Address::Slave(SlaveAddress::Bmc),
        net_fn: NetFn::App,
        rs_lun: Lun::Sms,
        rq_addr: Address::Software(SoftwareType::TerminalModeRemoteConsole),
        rq_sequence: 0x3F,
        rq_lun: Lun::Oem2,
        command: Command::SetSessionPrivilegeLevel,
        data,
    }
}

#[test]
fn request_round_trip_with_and_without_data() {
    for data in [None, Some(vec![0x04]), Some((0u8..200).collect::<Vec<u8>>())] {
        let r = canonical_request(data);
        let bytes = r.to_bytes();
        assert_eq!(IpmiPayloadRequest::from_slice(&bytes), Ok(r.clone()));
        assert_eq!(IpmiPayload::from_slice(&bytes), Ok(IpmiPayload::Request(r.clone())));
        assert_eq!(IpmiPayload::Request(r).to_bytes(), bytes);
        let head: u32 = bytes[..3].iter().map(|b| *b as u32).sum();
        let body: u32 = bytes[3..].iter().map(|b| *b as u32).sum();
        assert_eq!(head % 256, 0);
        assert_eq!(body % 256, 0);
    }
}

#[test]
fn request_round_trip_over_netfns_and_luns() {
    let netfns = [
        NetFn::Chassis,
        NetFn::Bridge,
        NetFn::SensorEvent,
        NetFn::Firmware,
        NetFn::Storage,
        NetFn::Transport,
        NetFn::Reserved,
        NetFn::Unknown(0x2C),
        NetFn::Unknown(0x3E),
    ];
    for net_fn in netfns {
        for lun in [Lun::Bmc, Lun::Oem1, Lun::Sms, Lun::Oem2] {
            let r = IpmiPayloadRequest {
                rs_addr: Address::Slave(SlaveAddress::Unknown(0x10)),
                net_fn,
                rs_lun: lun,
                rq_addr: Address::Software(SoftwareType::Reserved(0x50)),
                rq_sequence: 5,
                rq_lun: lun,
                command: Command::Unknown(0x99),
                data: Some(vec![1, 2, 3]),
            };
            assert_eq!(IpmiPayloadRequest::from_slice(&r.to_bytes()), Ok(r));
        }
    }
}

#[test]
fn request_from_the_default_console_is_read_back_by_range() {
    let r = IpmiPayloadRequest::new(NetFn::App, Command::GetChannelCipherSuites, None);
    let back = IpmiPayloadRequest::from_slice(&r.to_bytes()).unwrap();
    assert_eq!(back.rq_addr, Address::Software(SoftwareType::Bios));
    assert_eq!(back.rs_addr, r.rs_addr);
    assert_eq!(back.command, r.command);
    assert_eq!(back.rq_sequence, r.rq_sequence);
}

#[test]
fn request_uses_its_own_luns() {
    let r = IpmiPayloadRequest {
        rs_addr: Address::Slave(SlaveAddress::Bmc),
        net_fn: NetFn::App,
        rs_lun: Lun::Oem1,
        rq_addr: Address::Slave(SlaveAddress::Bmc),
        rq_sequence: 1,
        rq_lun: Lun::Sms,
        command: Command::Unknown(0),
        data: None,
    };
    let bytes = r.to_bytes();
    assert_eq!(bytes[1], (0x06 << 2) | 0b01);
    assert_eq!(bytes[4], (1 << 2) | 0b10);
}

#[test]
fn request_parse_errors() {
    let wrong = Err(IpmiPayloadError::PayloadRequestError(IpmiPayloadRequestError::WrongLength));
    assert_eq!(IpmiPayloadRequest::from_slice(&[]), wrong);
    assert_eq!(IpmiPayloadRequest::from_slice(&[0x20, 0x18, 0xC8, 0x81, 0x20, 0x38]), wrong);
    let good = canonical_request(Some(vec![9, 9])).to_bytes();
    let mut bad_first = good.clone();
    bad_first[2] ^= 0x01;
    assert_eq!(IpmiPayloadRequest::from_slice(&bad_first), Err(IpmiPayloadError::BadChecksum));
    let mut bad_second = good.clone();
    let last = bad_second.len() - 1;
    bad_second[last] = bad_second[last].wrapping_add(1);
    assert_eq!(IpmiPayloadRequest::from_slice(&bad_second), Err(IpmiPayloadError::BadChecksum));
    let mut bad_data = good.clone();
    bad_data[6] ^= 0x40;
    assert_eq!(IpmiPayloadRequest::from_slice(&bad_data), Err(IpmiPayloadError::BadChecksum));
}

fn canonical_response(data: Option<Vec<u8>>, completion_code: CompletionCode) -> IpmiPayloadResponse {
    IpmiPayloadResponse {
        rq_addr: Address::Software(SoftwareType::Bios),
        net_fn: NetFn::App,
        rq_lun: Lun::Bmc,
        rs_addr: Address::Slave(SlaveAddress::Bmc),
        rq_sequence: 8,
        rs_lun: Lun::Bmc,
        command: Command::GetChannelAuthCapabilities,
        completion_code,
        data,
    }
}

#[test]
fn response_layout() {
    let r = canonical_response(Some(vec![0xAA, 0xBB]), CompletionCode::NodeBusy);
    let bytes = r.to_bytes();
    assert_eq!(bytes[0], 0x80);
    assert_eq!(bytes[1], 0x07 << 2);
    assert_eq!(bytes[2], get8bit_checksum(&bytes[0..2]));
    assert_eq!(bytes[3], 0x20);
    assert_eq!(bytes[4], 8 << 2);
    assert_eq!(bytes[5], 0x38);
    assert_eq!(bytes[6], 0xC0);
    assert_eq!(&bytes[7..9], &[0xAA, 0xBB]);
    assert_eq!(bytes[9], get8bit_checksum(&bytes[3..9]));
    assert_eq!(r.payload_length(), 10);
    assert_eq!(canonical_response(None, CompletionCode::CompletedNormally).payload_length(), 8);
}

#[test]
fn response_round_trip() {
    for data in [None, Some(vec![0x01]), Some(vec![0xC0; 17])] {
        for code in [
            CompletionCode::CompletedNormally,
            CompletionCode::Timeout,
            CompletionCode::OEM(0x22),
            CompletionCode::CommandCode(0x81),
            CompletionCode::Reserved(0x7F),
        ] {
            let r = canonical_response(data.clone(), code);
            let bytes = r.to_bytes();
            assert_eq!(IpmiPayloadResponse::from_slice(&bytes), Ok(r.clone()));
            assert_eq!(IpmiPayload::from_slice(&bytes), Ok(IpmiPayload::Response(r.clone())));
            assert_eq!(IpmiPayload::Response(r).to_bytes(), bytes);
        }
    }
}

#[test]
fn response_parse_errors() {
    let wrong = Err(IpmiPayloadError::PayloadRequestError(IpmiPayloadRequestError::WrongLength));
    let good = canonical_response(None, CompletionCode::CompletedNormally).to_bytes();
    assert_eq!(good.len(), 8);
    assert_eq!(IpmiPayloadResponse::from_slice(&good[..7]), wrong);
    let mut bad = good.clone();
    bad[6] = 0xC1;
    assert_eq!(IpmiPayloadResponse::from_slice(&bad), Err(IpmiPayloadError::BadChecksum));
}

#[test]
fn payload_dispatches_on_netfn_parity() {
    assert_eq!(IpmiPayload::from_slice(&[0u8; 6]), Err(IpmiPayloadError::WrongLength));
    let request = canonical_request(None).to_bytes();
    assert!(matches!(IpmiPayload::from_slice(&request), Ok(IpmiPayload::Request(_))));
    let response = canonical_response(None, CompletionCode::CompletedNormally).to_bytes();
    assert!(matches!(IpmiPayload::from_slice(&response), Ok(IpmiPayload::Response(_))));
    let mut seven = response.clone();
    seven.truncate(7);
    assert_eq!(
        IpmiPayload::from_slice(&seven),
        Err(IpmiPayloadError::PayloadRequestError(IpmiPayloadRequestError::WrongLength))
    );
}

#[test]
fn address_byte_is_read_bit_by_bit() {
    for b in 0u8..=255 {
        match Address::from_u8(b) {
            Address::Slave(s) => {
                assert!(b < 0x80);
                assert_eq!(s, SlaveAddress::from_u8(b));
            }
            Address::Software(s) => {
                assert!(b >= 0x80);
                assert_eq!(s, SoftwareType::from_u8(b & 0x7F));
            }
        }
    }
}

#[test]
fn netfn_and_sequence_bytes_are_read_bit_by_bit() {
    for b in 0u8..=255 {
        let mut bytes = vec![0x20, b & 0xFE & !0x04, 0, 0x20, b, 0x01, 0];
        // keep the direction a request: clear the lowest bit of the network function
        bytes[1] = b & !0x04;
        bytes[2] = get8bit_checksum(&bytes[0..2]);
        bytes[6] = get8bit_checksum(&bytes[3..6]);
        let r = IpmiPayloadRequest::from_slice(&bytes).unwrap();
        assert_eq!(r.net_fn, NetFn::from_u8(bytes[1] >> 2));
        assert_eq!(r.rs_lun.to_u8(), bytes[1] & 0x03);
        assert_eq!(r.rq_sequence, b >> 2);
        assert_eq!(r.rq_lun.to_u8(), b & 0x03);
    }
}
