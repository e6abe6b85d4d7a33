//! Get Channel Authentication Capabilities, the first command of discovery.
use crate::commands::command::Command;
use crate::err::{IpmiPayloadError, ParseError, PrivilegeError};
use crate::helpers::bits::{bit_field, load_bits, store_bits};
use crate::parser::ipmi_header::{AuthType, IpmiHeader};
use crate::parser::ipmi_payload::{IpmiPayload, IpmiPayloadView, NetFn};
use crate::parser::ipmi_payload_request::{IpmiPayloadRequest, IpmiPayloadRequestView};
use crate::parser::ipmi_v1_header::IpmiV1Header;
use crate::parser::packet::{Packet, PacketView, Payload, PayloadView};
use crate::helpers::views::viewed;
use vstd::prelude::*;

verus! {

/// A session privilege level.
#[derive(Clone, Copy, Debug, PartialEq, Eq, Hash, Structural)]
pub enum Privilege {
    Reserved,
    Callback,
    User,
    Operator,
    Administrator,
    Oem,
}

impl Privilege {
    /// The number that stands for this value on the wire.
    pub open spec fn code(self) -> u8 {
        match self {
            Privilege::Reserved => 0x00,
            Privilege::Callback => 0x01,
            Privilege::User => 0x02,
            Privilege::Operator => 0x03,
            Privilege::Administrator => 0x04,
            Privilege::Oem => 0x05,
        }
    }

    /// The value that `value` stands for.
    pub open spec fn from_code(value: u8) -> Result<Privilege, IpmiPayloadError> {
        if value == 0x00 {
            Ok(Privilege::Reserved)
        } else if value == 0x01 {
            Ok(Privilege::Callback)
        } else if value == 0x02 {
            Ok(Privilege::User)
        } else if value == 0x03 {
            Ok(Privilege::Operator)
        } else if value == 0x04 {
            Ok(Privilege::Administrator)
        } else if value == 0x05 {
            Ok(Privilege::Oem)
        } else {
            Err(
                IpmiPayloadError::Parse(
                    ParseError::Privilege(PrivilegeError::UnknownPrivilege(value)),
                ),
            )
        }
    }

    /// Whether reading back the code of this value gives this value.
    pub open spec fn is_canonical(self) -> bool {
        Privilege::from_code(self.code()) == Ok::<Privilege, IpmiPayloadError>(self)
    }

    /// Every code that is read successfully is written back unchanged.
    pub proof fn lemma_code_of_from_code(value: u8)
        ensures
            Privilege::from_code(value) matches Ok(v) ==> v.code() == value && v.is_canonical(),
    {
    }

    /// Encodes this value.
    pub fn to_u8(&self) -> (r: u8)
        ensures
            r == self.code(),
    {
        match *self {
            Privilege::Reserved => 0x00,
            Privilege::Callback => 0x01,
            Privilege::User => 0x02,
            Privilege::Operator => 0x03,
            Privilege::Administrator => 0x04,
            Privilege::Oem => 0x05,
        }
    }

    /// Decodes `value`.
    pub fn from_u8(value: u8) -> (r: Result<Privilege, IpmiPayloadError>)
        ensures
            r == Privilege::from_code(value),
    {
        match value {
            0x00 => Ok(Privilege::Reserved),
            0x01 => Ok(Privilege::Callback),
            0x02 => Ok(Privilege::User),
            0x03 => Ok(Privilege::Operator),
            0x04 => Ok(Privilege::Administrator),
            0x05 => Ok(Privilege::Oem),
            _ => Err(
                IpmiPayloadError::Parse(
                    ParseError::Privilege(PrivilegeError::UnknownPrivilege(value)),
                ),
            ),
        }
    }
}

/// Whether the managed system holds a key of its own.
#[derive(Clone, Copy, Debug, PartialEq, Eq, Hash)]
pub enum KG {
    /// The key is all zeroes; the user's key stands in for it.
    Defualt,
    /// The key is set; opening a session takes both keys.
    NonZero,
}

impl KG {
    /// Reads the flag.
    pub fn from_bool(flag: bool) -> (r: KG)
        ensures
            r == (if flag {
                KG::NonZero
            } else {
                KG::Defualt
            }),
    {
        match flag {
            false => KG::Defualt,
            true => KG::NonZero,
        }
    }
}

/// Whether a way of logging in is open.
#[derive(Clone, Copy, Debug, PartialEq, Eq, Hash)]
pub enum AnonStatus {
    Enabled,
    Disabled,
}

impl AnonStatus {
    /// Reads the flag.
    pub fn from_bool(flag: bool) -> (r: AnonStatus)
        ensures
            r == (if flag {
                AnonStatus::Enabled
            } else {
                AnonStatus::Disabled
            }),
    {
        match flag {
            true => AnonStatus::Enabled,
            false => AnonStatus::Disabled,
        }
    }
}

/// The protocol version that a capability speaks of.
#[derive(Clone, Copy, Debug, PartialEq, Eq, Hash, Structural)]
pub enum AuthVersion {
    IpmiV2,
    IpmiV1_5,
}

impl AuthVersion {
    /// Reads the flag.
    pub fn from_bool(val: bool) -> (r: AuthVersion)
        ensures
            r == (if val {
                AuthVersion::IpmiV2
            } else {
                AuthVersion::IpmiV1_5
            }),
    {
        match val {
            true => AuthVersion::IpmiV2,
            false => AuthVersion::IpmiV1_5,
        }
    }
}

/// Which kinds of user are enabled on the channel.
#[derive(Clone, Copy, Debug, PartialEq, Eq, Hash)]
pub struct AnonLogin {
    /// Users with a name.
    pub non_null_username: AnonStatus,
    /// Users without a name but with a password.
    pub null_username: AnonStatus,
    /// Users with neither.
    pub anonymous_login: AnonStatus,
}

impl AnonLogin {
    /// Puts the three flags together.
    pub fn new(
        non_null_username: AnonStatus,
        null_username: AnonStatus,
        anonymous_login: AnonStatus,
    ) -> (r: AnonLogin)
        ensures
            r == (AnonLogin { non_null_username, null_username, anonymous_login }),
    {
        AnonLogin { non_null_username, null_username, anonymous_login }
    }
}

/// The data of a Get Channel Authentication Capabilities request.
#[derive(Clone, Copy, Debug, PartialEq, Eq, Hash)]
pub struct GetChannelAuthCapabilitiesRequest {
    /// Ask for the IPMI v2.0 extended data.
    pub channel_version: bool,
    /// Four bits on the wire; 0x0E is the channel that the request came in
    /// on.
    pub channel_number: u8,
    pub max_privilege: Privilege,
}

impl GetChannelAuthCapabilitiesRequest {
    /// The two data bytes: the version flag in the top bit with the
    /// channel number in the low four bits, then the privilege level.
    pub open spec fn spec_bytes(self) -> Seq<u8> {
        seq![
            ((if self.channel_version {
                128int
            } else {
                0int
            }) + self.channel_number % 16) as u8,
            self.max_privilege.code(),
        ]
    }

    /// The request message that carries this data.
    pub open spec fn spec_request(self) -> IpmiPayloadRequestView {
        IpmiPayloadRequestView::outgoing(
            NetFn::App,
            Command::GetChannelAuthCapabilities,
            Some(self.spec_bytes()),
        )
    }

    /// Puts the fields together.
    pub fn new(channel_version: bool, channel_number: u8, max_privilege: Privilege) -> (r:
        GetChannelAuthCapabilitiesRequest)
        ensures
            r == (GetChannelAuthCapabilitiesRequest {
                channel_version,
                channel_number,
                max_privilege,
            }),
    {
        GetChannelAuthCapabilitiesRequest { channel_version, channel_number, max_privilege }
    }

    /// Writes the data bytes.
    pub fn to_bytes(&self) -> (r: Vec<u8>)
        ensures
            r@ == self.spec_bytes(),
    {
        let flag: u8 = if self.channel_version {
            1
        } else {
            0
        };
        let mut r: Vec<u8> = Vec::new();
        r.push(store_bits(store_bits(0, 0, 1, flag), 4, 8, self.channel_number));
        r.push(self.max_privilege.to_u8());
        assert(r@ =~= self.spec_bytes());
        r
    }

    /// The packet that carries this request under a v1.5 session header
    /// with the given fields. The packet is well-formed where the
    /// authentication code is present exactly for an authentication type
    /// that calls for one, and the type is one of v1.5.
    pub fn create_packet(
        &self,
        auth_type: AuthType,
        session_seq_number: u32,
        session_id: u32,
        auth_code: Option<u128>,
    ) -> (r: Packet)
        ensures
            r@ == PacketView::outgoing(
                IpmiHeader::V1_5(
                    IpmiV1Header {
                        auth_type,
                        session_seq_number,
                        session_id,
                        auth_code,
                        payload_length: 9,
                    },
                ),
                PayloadView::Ipmi(IpmiPayloadView::Request(self.spec_request())),
            ),
            auth_type != AuthType::RmcpPlus && auth_code.is_some() == (auth_type
                != AuthType::AuthNone) ==> r@.wf(),
    {
        proof {
            IpmiPayloadRequestView::lemma_len(self.spec_request());
        }
        let data_bytes: Vec<u8> = self.to_bytes();
        Packet::new(
            IpmiHeader::V1_5(
                IpmiV1Header {
                    auth_type,
                    session_seq_number,
                    session_id,
                    auth_code,
                    payload_length: (data_bytes.len() as u8) + 7,
                },
            ),
            Payload::Ipmi(
                IpmiPayload::Request(
                    IpmiPayloadRequest::new(
                        NetFn::App,
                        Command::GetChannelAuthCapabilities,
                        Some(data_bytes),
                    ),
                ),
            ),
        )
    }
}

/// The data of a Get Channel Authentication Capabilities response.
#[derive(Clone, Debug, PartialEq, Eq, Hash)]
pub struct GetChannelAuthCapabilitiesResponse {
    pub channel_number: u8,
    /// Whether the channel speaks IPMI v2.0.
    pub auth_version: AuthVersion,
    /// The v1.5 authentication types that the channel supports.
    pub auth_type: Vec<AuthType>,
    pub kg_status: KG,
    pub per_message_auth: bool,
    pub user_level_auth: bool,
    pub anon_login: AnonLogin,
    /// Whether the channel supports IPMI v2.0 connections.
    pub channel_extended_cap: AuthVersion,
    /// Three bytes on the wire.
    pub oem_id: u32,
    pub oem_aux_data: u8,
}

/// What a `GetChannelAuthCapabilitiesResponse` holds, with the list of
/// authentication types as a sequence.
pub struct GetChannelAuthCapabilitiesResponseView {
    pub channel_number: u8,
    pub auth_version: AuthVersion,
    pub auth_type: Seq<AuthType>,
    pub kg_status: KG,
    pub per_message_auth: bool,
    pub user_level_auth: bool,
    pub anon_login: AnonLogin,
    pub channel_extended_cap: AuthVersion,
    pub oem_id: u32,
    pub oem_aux_data: u8,
}

impl View for GetChannelAuthCapabilitiesResponse {
    type V = GetChannelAuthCapabilitiesResponseView;

    open spec fn view(&self) -> GetChannelAuthCapabilitiesResponseView {
        GetChannelAuthCapabilitiesResponseView {
            channel_number: self.channel_number,
            auth_version: self.auth_version,
            auth_type: self.auth_type@,
            kg_status: self.kg_status,
            per_message_auth: self.per_message_auth,
            user_level_auth: self.user_level_auth,
            anon_login: self.anon_login,
            channel_extended_cap: self.channel_extended_cap,
            oem_id: self.oem_id,
            oem_aux_data: self.oem_aux_data,
        }
    }
}

/// Whether bit `index` of `byte` is set; bit 0 is the most significant.
pub open spec fn bit_set(byte: u8, index: int) -> bool {
    bit_field(byte, index, index + 1) == 1
}

/// The version that a flag stands for.
pub open spec fn version_of(flag: bool) -> AuthVersion {
    if flag {
        AuthVersion::IpmiV2
    } else {
        AuthVersion::IpmiV1_5
    }
}

/// The status that a flag stands for.
pub open spec fn status_of(flag: bool) -> AnonStatus {
    if flag {
        AnonStatus::Enabled
    } else {
        AnonStatus::Disabled
    }
}

/// `kind` alone where `present`, nothing otherwise.
pub open spec fn listed(present: bool, kind: AuthType) -> Seq<AuthType> {
    if present {
        seq![kind]
    } else {
        Seq::empty()
    }
}

impl GetChannelAuthCapabilitiesResponseView {
    /// The capabilities that the eight data bytes `s` spell. In the second
    /// byte the top bit tells the version and the bits 2, 3, 5, 6, 7 list
    /// the authentication types OEM, password, MD5, MD2, none, in that
    /// order.
    pub open spec fn parse(s: Seq<u8>) -> Result<
        GetChannelAuthCapabilitiesResponseView,
        IpmiPayloadError,
    > {
        if s.len() != 8 {
            Err(IpmiPayloadError::WrongLength)
        } else {
            Ok(
                GetChannelAuthCapabilitiesResponseView {
                    channel_number: s[0],
                    auth_version: version_of(bit_set(s[1], 0)),
                    auth_type: listed(bit_set(s[1], 2), AuthType::OEM) + listed(
                        bit_set(s[1], 3),
                        AuthType::PasswordOrKey,
                    ) + listed(bit_set(s[1], 5), AuthType::MD5) + listed(
                        bit_set(s[1], 6),
                        AuthType::MD2,
                    ) + listed(bit_set(s[1], 7), AuthType::AuthNone),
                    kg_status: if bit_set(s[2], 2) {
                        KG::NonZero
                    } else {
                        KG::Defualt
                    },
                    per_message_auth: !bit_set(s[2], 3),
                    user_level_auth: !bit_set(s[2], 4),
                    anon_login: AnonLogin {
                        non_null_username: status_of(bit_set(s[2], 5)),
                        null_username: status_of(bit_set(s[2], 6)),
                        anonymous_login: status_of(bit_set(s[2], 7)),
                    },
                    channel_extended_cap: version_of(bit_set(s[3], 6)),
                    oem_id: (s[4] * 0x100 + s[5] * 0x1_0000 + s[6] * 0x100_0000) as u32,
                    oem_aux_data: s[7],
                },
            )
        }
    }
}

/// Whether bit `index` of `byte` is set.
fn test_bit(byte: u8, index: usize) -> (r: bool)
    requires
        index < 8,
    ensures
        r == bit_set(byte, index as int),
{
    load_bits(byte, index, index + 1) == 1
}

/// Appends `kind` where `present`.
fn push_listed(out: &mut Vec<AuthType>, present: bool, kind: AuthType)
    ensures
        final(out)@ == old(out)@ + listed(present, kind),
{
    if present {
        out.push(kind);
        assert(out@ =~= old(out)@ + listed(present, kind));
    } else {
        assert(out@ =~= old(out)@ + listed(present, kind));
    }
}

impl GetChannelAuthCapabilitiesResponse {
    /// Reads the capabilities from the data bytes of a response.
    pub fn from_slice(value: &[u8]) -> (r: Result<
        GetChannelAuthCapabilitiesResponse,
        IpmiPayloadError,
    >)
        ensures
            viewed(r) == GetChannelAuthCapabilitiesResponseView::parse(value@),
    {
        if value.len() != 8 {
            return Err(IpmiPayloadError::WrongLength);
        }
        let mut auth_type: Vec<AuthType> = Vec::new();
        push_listed(&mut auth_type, test_bit(value[1], 2), AuthType::OEM);
        push_listed(&mut auth_type, test_bit(value[1], 3), AuthType::PasswordOrKey);
        push_listed(&mut auth_type, test_bit(value[1], 5), AuthType::MD5);
        push_listed(&mut auth_type, test_bit(value[1], 6), AuthType::MD2);
        push_listed(&mut auth_type, test_bit(value[1], 7), AuthType::AuthNone);
        assert(auth_type@ =~= GetChannelAuthCapabilitiesResponseView::parse(
            value@,
        ).unwrap().auth_type);
        let oem_id: u32 = value[4] as u32 * 0x100 + value[5] as u32 * 0x1_0000 + value[6] as u32
            * 0x100_0000;
        Ok(
            GetChannelAuthCapabilitiesResponse {
                channel_number: value[0],
                auth_version: AuthVersion::from_bool(test_bit(value[1], 0)),
                auth_type,
                kg_status: KG::from_bool(test_bit(value[2], 2)),
                per_message_auth: !test_bit(value[2], 3),
                user_level_auth: !test_bit(value[2], 4),
                anon_login: AnonLogin::new(
                    AnonStatus::from_bool(test_bit(value[2], 5)),
                    AnonStatus::from_bool(test_bit(value[2], 6)),
                    AnonStatus::from_bool(test_bit(value[2], 7)),
                ),
                channel_extended_cap: AuthVersion::from_bool(test_bit(value[3], 6)),
                oem_id,
                oem_aux_data: value[7],
            },
        )
    }
}

} // verus!
