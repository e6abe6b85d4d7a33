//! The session header that follows the RMCP frame, in either version.
use crate::err::IpmiHeaderError;
use crate::helpers::bits::load_bits;
use crate::parser::ipmi_v1_header::IpmiV1Header;
use crate::parser::ipmi_v2_header::{IpmiV2Header, PayloadType};
use vstd::prelude::*;

verus! {

/// The authentication type that opens a session header; `RmcpPlus` marks the v2.0 format.
#[derive(Clone, Copy, Debug, PartialEq, Eq, Hash)]
pub enum AuthType {
    AuthNone,
    MD2,
    MD5,
    PasswordOrKey,
    OEM,
    RmcpPlus,
}

impl AuthType {
    /// The number that stands for this value on the wire.
    pub open spec fn code(self) -> u8 {
        match self {
            AuthType::AuthNone => 0x00,
            AuthType::MD2 => 0x01,
            AuthType::MD5 => 0x02,
            AuthType::PasswordOrKey => 0x04,
            AuthType::OEM => 0x05,
            AuthType::RmcpPlus => 0x06,
        }
    }

    /// The value that `value` stands for.
    pub open spec fn from_code(value: u8) -> Result<AuthType, IpmiHeaderError> {
        if value == 0x00 {
            Ok(AuthType::AuthNone)
        } else if value == 0x01 {
            Ok(AuthType::MD2)
        } else if value == 0x02 {
            Ok(AuthType::MD5)
        } else if value == 0x04 {
            Ok(AuthType::PasswordOrKey)
        } else if value == 0x05 {
            Ok(AuthType::OEM)
        } else if value == 0x06 {
            Ok(AuthType::RmcpPlus)
        } else {
            Err(IpmiHeaderError::UnsupportedAuthType(value))
        }
    }

    /// Whether reading back the code of this value gives this value.
    pub open spec fn is_canonical(self) -> bool {
        AuthType::from_code(self.code()) == Ok::<AuthType, IpmiHeaderError>(self)
    }

    /// Every code that is read successfully is written back unchanged.
    pub proof fn lemma_code_of_from_code(value: u8)
        ensures
            AuthType::from_code(value) matches Ok(v) ==> v.code() == value && v.is_canonical(),
    {
    }

    /// Encodes this value.
    pub fn to_u8(&self) -> (r: u8)
        ensures
            r == self.code(),
    {
        match *self {
            AuthType::AuthNone => 0x00,
            AuthType::MD2 => 0x01,
            AuthType::MD5 => 0x02,
            AuthType::PasswordOrKey => 0x04,
            AuthType::OEM => 0x05,
            AuthType::RmcpPlus => 0x06,
        }
    }

    /// Decodes `value`.
    pub fn from_u8(value: u8) -> (r: Result<AuthType, IpmiHeaderError>)
        ensures
            r == AuthType::from_code(value),
    {
        match value {
            0x00 => Ok(AuthType::AuthNone),
            0x01 => Ok(AuthType::MD2),
            0x02 => Ok(AuthType::MD5),
            0x04 => Ok(AuthType::PasswordOrKey),
            0x05 => Ok(AuthType::OEM),
            0x06 => Ok(AuthType::RmcpPlus),
            _ => Err(IpmiHeaderError::UnsupportedAuthType(value)),
        }
    }
}

/// The two session header formats.
#[derive(Clone, Copy, Debug, PartialEq, Eq, Hash)]
pub enum Version {
    V1_5,
    V2_0,
}

/// A session header of either format. The first byte on the wire tells
/// them apart: `RmcpPlus` opens a v2.0 header, every other authentication
/// type a v1.5 header.
#[derive(Clone, Copy, Debug, PartialEq, Eq, Hash)]
pub enum IpmiHeader {
    V1_5(IpmiV1Header),
    V2_0(IpmiV2Header),
}

impl IpmiHeader {
    /// Whether the header is one that its own bytes spell: the variant
    /// agrees with the authentication type and the optional fields are
    /// present exactly where the format has room for them.
    pub open spec fn wf(self) -> bool {
        match self {
            IpmiHeader::V1_5(h) => h.wf() && h.auth_type != AuthType::RmcpPlus,
            IpmiHeader::V2_0(h) => h.wf(),
        }
    }

    /// The bytes of this header.
    pub open spec fn spec_bytes(self) -> Seq<u8> {
        match self {
            IpmiHeader::V1_5(h) => h.spec_bytes(),
            IpmiHeader::V2_0(h) => h.spec_bytes(),
        }
    }

    /// The header that `s` spells.
    pub open spec fn parse(s: Seq<u8>) -> Result<IpmiHeader, IpmiHeaderError> {
        if s.len() < 10 {
            Err(IpmiHeaderError::WrongLength)
        } else {
            match AuthType::from_code(s[0]) {
                Err(e) => Err(e),
                Ok(AuthType::RmcpPlus) => match IpmiV2Header::parse(s) {
                    Ok(h) => Ok(IpmiHeader::V2_0(h)),
                    Err(e) => Err(e),
                },
                Ok(_) => match IpmiV1Header::parse(s) {
                    Ok(h) => Ok(IpmiHeader::V1_5(h)),
                    Err(e) => Err(e),
                },
            }
        }
    }

    /// The length of the header that starts with the bytes `first` and
    /// `second`: 10 or 26 for v1.5, 12 or 18 for v2.0.
    pub open spec fn spec_header_len(first: u8, second: u8) -> Result<usize, IpmiHeaderError> {
        match AuthType::from_code(first) {
            Err(e) => Err(e),
            Ok(AuthType::RmcpPlus) => match PayloadType::from_code((second % 64) as u8) {
                Err(e) => Err(IpmiHeaderError::V2Error(e)),
                Ok(PayloadType::OEM) => Ok(18),
                Ok(_) => Ok(12),
            },
            Ok(AuthType::AuthNone) => Ok(10),
            Ok(_) => Ok(26),
        }
    }

    /// The payload type that this header announces; a v1.5 header always
    /// carries an IPMI message.
    pub open spec fn spec_payload_type(self) -> PayloadType {
        match self {
            IpmiHeader::V1_5(_) => PayloadType::IPMI,
            IpmiHeader::V2_0(h) => h.payload_type,
        }
    }

    /// The payload length that this header announces.
    pub open spec fn spec_payload_len(self) -> nat {
        match self {
            IpmiHeader::V1_5(h) => h.payload_length as nat,
            IpmiHeader::V2_0(h) => h.payload_length as nat,
        }
    }

    /// Parsing the bytes of a well-formed header gives the header back, and
    /// the first two bytes announce its length.
    pub proof fn lemma_parse_of_bytes(h: IpmiHeader)
        requires
            h.wf(),
        ensures
            IpmiHeader::parse(h.spec_bytes()) == Ok::<IpmiHeader, IpmiHeaderError>(h),
            h.spec_bytes().len() >= 10,
            IpmiHeader::spec_header_len(h.spec_bytes()[0], h.spec_bytes()[1]) == Ok::<
                usize,
                IpmiHeaderError,
            >(h.spec_bytes().len() as usize),
    {
        match h {
            IpmiHeader::V1_5(v1) => {
                IpmiV1Header::lemma_parse_of_bytes(v1);
            },
            IpmiHeader::V2_0(v2) => {
                IpmiV2Header::lemma_parse_of_bytes(v2);
            },
        }
    }

    /// The longest header there is.
    pub const MAX_LEN: usize = 26;

    /// The format that goes with an authentication type.
    pub fn version_from_auth_type(auth_type: AuthType) -> (r: Version)
        ensures
            r == (if auth_type == AuthType::RmcpPlus {
                Version::V2_0
            } else {
                Version::V1_5
            }),
    {
        match auth_type {
            AuthType::RmcpPlus => Version::V2_0,
            _ => Version::V1_5,
        }
    }

    /// The payload type that this header announces.
    pub fn payload_type(&self) -> (r: PayloadType)
        ensures
            r == self.spec_payload_type(),
    {
        match self {
            IpmiHeader::V1_5(_) => PayloadType::IPMI,
            IpmiHeader::V2_0(header) => header.payload_type,
        }
    }

    /// The length of the header whose first two bytes are given.
    pub fn header_len(first_byte: u8, second_byte: u8) -> (r: Result<usize, IpmiHeaderError>)
        ensures
            r == IpmiHeader::spec_header_len(first_byte, second_byte),
    {
        match AuthType::from_u8(first_byte) {
            Err(e) => Err(e),
            Ok(AuthType::RmcpPlus) => match PayloadType::from_u8(load_bits(second_byte, 2, 8)) {
                Err(e) => Err(IpmiHeaderError::V2Error(e)),
                Ok(PayloadType::OEM) => Ok(18),
                Ok(_) => Ok(12),
            },
            Ok(AuthType::AuthNone) => Ok(10),
            Ok(_) => Ok(26),
        }
    }

    /// The payload length that this header announces.
    pub fn payload_len(&self) -> (r: usize)
        ensures
            r == self.spec_payload_len(),
    {
        match self {
            IpmiHeader::V1_5(a) => a.payload_length as usize,
            IpmiHeader::V2_0(a) => a.payload_length as usize,
        }
    }

    /// Reads a header of either format; `value` must hold exactly the
    /// header.
    pub fn from_slice(value: &[u8]) -> (r: Result<IpmiHeader, IpmiHeaderError>)
        ensures
            r == IpmiHeader::parse(value@),
    {
        if value.len() < 10 {
            return Err(IpmiHeaderError::WrongLength);
        }
        match AuthType::from_u8(value[0]) {
            Err(e) => Err(e),
            Ok(AuthType::RmcpPlus) => match IpmiV2Header::from_slice(value) {
                Ok(h) => Ok(IpmiHeader::V2_0(h)),
                Err(e) => Err(e),
            },
            Ok(_) => match IpmiV1Header::from_slice(value) {
                Ok(h) => Ok(IpmiHeader::V1_5(h)),
                Err(e) => Err(e),
            },
        }
    }

    /// Writes this header.
    pub fn to_bytes(&self) -> (r: Vec<u8>)
        ensures
            r@ == self.spec_bytes(),
    {
        match self {
            IpmiHeader::V1_5(header) => header.to_bytes(),
            IpmiHeader::V2_0(header) => header.to_bytes(),
        }
    }
}

} // verus!
