//! The RMCP+ open-session exchange and the algorithm numbers it negotiates.
use crate::commands::channel::Privilege;
use crate::err::{
    AuthAlgorithmError, ConfidentialityAlgorithmError, IntegrityAlgorithmError, IpmiPayloadError,
};
use crate::helpers::bytes::{le_bytes, le_value, lemma_u32_bytes, push_le_bytes, u32_from_le};
use crate::parser::ipmi_header::{AuthType, IpmiHeader};
use crate::parser::ipmi_v2_header::{IpmiV2Header, PayloadType};
use crate::parser::packet::{Packet, PacketView, Payload, PayloadView};
use vstd::prelude::*;

verus! {

/// The eight bytes that propose or confirm one algorithm: the kind of
/// algorithm (0 authentication, 1 integrity, 2 confidentiality), two
/// reserved bytes, the length 8, the algorithm number, three reserved
/// bytes.
pub open spec fn algorithm_block(kind: u8, algorithm: u8) -> Seq<u8> {
    seq![kind, 0x00, 0x00, 0x08, algorithm, 0x00, 0x00, 0x00]
}

/// Appends one algorithm block.
fn push_algorithm_block(out: &mut Vec<u8>, kind: u8, algorithm: u8)
    ensures
        final(out)@ == old(out)@ + algorithm_block(kind, algorithm),
{
    out.push(kind);
    out.push(0x00);
    out.push(0x00);
    out.push(0x08);
    out.push(algorithm);
    out.push(0x00);
    out.push(0x00);
    out.push(0x00);
    assert(out@ =~= old(out)@ + algorithm_block(kind, algorithm));
}

/// The message that opens an RMCP+ session, 32 bytes on the wire.
#[derive(Clone, Copy, Debug, PartialEq, Eq, Hash)]
pub struct RMCPPlusOpenSessionRequest {
    /// Chosen by the console; the response repeats it.
    pub message_tag: u8,
    /// The highest privilege level that the console asks for.
    pub max_privilege: Privilege,
    /// The id under which the console wants to be addressed.
    pub remote_console_session_id: u32,
    pub authentication_algorithm: AuthAlgorithm,
    pub integrity_algorithm: IntegrityAlgorithm,
    pub confidentiality_algorithm: ConfidentialityAlgorithm,
}

impl RMCPPlusOpenSessionRequest {
    /// The 32 bytes of this request: tag, privilege level, two reserved
    /// bytes, the console's session id, and the three algorithm blocks.
    pub open spec fn spec_bytes(self) -> Seq<u8> {
        seq![self.message_tag, self.max_privilege.code(), 0x00, 0x00] + le_bytes(
            self.remote_console_session_id as nat,
            4,
        ) + algorithm_block(0x00, self.authentication_algorithm.code()) + algorithm_block(
            0x01,
            self.integrity_algorithm.code(),
        ) + algorithm_block(0x02, self.confidentiality_algorithm.code())
    }

    /// The request is always 32 bytes long.
    pub proof fn lemma_len(self)
        ensures
            self.spec_bytes().len() == 32,
    {
        lemma_u32_bytes(self.remote_console_session_id);
    }

    /// Puts the fields together.
    pub fn new(
        message_tag: u8,
        max_privilege: Privilege,
        remote_console_session_id: u32,
        authentication_algorithm: AuthAlgorithm,
        integrity_algorithm: IntegrityAlgorithm,
        confidentiality_algorithm: ConfidentialityAlgorithm,
    ) -> (r: RMCPPlusOpenSessionRequest)
        ensures
            r == (RMCPPlusOpenSessionRequest {
                message_tag,
                max_privilege,
                remote_console_session_id,
                authentication_algorithm,
                integrity_algorithm,
                confidentiality_algorithm,
            }),
    {
        RMCPPlusOpenSessionRequest {
            message_tag,
            max_privilege,
            remote_console_session_id,
            authentication_algorithm,
            integrity_algorithm,
            confidentiality_algorithm,
        }
    }

    /// Writes this request.
    pub fn to_bytes(&self) -> (r: Vec<u8>)
        ensures
            r@ == self.spec_bytes(),
    {
        let mut r: Vec<u8> = Vec::new();
        r.push(self.message_tag);
        r.push(self.max_privilege.to_u8());
        r.push(0x00);
        r.push(0x00);
        push_le_bytes(&mut r, self.remote_console_session_id as u128, 4);
        push_algorithm_block(&mut r, 0x00, self.authentication_algorithm.to_u8());
        push_algorithm_block(&mut r, 0x01, self.integrity_algorithm.to_u8());
        push_algorithm_block(&mut r, 0x02, self.confidentiality_algorithm.to_u8());
        assert(r@ =~= self.spec_bytes());
        r
    }

    /// The packet that carries this request: outside any session, neither
    /// encrypted nor authenticated.
    pub fn create_packet(self) -> (r: Packet)
        ensures
            r@.wf(),
            r@ == PacketView::outgoing(
                IpmiHeader::V2_0(IpmiV2Header::unprotected(PayloadType::RcmpOpenSessionRequest, 32)),
                PayloadView::RMCP(RMCPPlusOpenSession::Request(self)),
            ),
    {
        proof {
            self.lemma_len();
        }
        Packet::new(
            IpmiHeader::V2_0(
                IpmiV2Header::new(
                    AuthType::RmcpPlus,
                    false,
                    false,
                    PayloadType::RcmpOpenSessionRequest,
                    0,
                    0,
                    32,
                ),
            ),
            Payload::RMCP(RMCPPlusOpenSession::Request(self)),
        )
    }
}

/// The answer to an open-session request, 36 bytes on the wire.
#[derive(Clone, Copy, Debug, PartialEq, Eq, Hash)]
pub struct RMCPPlusOpenSessionResponse {
    /// The tag of the request that this answers.
    pub message_tag: u8,
    pub rmcp_plus_status_code: StatusCode,
    /// The highest privilege level that the chosen algorithms allow.
    pub max_privilege: Privilege,
    pub remote_console_session_id: u32,
    /// The id under which the managed system wants to be addressed.
    pub managed_system_session_id: u32,
    pub authentication_algorithm: AuthAlgorithm,
    pub integrity_algorithm: IntegrityAlgorithm,
    pub confidentiality_algorithm: ConfidentialityAlgorithm,
}

impl RMCPPlusOpenSessionResponse {
    /// Every field is one that its own code is read back as.
    pub open spec fn wf(self) -> bool {
        &&& self.rmcp_plus_status_code.is_canonical()
        &&& self.authentication_algorithm.is_canonical()
        &&& self.integrity_algorithm.is_canonical()
        &&& self.confidentiality_algorithm.is_canonical()
    }

    /// The 36 bytes of this response: tag, status, privilege level, a
    /// reserved byte, the two session ids, and the three algorithm blocks.
    pub open spec fn spec_bytes(self) -> Seq<u8> {
        seq![self.message_tag, self.rmcp_plus_status_code.code(), self.max_privilege.code(), 0x00]
            + le_bytes(self.remote_console_session_id as nat, 4) + le_bytes(
            self.managed_system_session_id as nat,
            4,
        ) + algorithm_block(0x00, self.authentication_algorithm.code()) + algorithm_block(
            0x01,
            self.integrity_algorithm.code(),
        ) + algorithm_block(0x02, self.confidentiality_algorithm.code())
    }

    /// The response that `s` spells. At least the 33 bytes up to the
    /// confidentiality algorithm number must be there.
    pub open spec fn parse(s: Seq<u8>) -> Result<RMCPPlusOpenSessionResponse, IpmiPayloadError> {
        if s.len() < 33 {
            Err(IpmiPayloadError::WrongLength)
        } else {
            match Privilege::from_code(s[2]) {
                Err(e) => Err(e),
                Ok(max_privilege) => match AuthAlgorithm::from_code(s[16]) {
                    Err(e) => Err(e),
                    Ok(authentication_algorithm) => match IntegrityAlgorithm::from_code(s[24]) {
                        Err(e) => Err(e),
                        Ok(integrity_algorithm) => match ConfidentialityAlgorithm::from_code(
                            s[32],
                        ) {
                            Err(e) => Err(e),
                            Ok(confidentiality_algorithm) => Ok(
                                RMCPPlusOpenSessionResponse {
                                    message_tag: s[0],
                                    rmcp_plus_status_code: StatusCode::from_code(s[1]),
                                    max_privilege,
                                    remote_console_session_id: le_value(s.subrange(4, 8)) as u32,
                                    managed_system_session_id: le_value(s.subrange(8, 12)) as u32,
                                    authentication_algorithm,
                                    integrity_algorithm,
                                    confidentiality_algorithm,
                                },
                            ),
                        },
                    },
                },
            }
        }
    }

    /// Parsing the bytes of a well-formed response gives the response back.
    pub proof fn lemma_parse_of_bytes(p: RMCPPlusOpenSessionResponse)
        requires
            p.wf(),
        ensures
            p.spec_bytes().len() == 36,
            RMCPPlusOpenSessionResponse::parse(p.spec_bytes()) == Ok::<
                RMCPPlusOpenSessionResponse,
                IpmiPayloadError,
            >(p),
    {
        let s = p.spec_bytes();
        lemma_u32_bytes(p.remote_console_session_id);
        lemma_u32_bytes(p.managed_system_session_id);
        assert(s.subrange(4, 8) =~= le_bytes(p.remote_console_session_id as nat, 4));
        assert(s.subrange(8, 12) =~= le_bytes(p.managed_system_session_id as nat, 4));
    }

    /// Reads a response.
    pub fn from_slice(value: &[u8]) -> (r: Result<RMCPPlusOpenSessionResponse, IpmiPayloadError>)
        ensures
            r == RMCPPlusOpenSessionResponse::parse(value@),
    {
        if value.len() < 33 {
            return Err(IpmiPayloadError::WrongLength);
        }
        let max_privilege: Privilege = match Privilege::from_u8(value[2]) {
            Ok(p) => p,
            Err(e) => {
                return Err(e);
            },
        };
        let authentication_algorithm: AuthAlgorithm = match AuthAlgorithm::from_u8(value[16]) {
            Ok(a) => a,
            Err(e) => {
                return Err(e);
            },
        };
        let integrity_algorithm: IntegrityAlgorithm = match IntegrityAlgorithm::from_u8(
            value[24],
        ) {
            Ok(a) => a,
            Err(e) => {
                return Err(e);
            },
        };
        let confidentiality_algorithm: ConfidentialityAlgorithm =
            match ConfidentialityAlgorithm::from_u8(value[32]) {
            Ok(a) => a,
            Err(e) => {
                return Err(e);
            },
        };
        Ok(
            RMCPPlusOpenSessionResponse {
                message_tag: value[0],
                rmcp_plus_status_code: StatusCode::from_u8(value[1]),
                max_privilege,
                remote_console_session_id: u32_from_le(value, 4),
                managed_system_session_id: u32_from_le(value, 8),
                authentication_algorithm,
                integrity_algorithm,
                confidentiality_algorithm,
            },
        )
    }

    /// Writes this response.
    pub fn to_bytes(&self) -> (r: Vec<u8>)
        ensures
            r@ == self.spec_bytes(),
    {
        let mut r: Vec<u8> = Vec::new();
        r.push(self.message_tag);
        r.push(self.rmcp_plus_status_code.to_u8());
        r.push(self.max_privilege.to_u8());
        r.push(0x00);
        push_le_bytes(&mut r, self.remote_console_session_id as u128, 4);
        push_le_bytes(&mut r, self.managed_system_session_id as u128, 4);
        push_algorithm_block(&mut r, 0x00, self.authentication_algorithm.to_u8());
        push_algorithm_block(&mut r, 0x01, self.integrity_algorithm.to_u8());
        push_algorithm_block(&mut r, 0x02, self.confidentiality_algorithm.to_u8());
        assert(r@ =~= self.spec_bytes());
        r
    }
}

/// Either side of the open-session exchange.
#[derive(Clone, Copy, Debug, PartialEq, Eq, Hash)]
pub enum RMCPPlusOpenSession {
    Request(RMCPPlusOpenSessionRequest),
    Response(RMCPPlusOpenSessionResponse),
}

impl RMCPPlusOpenSession {
    /// The bytes of this message.
    pub open spec fn spec_bytes(self) -> Seq<u8> {
        match self {
            RMCPPlusOpenSession::Request(p) => p.spec_bytes(),
            RMCPPlusOpenSession::Response(p) => p.spec_bytes(),
        }
    }

    /// Writes this message.
    pub fn to_bytes(&self) -> (r: Vec<u8>)
        ensures
            r@ == self.spec_bytes(),
    {
        match self {
            RMCPPlusOpenSession::Request(request) => request.to_bytes(),
            RMCPPlusOpenSession::Response(response) => response.to_bytes(),
        }
    }
}

/// The status byte of the RMCP+ open-session and RAKP messages.
#[derive(Clone, Copy, Debug, PartialEq, Eq, Hash, Structural)]
pub enum StatusCode {
    NoErrors,
    InsufficientResources,
    InvalidSessionId,
    InvalidPayloadType,
    InvalidAuthAlgorithm,
    InvalidIntegrityAlgorithm,
    NoMatchingAuthPayload,
    NoMatchingIntegrityPayload,
    InactiveSessionId,
    InvalidRole,
    UnauthorizedRoleRequested,
    InsufficientResourcesForRole,
    InvalidNameLength,
    UnauthorizedName,
    UnauthorizedGUID,
    InvalidIntegrityCheckValue,
    InvalidConfidentialityAlgorithm,
    NoCipherSuiteMatch,
    IllegalParameter,
    /// Any code from 0x13 up.
    Reserved(u8),
}

impl StatusCode {
    /// The number that stands for this value on the wire.
    pub open spec fn code(self) -> u8 {
        match self {
            StatusCode::NoErrors => 0x00,
            StatusCode::InsufficientResources => 0x01,
            StatusCode::InvalidSessionId => 0x02,
            StatusCode::InvalidPayloadType => 0x03,
            StatusCode::InvalidAuthAlgorithm => 0x04,
            StatusCode::InvalidIntegrityAlgorithm => 0x05,
            StatusCode::NoMatchingAuthPayload => 0x06,
            StatusCode::NoMatchingIntegrityPayload => 0x07,
            StatusCode::InactiveSessionId => 0x08,
            StatusCode::InvalidRole => 0x09,
            StatusCode::UnauthorizedRoleRequested => 0x0A,
            StatusCode::InsufficientResourcesForRole => 0x0B,
            StatusCode::InvalidNameLength => 0x0C,
            StatusCode::UnauthorizedName => 0x0D,
            StatusCode::UnauthorizedGUID => 0x0E,
            StatusCode::InvalidIntegrityCheckValue => 0x0F,
            StatusCode::InvalidConfidentialityAlgorithm => 0x10,
            StatusCode::NoCipherSuiteMatch => 0x11,
            StatusCode::IllegalParameter => 0x12,
            StatusCode::Reserved(value) => value,
        }
    }

    /// The value that `value` stands for.
    pub open spec fn from_code(value: u8) -> StatusCode {
        if value == 0x00 {
            StatusCode::NoErrors
        } else if value == 0x01 {
            StatusCode::InsufficientResources
        } else if value == 0x02 {
            StatusCode::InvalidSessionId
        } else if value == 0x03 {
            StatusCode::InvalidPayloadType
        } else if value == 0x04 {
            StatusCode::InvalidAuthAlgorithm
        } else if value == 0x05 {
            StatusCode::InvalidIntegrityAlgorithm
        } else if value == 0x06 {
            StatusCode::NoMatchingAuthPayload
        } else if value == 0x07 {
            StatusCode::NoMatchingIntegrityPayload
        } else if value == 0x08 {
            StatusCode::InactiveSessionId
        } else if value == 0x09 {
            StatusCode::InvalidRole
        } else if value == 0x0A {
            StatusCode::UnauthorizedRoleRequested
        } else if value == 0x0B {
            StatusCode::InsufficientResourcesForRole
        } else if value == 0x0C {
            StatusCode::InvalidNameLength
        } else if value == 0x0D {
            StatusCode::UnauthorizedName
        } else if value == 0x0E {
            StatusCode::UnauthorizedGUID
        } else if value == 0x0F {
            StatusCode::InvalidIntegrityCheckValue
        } else if value == 0x10 {
            StatusCode::InvalidConfidentialityAlgorithm
        } else if value == 0x11 {
            StatusCode::NoCipherSuiteMatch
        } else if value == 0x12 {
            StatusCode::IllegalParameter
        } else {
            StatusCode::Reserved(value)
        }
    }

    /// Whether reading back the code of this value gives this value.
    pub open spec fn is_canonical(self) -> bool {
        StatusCode::from_code(self.code()) == self
    }

    /// Every code that is read successfully is written back unchanged.
    pub proof fn lemma_code_of_from_code(value: u8)
        ensures
            StatusCode::from_code(value).code() == value,
            StatusCode::from_code(value).is_canonical(),
    {
    }

    /// Encodes this value.
    pub fn to_u8(&self) -> (r: u8)
        ensures
            r == self.code(),
    {
        match *self {
            StatusCode::NoErrors => 0x00,
            StatusCode::InsufficientResources => 0x01,
            StatusCode::InvalidSessionId => 0x02,
            StatusCode::InvalidPayloadType => 0x03,
            StatusCode::InvalidAuthAlgorithm => 0x04,
            StatusCode::InvalidIntegrityAlgorithm => 0x05,
            StatusCode::NoMatchingAuthPayload => 0x06,
            StatusCode::NoMatchingIntegrityPayload => 0x07,
            StatusCode::InactiveSessionId => 0x08,
            StatusCode::InvalidRole => 0x09,
            StatusCode::UnauthorizedRoleRequested => 0x0A,
            StatusCode::InsufficientResourcesForRole => 0x0B,
            StatusCode::InvalidNameLength => 0x0C,
            StatusCode::UnauthorizedName => 0x0D,
            StatusCode::UnauthorizedGUID => 0x0E,
            StatusCode::InvalidIntegrityCheckValue => 0x0F,
            StatusCode::InvalidConfidentialityAlgorithm => 0x10,
            StatusCode::NoCipherSuiteMatch => 0x11,
            StatusCode::IllegalParameter => 0x12,
            StatusCode::Reserved(value) => value,
        }
    }

    /// Decodes `value`.
    pub fn from_u8(value: u8) -> (r: StatusCode)
        ensures
            r == StatusCode::from_code(value),
    {
        match value {
            0x00 => StatusCode::NoErrors,
            0x01 => StatusCode::InsufficientResources,
            0x02 => StatusCode::InvalidSessionId,
            0x03 => StatusCode::InvalidPayloadType,
            0x04 => StatusCode::InvalidAuthAlgorithm,
            0x05 => StatusCode::InvalidIntegrityAlgorithm,
            0x06 => StatusCode::NoMatchingAuthPayload,
            0x07 => StatusCode::NoMatchingIntegrityPayload,
            0x08 => StatusCode::InactiveSessionId,
            0x09 => StatusCode::InvalidRole,
            0x0A => StatusCode::UnauthorizedRoleRequested,
            0x0B => StatusCode::InsufficientResourcesForRole,
            0x0C => StatusCode::InvalidNameLength,
            0x0D => StatusCode::UnauthorizedName,
            0x0E => StatusCode::UnauthorizedGUID,
            0x0F => StatusCode::InvalidIntegrityCheckValue,
            0x10 => StatusCode::InvalidConfidentialityAlgorithm,
            0x11 => StatusCode::NoCipherSuiteMatch,
            0x12 => StatusCode::IllegalParameter,
            _ => StatusCode::Reserved(value),
        }
    }
}

/// The algorithm that authenticates the RAKP exchange.
#[derive(Clone, Copy, Debug, PartialEq, Eq, Hash)]
pub enum AuthAlgorithm {
    RakpNone,
    RakpHmacSha1,
    RakpHmacMd5,
    RakpHmacSha256,
    /// A vendor algorithm, 0xC0 to 0xFF.
    OEM(u8),
}

impl AuthAlgorithm {
    /// The number that stands for this value on the wire.
    pub open spec fn code(self) -> u8 {
        match self {
            AuthAlgorithm::RakpNone => 0x00,
            AuthAlgorithm::RakpHmacSha1 => 0x01,
            AuthAlgorithm::RakpHmacMd5 => 0x02,
            AuthAlgorithm::RakpHmacSha256 => 0x03,
            AuthAlgorithm::OEM(value) => value,
        }
    }

    /// The value that `value` stands for.
    pub open spec fn from_code(value: u8) -> Result<AuthAlgorithm, IpmiPayloadError> {
        if value == 0x00 {
            Ok(AuthAlgorithm::RakpNone)
        } else if value == 0x01 {
            Ok(AuthAlgorithm::RakpHmacSha1)
        } else if value == 0x02 {
            Ok(AuthAlgorithm::RakpHmacMd5)
        } else if value == 0x03 {
            Ok(AuthAlgorithm::RakpHmacSha256)
        } else if 0xC0 <= value {
            Ok(AuthAlgorithm::OEM(value))
        } else {
            Err(IpmiPayloadError::AuthAlgorithm(AuthAlgorithmError::UnknownAuthAlgorithm(value)))
        }
    }

    /// Whether reading back the code of this value gives this value.
    pub open spec fn is_canonical(self) -> bool {
        AuthAlgorithm::from_code(self.code()) == Ok::<AuthAlgorithm, IpmiPayloadError>(self)
    }

    /// Every code that is read successfully is written back unchanged.
    pub proof fn lemma_code_of_from_code(value: u8)
        ensures
            AuthAlgorithm::from_code(value) matches Ok(v) ==> v.code() == value && v.is_canonical(),
    {
    }

    /// Encodes this value.
    pub fn to_u8(&self) -> (r: u8)
        ensures
            r == self.code(),
    {
        match *self {
            AuthAlgorithm::RakpNone => 0x00,
            AuthAlgorithm::RakpHmacSha1 => 0x01,
            AuthAlgorithm::RakpHmacMd5 => 0x02,
            AuthAlgorithm::RakpHmacSha256 => 0x03,
            AuthAlgorithm::OEM(value) => value,
        }
    }

    /// Decodes `value`.
    pub fn from_u8(value: u8) -> (r: Result<AuthAlgorithm, IpmiPayloadError>)
        ensures
            r == AuthAlgorithm::from_code(value),
    {
        match value {
            0x00 => Ok(AuthAlgorithm::RakpNone),
            0x01 => Ok(AuthAlgorithm::RakpHmacSha1),
            0x02 => Ok(AuthAlgorithm::RakpHmacMd5),
            0x03 => Ok(AuthAlgorithm::RakpHmacSha256),
            0xC0..=0xFF => Ok(AuthAlgorithm::OEM(value)),
            _ => Err(IpmiPayloadError::AuthAlgorithm(AuthAlgorithmError::UnknownAuthAlgorithm(value))),
        }
    }
}

/// The algorithm behind the per-packet integrity trailer.
#[derive(Clone, Copy, Debug, PartialEq, Eq, Hash)]
pub enum IntegrityAlgorithm {
    IntegrityNone,
    HmacSha196,
    HmacMd5128,
    Md5128,
    HmacSha256128,
    /// A vendor algorithm, 0xC0 to 0xFF.
    OEM(u8),
}

impl IntegrityAlgorithm {
    /// The number that stands for this value on the wire.
    pub open spec fn code(self) -> u8 {
        match self {
            IntegrityAlgorithm::IntegrityNone => 0x00,
            IntegrityAlgorithm::HmacSha196 => 0x01,
            IntegrityAlgorithm::HmacMd5128 => 0x02,
            IntegrityAlgorithm::Md5128 => 0x03,
            IntegrityAlgorithm::HmacSha256128 => 0x04,
            IntegrityAlgorithm::OEM(value) => value,
        }
    }

    /// The value that `value` stands for.
    pub open spec fn from_code(value: u8) -> Result<IntegrityAlgorithm, IpmiPayloadError> {
        if value == 0x00 {
            Ok(IntegrityAlgorithm::IntegrityNone)
        } else if value == 0x01 {
            Ok(IntegrityAlgorithm::HmacSha196)
        } else if value == 0x02 {
            Ok(IntegrityAlgorithm::HmacMd5128)
        } else if value == 0x03 {
            Ok(IntegrityAlgorithm::Md5128)
        } else if value == 0x04 {
            Ok(IntegrityAlgorithm::HmacSha256128)
        } else if 0xC0 <= value {
            Ok(IntegrityAlgorithm::OEM(value))
        } else {
            Err(IpmiPayloadError::IntegrityAlgorithm(
                IntegrityAlgorithmError::UnknownIntegrityAlgorithm(value),
            ))
        }
    }

    /// Whether reading back the code of this value gives this value.
    pub open spec fn is_canonical(self) -> bool {
        IntegrityAlgorithm::from_code(self.code()) == Ok::<IntegrityAlgorithm, IpmiPayloadError>(self)
    }

    /// Every code that is read successfully is written back unchanged.
    pub proof fn lemma_code_of_from_code(value: u8)
        ensures
            IntegrityAlgorithm::from_code(value) matches Ok(v) ==> v.code() == value && v.is_canonical(),
    {
    }

    /// Encodes this value.
    pub fn to_u8(&self) -> (r: u8)
        ensures
            r == self.code(),
    {
        match *self {
            IntegrityAlgorithm::IntegrityNone => 0x00,
            IntegrityAlgorithm::HmacSha196 => 0x01,
            IntegrityAlgorithm::HmacMd5128 => 0x02,
            IntegrityAlgorithm::Md5128 => 0x03,
            IntegrityAlgorithm::HmacSha256128 => 0x04,
            IntegrityAlgorithm::OEM(value) => value,
        }
    }

    /// Decodes `value`.
    pub fn from_u8(value: u8) -> (r: Result<IntegrityAlgorithm, IpmiPayloadError>)
        ensures
            r == IntegrityAlgorithm::from_code(value),
    {
        match value {
            0x00 => Ok(IntegrityAlgorithm::IntegrityNone),
            0x01 => Ok(IntegrityAlgorithm::HmacSha196),
            0x02 => Ok(IntegrityAlgorithm::HmacMd5128),
            0x03 => Ok(IntegrityAlgorithm::Md5128),
            0x04 => Ok(IntegrityAlgorithm::HmacSha256128),
            0xC0..=0xFF => Ok(IntegrityAlgorithm::OEM(value)),
            _ => Err(IpmiPayloadError::IntegrityAlgorithm(
                IntegrityAlgorithmError::UnknownIntegrityAlgorithm(value),
            )),
        }
    }
}

/// The cipher that protects payloads once a session stands.
#[derive(Clone, Copy, Debug, PartialEq, Eq, Hash)]
pub enum ConfidentialityAlgorithm {
    ConfidentialityNone,
    AesCbc128,
    XRc4128,
    XRc440,
    /// A vendor algorithm, 0x30 to 0xFF.
    OEM(u8),
}

impl ConfidentialityAlgorithm {
    /// The number that stands for this value on the wire.
    pub open spec fn code(self) -> u8 {
        match self {
            ConfidentialityAlgorithm::ConfidentialityNone => 0x00,
            ConfidentialityAlgorithm::AesCbc128 => 0x01,
            ConfidentialityAlgorithm::XRc4128 => 0x02,
            ConfidentialityAlgorithm::XRc440 => 0x03,
            ConfidentialityAlgorithm::OEM(value) => value,
        }
    }

    /// The value that `value` stands for.
    pub open spec fn from_code(value: u8) -> Result<ConfidentialityAlgorithm, IpmiPayloadError> {
        if value == 0x00 {
            Ok(ConfidentialityAlgorithm::ConfidentialityNone)
        } else if value == 0x01 {
            Ok(ConfidentialityAlgorithm::AesCbc128)
        } else if value == 0x02 {
            Ok(ConfidentialityAlgorithm::XRc4128)
        } else if value == 0x03 {
            Ok(ConfidentialityAlgorithm::XRc440)
        } else if 0x30 <= value {
            Ok(ConfidentialityAlgorithm::OEM(value))
        } else {
            Err(IpmiPayloadError::ConfidentialityAlgorithm(
                ConfidentialityAlgorithmError::UnknownConfidentialityAlgorithm(value),
            ))
        }
    }

    /// Whether reading back the code of this value gives this value.
    pub open spec fn is_canonical(self) -> bool {
        ConfidentialityAlgorithm::from_code(self.code()) == Ok::<
            ConfidentialityAlgorithm,
            IpmiPayloadError,
        >(self)
    }

    /// Every code that is read successfully is written back unchanged.
    pub proof fn lemma_code_of_from_code(value: u8)
        ensures
            ConfidentialityAlgorithm::from_code(value) matches Ok(v) ==> v.code() == value
                && v.is_canonical(),
    {
    }

    /// Encodes this value.
    pub fn to_u8(&self) -> (r: u8)
        ensures
            r == self.code(),
    {
        match *self {
            ConfidentialityAlgorithm::ConfidentialityNone => 0x00,
            ConfidentialityAlgorithm::AesCbc128 => 0x01,
            ConfidentialityAlgorithm::XRc4128 => 0x02,
            ConfidentialityAlgorithm::XRc440 => 0x03,
            ConfidentialityAlgorithm::OEM(value) => value,
        }
    }

    /// Decodes `value`.
    pub fn from_u8(value: u8) -> (r: Result<ConfidentialityAlgorithm, IpmiPayloadError>)
        ensures
            r == ConfidentialityAlgorithm::from_code(value),
    {
        match value {
            0x00 => Ok(ConfidentialityAlgorithm::ConfidentialityNone),
            0x01 => Ok(ConfidentialityAlgorithm::AesCbc128),
            0x02 => Ok(ConfidentialityAlgorithm::XRc4128),
            0x03 => Ok(ConfidentialityAlgorithm::XRc440),
            0x30..=0xFF => Ok(ConfidentialityAlgorithm::OEM(value)),
            _ => Err(IpmiPayloadError::ConfidentialityAlgorithm(
                ConfidentialityAlgorithmError::UnknownConfidentialityAlgorithm(value),
            )),
        }
    }
}

} // verus!
