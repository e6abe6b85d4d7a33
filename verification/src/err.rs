//! Everything that can go wrong while framing, parsing or negotiating.
use crate::parser::rmcp_open_session::StatusCode;
use vstd::prelude::*;

verus! {

/// A network function code outside the assigned and reserved ranges.
#[derive(Clone, Copy, Debug, PartialEq, Eq, Hash)]
pub enum NetFnError {
    UnknownNetFn(u8),
}

/// A command code that the addressed network function does not define.
#[derive(Clone, Copy, Debug, PartialEq, Eq, Hash)]
pub enum CommandError {
    UnknownCommandCode(u8),
}

/// A logical unit number that does not fit in two bits.
#[derive(Clone, Copy, Debug, PartialEq, Eq, Hash)]
pub enum LunError {
    UnknownLun(u8),
}

/// A privilege level code above the OEM level.
#[derive(Clone, Copy, Debug, PartialEq, Eq, Hash)]
pub enum PrivilegeError {
    UnknownPrivilege(u8),
}

/// An authentication algorithm number in the unassigned range.
#[derive(Clone, Copy, Debug, PartialEq, Eq, Hash)]
pub enum AuthAlgorithmError {
    UnknownAuthAlgorithm(u8),
}

/// An integrity algorithm number in the unassigned range.
#[derive(Clone, Copy, Debug, PartialEq, Eq, Hash)]
pub enum IntegrityAlgorithmError {
    UnknownIntegrityAlgorithm(u8),
}

/// A confidentiality algorithm number in the unassigned range.
#[derive(Clone, Copy, Debug, PartialEq, Eq, Hash)]
pub enum ConfidentialityAlgorithmError {
    UnknownConfidentialityAlgorithm(u8),
}

/// Failures of the RMCP header parser.
#[derive(Clone, Copy, Debug, PartialEq, Eq, Hash)]
pub enum RMCPHeaderError {
    WrongLength,
    FailedToParse,
    UnsupportedMessageClass(u8),
}

/// Failures while decoding a sub-field of a payload.
#[derive(Clone, Copy, Debug, PartialEq, Eq, Hash)]
pub enum ParseError {
    WrongLength,
    FailedToParse,
    UnsupportedMessageClass(u8),
    NetFn(NetFnError),
    Lun(LunError),
    Command(CommandError),
    Privilege(PrivilegeError),
    AuthAlgorithm(AuthAlgorithmError),
}

/// Failures of the IPMI v2.0 session header parser.
#[derive(Clone, Copy, Debug, PartialEq, Eq, Hash)]
pub enum IpmiV2HeaderError {
    WrongLength,
    UnsupportedPayloadType(u8),
}

/// Failures of the IPMI v1.5 session header parser.
#[derive(Clone, Copy, Debug, PartialEq, Eq, Hash)]
pub enum IpmiV1HeaderError {
    WrongLength,
}

/// Failures of the session header parser, whichever version it meets.
#[derive(Clone, Copy, Debug, PartialEq, Eq, Hash)]
pub enum IpmiHeaderError {
    WrongLength,
    V2Error(IpmiV2HeaderError),
    V1_5Error(IpmiV1HeaderError),
    UnsupportedAuthType(u8),
}

/// Failures of the IPMI message parser proper.
#[derive(Clone, Copy, Debug, PartialEq, Eq, Hash)]
pub enum IpmiPayloadRequestError {
    WrongLength,
    UnsupportedPayloadType(u8),
    Parse(ParseError),
}

/// Failures while decoding any payload that follows a session header.
#[derive(Clone, Copy, Debug, PartialEq, Eq, Hash)]
pub enum IpmiPayloadError {
    WrongLength,
    BadChecksum,
    PayloadRequestError(IpmiPayloadRequestError),
    UnsupportedAuthType(u8),
    NetFn(NetFnError),
    Lun(LunError),
    Command(CommandError),
    Privilege(PrivilegeError),
    Parse(ParseError),
    AuthAlgorithm(AuthAlgorithmError),
    IntegrityAlgorithm(IntegrityAlgorithmError),
    ConfidentialityAlgorithm(ConfidentialityAlgorithmError),
}

/// Failures while decoding a whole datagram.
#[derive(Clone, Copy, Debug, PartialEq, Eq, Hash)]
pub enum PacketError {
    WrongLength,
    FailedToParse,
    RMCP(RMCPHeaderError),
    IPMI(IpmiHeaderError),
    IPMIPayload(IpmiPayloadError),
}

/// Failures of the session engine. Failures of the transport belong to
/// whoever owns the socket.
#[derive(Clone, Copy, Debug, PartialEq, Eq, Hash)]
pub enum IPMIClientError {
    /// An answer of a kind that is not awaited.
    MisformedResponse,
    /// The channel speaks IPMI v1.5 only.
    UnsupportedVersion,
    /// The managed system answered the session set-up with an error status.
    FailedToOpenSession(StatusCode),
    /// A datagram could not be read.
    PacketError(PacketError),
    /// The check value of RAKP message 4 is not the one the keys give.
    MismatchedKeyExchangeAuthCode,
    /// The code of RAKP message 2 is not the one the password gives.
    FailedToValidateRAKP2,
    /// The user name does not fit the length byte of the key exchange.
    UsernameOver255InLength,
    /// A request was asked for before the session stood.
    SessionNotEstablishedYet,
}

} // verus!
