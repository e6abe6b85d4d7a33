//! The IPMI message in its two forms, and the small fields it is made of.
use crate::err::{IpmiPayloadError, LunError, NetFnError};
use crate::helpers::bits::load_bits;
use crate::parser::ipmi_payload_request::{IpmiPayloadRequest, IpmiPayloadRequestView};
use crate::parser::ipmi_payload_response::{IpmiPayloadResponse, IpmiPayloadResponseView};
use crate::helpers::views::viewed;
use vstd::prelude::*;

verus! {

/// Whether a message asks or answers. The lowest bit of the network
/// function code tells: even asks, odd answers.
#[derive(Clone, Copy, Debug, PartialEq, Eq, Hash)]
pub enum CommandType {
    Request,
    Response,
}

impl CommandType {
    /// The direction that the network function code `value` stands for.
    pub open spec fn from_code(value: u8) -> CommandType {
        if value % 2 == 0 {
            CommandType::Request
        } else {
            CommandType::Response
        }
    }

    /// Tells request from response by the parity of `value`.
    pub fn from_u8(value: u8) -> (r: CommandType)
        ensures
            r == CommandType::from_code(value),
    {
        if value % 2 == 0 {
            CommandType::Request
        } else {
            CommandType::Response
        }
    }
}

/// A network function: the family of commands that a message belongs to.
/// Each family has an even code for requests and the next odd code for
/// responses.
#[derive(Clone, Copy, Debug, PartialEq, Eq, Hash)]
pub enum NetFn {
    Chassis,
    Bridge,
    SensorEvent,
    App,
    Firmware,
    Storage,
    Transport,
    /// The codes 0x0E to 0x2B.
    Reserved,
    /// Any code above 0x2B.
    Unknown(u8),
}

impl NetFn {
    /// The code of this network function in a message of the given
    /// direction.
    pub open spec fn code(self, command_type: CommandType) -> u8 {
        let odd: u8 = if command_type == CommandType::Response {
            1
        } else {
            0
        };
        match self {
            NetFn::Chassis => odd,
            NetFn::Bridge => (0x02 + odd) as u8,
            NetFn::SensorEvent => (0x04 + odd) as u8,
            NetFn::App => (0x06 + odd) as u8,
            NetFn::Firmware => (0x08 + odd) as u8,
            NetFn::Storage => (0x0A + odd) as u8,
            NetFn::Transport => (0x0C + odd) as u8,
            NetFn::Reserved => if odd == 1 {
                0x2B
            } else {
                0x0E
            },
            NetFn::Unknown(fn_code) => fn_code,
        }
    }

    /// The network function that the code `value` stands for.
    pub open spec fn from_code(value: u8) -> NetFn {
        if value <= 0x01 {
            NetFn::Chassis
        } else if value <= 0x03 {
            NetFn::Bridge
        } else if value <= 0x05 {
            NetFn::SensorEvent
        } else if value <= 0x07 {
            NetFn::App
        } else if value <= 0x09 {
            NetFn::Firmware
        } else if value <= 0x0B {
            NetFn::Storage
        } else if value <= 0x0D {
            NetFn::Transport
        } else if value <= 0x2B {
            NetFn::Reserved
        } else {
            NetFn::Unknown(value)
        }
    }

    /// As `from_code`, but refusing what lies above the reserved range.
    pub open spec fn checked_from_code(value: u8) -> Result<NetFn, NetFnError> {
        if value <= 0x2B {
            Ok(NetFn::from_code(value))
        } else {
            Err(NetFnError::UnknownNetFn(value))
        }
    }

    /// Whether this network function, written in a message of the given
    /// direction, fits the six bits it has there and is read back as itself
    /// and in that direction.
    pub open spec fn is_canonical(self, command_type: CommandType) -> bool {
        &&& self.code(command_type) < 64
        &&& NetFn::from_code(self.code(command_type)) == self
        &&& CommandType::from_code(self.code(command_type)) == command_type
    }

    /// The named network functions are canonical in both directions, and
    /// what a six-bit code is read as is canonical in the direction that
    /// the code has.
    pub proof fn lemma_canonical(value: u8)
        requires
            value < 64,
        ensures
            NetFn::from_code(value) != NetFn::Reserved ==> NetFn::from_code(value).code(
                CommandType::from_code(value),
            ) == value && NetFn::from_code(value).is_canonical(CommandType::from_code(value)),
            NetFn::App.is_canonical(CommandType::Request),
            NetFn::App.is_canonical(CommandType::Response),
    {
    }

    /// Decodes a network function code.
    pub fn from_u8(fn_code: u8) -> (r: NetFn)
        ensures
            r == NetFn::from_code(fn_code),
    {
        match fn_code {
            0x00..=0x01 => NetFn::Chassis,
            0x02..=0x03 => NetFn::Bridge,
            0x04..=0x05 => NetFn::SensorEvent,
            0x06..=0x07 => NetFn::App,
            0x08..=0x09 => NetFn::Firmware,
            0x0A..=0x0B => NetFn::Storage,
            0x0C..=0x0D => NetFn::Transport,
            0x0E..=0x2B => NetFn::Reserved,
            _ => NetFn::Unknown(fn_code),
        }
    }

    /// Decodes a network function code, refusing what lies above the
    /// reserved range.
    pub fn checked_from_u8(value: u8) -> (r: Result<NetFn, NetFnError>)
        ensures
            r == NetFn::checked_from_code(value),
    {
        if value <= 0x2B {
            Ok(NetFn::from_u8(value))
        } else {
            Err(NetFnError::UnknownNetFn(value))
        }
    }

    /// Encodes this network function for a message of the given direction.
    pub fn to_u8(&self, command_type: CommandType) -> (r: u8)
        ensures
            r == self.code(command_type),
    {
        let odd: u8 = match command_type {
            CommandType::Request => 0,
            CommandType::Response => 1,
        };
        match *self {
            NetFn::Chassis => odd,
            NetFn::Bridge => 0x02 + odd,
            NetFn::SensorEvent => 0x04 + odd,
            NetFn::App => 0x06 + odd,
            NetFn::Firmware => 0x08 + odd,
            NetFn::Storage => 0x0A + odd,
            NetFn::Transport => 0x0C + odd,
            NetFn::Reserved => match command_type {
                CommandType::Request => 0x0E,
                CommandType::Response => 0x2B,
            },
            NetFn::Unknown(fn_code) => fn_code,
        }
    }
}

/// The logical unit addressed on a device, two bits on the wire.
#[derive(Clone, Copy, Debug, PartialEq, Eq, Hash)]
pub enum Lun {
    Bmc,
    Oem1,
    Sms,
    Oem2,
}

impl Lun {
    /// The number that stands for this value on the wire.
    pub open spec fn code(self) -> u8 {
        match self {
            Lun::Bmc => 0b00,
            Lun::Oem1 => 0b01,
            Lun::Sms => 0b10,
            Lun::Oem2 => 0b11,
        }
    }

    /// The value that `value` stands for.
    pub open spec fn from_code(value: u8) -> Result<Lun, LunError> {
        if value == 0b00 {
            Ok(Lun::Bmc)
        } else if value == 0b01 {
            Ok(Lun::Oem1)
        } else if value == 0b10 {
            Ok(Lun::Sms)
        } else if value == 0b11 {
            Ok(Lun::Oem2)
        } else {
            Err(LunError::UnknownLun(value))
        }
    }

    /// Whether reading back the code of this value gives this value.
    pub open spec fn is_canonical(self) -> bool {
        Lun::from_code(self.code()) == Ok::<Lun, LunError>(self)
    }

    /// Every code that is read successfully is written back unchanged.
    pub proof fn lemma_code_of_from_code(value: u8)
        ensures
            Lun::from_code(value) matches Ok(v) ==> v.code() == value && v.is_canonical(),
    {
    }

    /// Encodes this value.
    pub fn to_u8(&self) -> (r: u8)
        ensures
            r == self.code(),
    {
        match *self {
            Lun::Bmc => 0b00,
            Lun::Oem1 => 0b01,
            Lun::Sms => 0b10,
            Lun::Oem2 => 0b11,
        }
    }

    /// Decodes `value`.
    pub fn from_u8(value: u8) -> (r: Result<Lun, LunError>)
        ensures
            r == Lun::from_code(value),
    {
        match value {
            0b00 => Ok(Lun::Bmc),
            0b01 => Ok(Lun::Oem1),
            0b10 => Ok(Lun::Sms),
            0b11 => Ok(Lun::Oem2),
            _ => Err(LunError::UnknownLun(value)),
        }
    }
}

/// A seven-bit slave address.
#[derive(Clone, Copy, Debug, PartialEq, Eq, Hash)]
pub enum SlaveAddress {
    /// The management controller itself.
    Bmc,
    /// Any other address.
    Unknown(u8),
}

impl SlaveAddress {
    /// The number that stands for this value on the wire.
    pub open spec fn code(self) -> u8 {
        match self {
            SlaveAddress::Bmc => 0x20,
            SlaveAddress::Unknown(value) => value,
        }
    }

    /// The value that `value` stands for.
    pub open spec fn from_code(value: u8) -> SlaveAddress {
        if value == 0x20 {
            SlaveAddress::Bmc
        } else {
            SlaveAddress::Unknown(value)
        }
    }

    /// Whether reading back the code of this value gives this value.
    pub open spec fn is_canonical(self) -> bool {
        SlaveAddress::from_code(self.code()) == self
    }

    /// Every code that is read successfully is written back unchanged.
    pub proof fn lemma_code_of_from_code(value: u8)
        ensures
            SlaveAddress::from_code(value).code() == value,
            SlaveAddress::from_code(value).is_canonical(),
    {
    }

    /// Encodes this value.
    pub fn to_u8(&self) -> (r: u8)
        ensures
            r == self.code(),
    {
        match *self {
            SlaveAddress::Bmc => 0x20,
            SlaveAddress::Unknown(value) => value,
        }
    }

    /// Decodes `value`.
    pub fn from_u8(value: u8) -> (r: SlaveAddress)
        ensures
            r == SlaveAddress::from_code(value),
    {
        match value {
            0x20 => SlaveAddress::Bmc,
            _ => SlaveAddress::Unknown(value),
        }
    }
}

/// What kind of address an address byte holds; its top bit.
#[derive(Clone, Copy, Debug, PartialEq, Eq, Hash)]
pub enum AddrType {
    SlaveAddress,
    SoftwareId,
}

impl AddrType {
    /// The bit that stands for this kind: 0 for a slave address, 1 for a
    /// software id.
    pub open spec fn code(self) -> u8 {
        match self {
            AddrType::SlaveAddress => 0,
            AddrType::SoftwareId => 1,
        }
    }

    /// The kind that the bit `value` stands for.
    pub open spec fn from_flag(value: bool) -> AddrType {
        if value {
            AddrType::SoftwareId
        } else {
            AddrType::SlaveAddress
        }
    }

    /// Decodes the kind bit.
    pub fn from_bool(value: bool) -> (r: AddrType)
        ensures
            r == AddrType::from_flag(value),
            r.code() == (if value {
                1u8
            } else {
                0u8
            }),
    {
        match value {
            false => AddrType::SlaveAddress,
            true => AddrType::SoftwareId,
        }
    }

    /// Encodes the kind bit.
    pub fn to_u8(&self) -> (r: u8)
        ensures
            r == self.code(),
    {
        match self {
            AddrType::SlaveAddress => 0,
            AddrType::SoftwareId => 1,
        }
    }
}

/// A seven-bit software id, by the kind of software it is assigned to.
#[derive(Clone, Copy, Debug, PartialEq, Eq, Hash)]
pub enum SoftwareType {
    /// 0x00 to 0x0F.
    Bios,
    /// 0x10 to 0x1F.
    SmiHandler,
    /// 0x20 to 0x2F.
    SystemManagementSoftware,
    /// 0x30 to 0x3F.
    Oem,
    /// 0x40 to 0x46 are read as remote consoles 1 to 7. The number it
    /// carries is written as it stands.
    RemoteConsoleSoftware(u8),
    /// 0x47.
    TerminalModeRemoteConsole,
    /// Every other id.
    Reserved(u8),
}

impl SoftwareType {
    /// The id that this value is written as.
    pub open spec fn code(self) -> u8 {
        match self {
            SoftwareType::Bios => 0x00,
            SoftwareType::SmiHandler => 0x10,
            SoftwareType::SystemManagementSoftware => 0x20,
            SoftwareType::Oem => 0x30,
            SoftwareType::RemoteConsoleSoftware(a) => a,
            SoftwareType::TerminalModeRemoteConsole => 0x47,
            SoftwareType::Reserved(a) => a,
        }
    }

    /// The value that the id `value` is read as.
    pub open spec fn from_code(value: u8) -> SoftwareType {
        if value <= 0x0F {
            SoftwareType::Bios
        } else if value <= 0x1F {
            SoftwareType::SmiHandler
        } else if value <= 0x2F {
            SoftwareType::SystemManagementSoftware
        } else if value <= 0x3F {
            SoftwareType::Oem
        } else if value <= 0x46 {
            SoftwareType::RemoteConsoleSoftware((value - 0x3F) as u8)
        } else if value == 0x47 {
            SoftwareType::TerminalModeRemoteConsole
        } else {
            SoftwareType::Reserved(value)
        }
    }

    /// Whether reading back the id of this value gives this value. No
    /// remote console is: console `n` is written as `n` and the ids that
    /// are read as consoles start at 0x40.
    pub open spec fn is_canonical(self) -> bool {
        SoftwareType::from_code(self.code()) == self
    }

    /// Decodes a software id.
    pub fn from_u8(value: u8) -> (r: SoftwareType)
        ensures
            r == SoftwareType::from_code(value),
    {
        match value {
            0x00..=0x0F => SoftwareType::Bios,
            0x10..=0x1F => SoftwareType::SmiHandler,
            0x20..=0x2F => SoftwareType::SystemManagementSoftware,
            0x30..=0x3F => SoftwareType::Oem,
            0x40..=0x46 => SoftwareType::RemoteConsoleSoftware(value - 0x3F),
            0x47 => SoftwareType::TerminalModeRemoteConsole,
            _ => SoftwareType::Reserved(value),
        }
    }

    /// Encodes a software id.
    pub fn to_u8(&self) -> (r: u8)
        ensures
            r == self.code(),
    {
        match *self {
            SoftwareType::Bios => 0x00,
            SoftwareType::SmiHandler => 0x10,
            SoftwareType::SystemManagementSoftware => 0x20,
            SoftwareType::Oem => 0x30,
            SoftwareType::RemoteConsoleSoftware(a) => a,
            SoftwareType::TerminalModeRemoteConsole => 0x47,
            SoftwareType::Reserved(a) => a,
        }
    }
}

/// An IPMI message, asking or answering.
#[derive(Clone, Debug, PartialEq, Eq, Hash)]
pub enum IpmiPayload {
    Request(IpmiPayloadRequest),
    Response(IpmiPayloadResponse),
}

/// What an `IpmiPayload` holds, with its data as a sequence.
pub enum IpmiPayloadView {
    Request(IpmiPayloadRequestView),
    Response(IpmiPayloadResponseView),
}

impl View for IpmiPayload {
    type V = IpmiPayloadView;

    open spec fn view(&self) -> IpmiPayloadView {
        match self {
            IpmiPayload::Request(p) => IpmiPayloadView::Request(p@),
            IpmiPayload::Response(p) => IpmiPayloadView::Response(p@),
        }
    }
}

impl IpmiPayloadView {
    /// Whether the message is one that its own bytes spell.
    pub open spec fn wf(self) -> bool {
        match self {
            IpmiPayloadView::Request(p) => p.wf(),
            IpmiPayloadView::Response(p) => p.wf(),
        }
    }

    /// The bytes of this message.
    pub open spec fn spec_bytes(self) -> Seq<u8> {
        match self {
            IpmiPayloadView::Request(p) => p.spec_bytes(),
            IpmiPayloadView::Response(p) => p.spec_bytes(),
        }
    }

    /// The message that `s` spells: a request where the network function
    /// code in the top six bits of the second byte is even, a response
    /// where it is odd.
    pub open spec fn parse(s: Seq<u8>) -> Result<IpmiPayloadView, IpmiPayloadError> {
        if s.len() < 7 {
            Err(IpmiPayloadError::WrongLength)
        } else if CommandType::from_code((s[1] / 4) as u8) == CommandType::Request {
            match IpmiPayloadRequestView::parse(s) {
                Ok(p) => Ok(IpmiPayloadView::Request(p)),
                Err(e) => Err(e),
            }
        } else {
            match IpmiPayloadResponseView::parse(s) {
                Ok(p) => Ok(IpmiPayloadView::Response(p)),
                Err(e) => Err(e),
            }
        }
    }

    /// Parsing the bytes of a well-formed message gives the message back.
    pub proof fn lemma_parse_of_bytes(p: IpmiPayloadView)
        requires
            p.wf(),
        ensures
            IpmiPayloadView::parse(p.spec_bytes()) == Ok::<IpmiPayloadView, IpmiPayloadError>(p),
    {
        match p {
            IpmiPayloadView::Request(q) => {
                IpmiPayloadRequestView::lemma_parse_of_bytes(q);
            },
            IpmiPayloadView::Response(q) => {
                IpmiPayloadResponseView::lemma_parse_of_bytes(q);
            },
        }
    }
}

impl IpmiPayload {
    /// The longest message that a v1.5 header can announce.
    pub const PAYLOAD_MAX_LEN: usize = 0xff;

    /// Reads a message of either direction.
    pub fn from_slice(value: &[u8]) -> (r: Result<IpmiPayload, IpmiPayloadError>)
        ensures
            viewed(r) == IpmiPayloadView::parse(value@),
    {
        if value.len() < 7 {
            return Err(IpmiPayloadError::WrongLength);
        }
        let netfn: u8 = load_bits(value[1], 0, 6);
        match CommandType::from_u8(netfn) {
            CommandType::Request => match IpmiPayloadRequest::from_slice(value) {
                Ok(p) => Ok(IpmiPayload::Request(p)),
                Err(e) => Err(e),
            },
            CommandType::Response => match IpmiPayloadResponse::from_slice(value) {
                Ok(p) => Ok(IpmiPayload::Response(p)),
                Err(e) => Err(e),
            },
        }
    }

    /// Writes this message.
    pub fn to_bytes(&self) -> (r: Vec<u8>)
        ensures
            r@ == self@.spec_bytes(),
    {
        match self {
            IpmiPayload::Request(payload) => payload.to_bytes(),
            IpmiPayload::Response(payload) => payload.to_bytes(),
        }
    }
}

} // verus!
