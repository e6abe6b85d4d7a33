//! The IPMI response message.
use crate::commands::command::Command;
use crate::err::{IpmiPayloadError, IpmiPayloadRequestError};
use crate::helpers::bits::load_bits;
use crate::helpers::bytes::append_bytes;
use crate::helpers::utils::{
    byte_sum, checksum, get8bit_checksum, join_two_bits_to_byte, lemma_checksum_closes,
};
use crate::parser::ipmi_payload::{AddrType, CommandType, Lun, NetFn, SlaveAddress, SoftwareType};
use crate::helpers::views::{optional_bytes, optional_view, viewed};
use vstd::prelude::*;
use vstd::slice::{slice_subrange, slice_to_vec};

verus! {

/// An address byte: the kind of address in the top bit, the address in
/// the seven bits below.
#[derive(Clone, Copy, Debug, PartialEq, Eq, Hash)]
pub enum Address {
    Slave(SlaveAddress),
    Software(SoftwareType),
}

impl Address {
    /// The byte that this address is written as. Only the low seven bits of
    /// the inner address have room.
    pub open spec fn code(self) -> u8 {
        match self {
            Address::Slave(s) => (s.code() % 128) as u8,
            Address::Software(s) => (128 + s.code() % 128) as u8,
        }
    }

    /// The address that the byte `value` is read as.
    pub open spec fn from_code(value: u8) -> Address {
        if value >= 128 {
            Address::Software(SoftwareType::from_code((value % 128) as u8))
        } else {
            Address::Slave(SlaveAddress::from_code(value))
        }
    }

    /// Whether reading back the byte of this address gives this address.
    pub open spec fn is_canonical(self) -> bool {
        Address::from_code(self.code()) == self
    }

    /// The kind of this address.
    pub open spec fn kind(self) -> AddrType {
        match self {
            Address::Slave(_) => AddrType::SlaveAddress,
            Address::Software(_) => AddrType::SoftwareId,
        }
    }

    /// The slave address, if this is one.
    pub open spec fn slave(self) -> Option<SlaveAddress> {
        match self {
            Address::Slave(s) => Some(s),
            Address::Software(_) => None,
        }
    }

    /// The software id, if this is one.
    pub open spec fn software(self) -> Option<SoftwareType> {
        match self {
            Address::Slave(_) => None,
            Address::Software(s) => Some(s),
        }
    }

    /// The management controller is written as 0x20 and remote console 1
    /// as 0x81. Every slave address byte is read as an address that is
    /// written back as that byte. Software ids are read by range, so a
    /// software address is canonical only where its id is the one that its
    /// range is written as.
    pub proof fn lemma_canonical(value: u8)
        ensures
            Address::Slave(SlaveAddress::Bmc).is_canonical(),
            Address::Slave(SlaveAddress::Bmc).code() == 0x20,
            Address::Software(SoftwareType::RemoteConsoleSoftware(1)).code() == 0x81,
            !Address::Software(SoftwareType::RemoteConsoleSoftware(1)).is_canonical(),
            value < 128 ==> Address::from_code(value).code() == value && Address::from_code(
                value,
            ).is_canonical(),
    {
    }

    /// Decodes an address byte.
    pub fn from_u8(value: u8) -> (r: Address)
        ensures
            r == Address::from_code(value),
    {
        let kind: AddrType = AddrType::from_bool(load_bits(value, 0, 1) == 1);
        let low: u8 = load_bits(value, 1, 8);
        match kind {
            AddrType::SlaveAddress => Address::Slave(SlaveAddress::from_u8(low)),
            AddrType::SoftwareId => Address::Software(SoftwareType::from_u8(low)),
        }
    }

    /// Encodes an address byte.
    pub fn to_u8(&self) -> (r: u8)
        ensures
            r == self.code(),
    {
        match self {
            Address::Slave(s) => join_two_bits_to_byte(AddrType::SlaveAddress.to_u8(), s.to_u8(), 1),
            Address::Software(s) => join_two_bits_to_byte(
                AddrType::SoftwareId.to_u8(),
                s.to_u8(),
                1,
            ),
        }
    }
}

/// The outcome byte of a response. Only `CompletedNormally` means success; the rest is data for the caller.
#[derive(Clone, Copy, Debug, PartialEq, Eq, Hash, Structural)]
pub enum CompletionCode {
    CompletedNormally,
    NodeBusy,
    InvalidCommand,
    InvalidCommandForLun,
    Timeout,
    OutOfSpace,
    ReservationCancelled,
    RequestDataTruncated,
    RequestDataLengthInvalid,
    RequestDataFieldLengthLimitExceeded,
    ParameterOutOfRange,
    CannotReturnNumberOfRqDataBytes,
    RqSensorDataRecordNotPresent,
    InvalidDataFieldInRequest,
    CommandIllegalForSensor,
    CommandResponseNotProvided,
    CantExecuteDuplicateRq,
    FailedSDRUpdateMode,
    FailedDevFirmwareMode,
    FailedInitInProgress,
    DestinationUnavailable,
    CannotExecuteCommandInsuffientPrivileges,
    CommandSubFunctionUnavailable,
    CannotExecuteCommandIllegalParam,
    UnspecifiedError,
    /// A device-specific code, 0x01 to 0x7E.
    OEM(u8),
    /// A command-specific code, 0x80 to 0xBE.
    CommandCode(u8),
    /// Every other code.
    Reserved(u8),
}

impl CompletionCode {
    /// The number that stands for this value on the wire.
    pub open spec fn code(self) -> u8 {
        match self {
            CompletionCode::CompletedNormally => 0x00,
            CompletionCode::NodeBusy => 0xc0,
            CompletionCode::InvalidCommand => 0xc1,
            CompletionCode::InvalidCommandForLun => 0xc2,
            CompletionCode::Timeout => 0xc3,
            CompletionCode::OutOfSpace => 0xc4,
            CompletionCode::ReservationCancelled => 0xc5,
            CompletionCode::RequestDataTruncated => 0xc6,
            CompletionCode::RequestDataLengthInvalid => 0xc7,
            CompletionCode::RequestDataFieldLengthLimitExceeded => 0xc8,
            CompletionCode::ParameterOutOfRange => 0xc9,
            CompletionCode::CannotReturnNumberOfRqDataBytes => 0xca,
            CompletionCode::RqSensorDataRecordNotPresent => 0xcb,
            CompletionCode::InvalidDataFieldInRequest => 0xcc,
            CompletionCode::CommandIllegalForSensor => 0xcd,
            CompletionCode::CommandResponseNotProvided => 0xce,
            CompletionCode::CantExecuteDuplicateRq => 0xcf,
            CompletionCode::FailedSDRUpdateMode => 0xd0,
            CompletionCode::FailedDevFirmwareMode => 0xd1,
            CompletionCode::FailedInitInProgress => 0xd2,
            CompletionCode::DestinationUnavailable => 0xd3,
            CompletionCode::CannotExecuteCommandInsuffientPrivileges => 0xd4,
            CompletionCode::CommandSubFunctionUnavailable => 0xd5,
            CompletionCode::CannotExecuteCommandIllegalParam => 0xd6,
            CompletionCode::UnspecifiedError => 0xff,
            CompletionCode::OEM(value) => value,
            CompletionCode::CommandCode(value) => value,
            CompletionCode::Reserved(value) => value,
        }
    }

    /// The value that `value` stands for.
    pub open spec fn from_code(value: u8) -> CompletionCode {
        if value == 0x00 {
            CompletionCode::CompletedNormally
        } else if value == 0xc0 {
            CompletionCode::NodeBusy
        } else if value == 0xc1 {
            CompletionCode::InvalidCommand
        } else if value == 0xc2 {
            CompletionCode::InvalidCommandForLun
        } else if value == 0xc3 {
            CompletionCode::Timeout
        } else if value == 0xc4 {
            CompletionCode::OutOfSpace
        } else if value == 0xc5 {
            CompletionCode::ReservationCancelled
        } else if value == 0xc6 {
            CompletionCode::RequestDataTruncated
        } else if value == 0xc7 {
            CompletionCode::RequestDataLengthInvalid
        } else if value == 0xc8 {
            CompletionCode::RequestDataFieldLengthLimitExceeded
        } else if value == 0xc9 {
            CompletionCode::ParameterOutOfRange
        } else if value == 0xca {
            CompletionCode::CannotReturnNumberOfRqDataBytes
        } else if value == 0xcb {
            CompletionCode::RqSensorDataRecordNotPresent
        } else if value == 0xcc {
            CompletionCode::InvalidDataFieldInRequest
        } else if value == 0xcd {
            CompletionCode::CommandIllegalForSensor
        } else if value == 0xce {
            CompletionCode::CommandResponseNotProvided
        } else if value == 0xcf {
            CompletionCode::CantExecuteDuplicateRq
        } else if value == 0xd0 {
            CompletionCode::FailedSDRUpdateMode
        } else if value == 0xd1 {
            CompletionCode::FailedDevFirmwareMode
        } else if value == 0xd2 {
            CompletionCode::FailedInitInProgress
        } else if value == 0xd3 {
            CompletionCode::DestinationUnavailable
        } else if value == 0xd4 {
            CompletionCode::CannotExecuteCommandInsuffientPrivileges
        } else if value == 0xd5 {
            CompletionCode::CommandSubFunctionUnavailable
        } else if value == 0xd6 {
            CompletionCode::CannotExecuteCommandIllegalParam
        } else if value == 0xff {
            CompletionCode::UnspecifiedError
        } else if 0x01 <= value && value <= 0x7e {
            CompletionCode::OEM(value)
        } else if 0x80 <= value && value <= 0xbe {
            CompletionCode::CommandCode(value)
        } else {
            CompletionCode::Reserved(value)
        }
    }

    /// Whether reading back the code of this value gives this value.
    pub open spec fn is_canonical(self) -> bool {
        CompletionCode::from_code(self.code()) == self
    }

    /// Every code that is read successfully is written back unchanged.
    pub proof fn lemma_code_of_from_code(value: u8)
        ensures
            CompletionCode::from_code(value).code() == value,
            CompletionCode::from_code(value).is_canonical(),
    {
    }

    /// Encodes this value.
    pub fn to_u8(&self) -> (r: u8)
        ensures
            r == self.code(),
    {
        match *self {
            CompletionCode::CompletedNormally => 0x00,
            CompletionCode::NodeBusy => 0xc0,
            CompletionCode::InvalidCommand => 0xc1,
            CompletionCode::InvalidCommandForLun => 0xc2,
            CompletionCode::Timeout => 0xc3,
            CompletionCode::OutOfSpace => 0xc4,
            CompletionCode::ReservationCancelled => 0xc5,
            CompletionCode::RequestDataTruncated => 0xc6,
            CompletionCode::RequestDataLengthInvalid => 0xc7,
            CompletionCode::RequestDataFieldLengthLimitExceeded => 0xc8,
            CompletionCode::ParameterOutOfRange => 0xc9,
            CompletionCode::CannotReturnNumberOfRqDataBytes => 0xca,
            CompletionCode::RqSensorDataRecordNotPresent => 0xcb,
            CompletionCode::InvalidDataFieldInRequest => 0xcc,
            CompletionCode::CommandIllegalForSensor => 0xcd,
            CompletionCode::CommandResponseNotProvided => 0xce,
            CompletionCode::CantExecuteDuplicateRq => 0xcf,
            CompletionCode::FailedSDRUpdateMode => 0xd0,
            CompletionCode::FailedDevFirmwareMode => 0xd1,
            CompletionCode::FailedInitInProgress => 0xd2,
            CompletionCode::DestinationUnavailable => 0xd3,
            CompletionCode::CannotExecuteCommandInsuffientPrivileges => 0xd4,
            CompletionCode::CommandSubFunctionUnavailable => 0xd5,
            CompletionCode::CannotExecuteCommandIllegalParam => 0xd6,
            CompletionCode::UnspecifiedError => 0xff,
            CompletionCode::OEM(value) => value,
            CompletionCode::CommandCode(value) => value,
            CompletionCode::Reserved(value) => value,
        }
    }

    /// Decodes `value`.
    pub fn from_u8(value: u8) -> (r: CompletionCode)
        ensures
            r == CompletionCode::from_code(value),
    {
        match value {
            0x00 => CompletionCode::CompletedNormally,
            0xc0 => CompletionCode::NodeBusy,
            0xc1 => CompletionCode::InvalidCommand,
            0xc2 => CompletionCode::InvalidCommandForLun,
            0xc3 => CompletionCode::Timeout,
            0xc4 => CompletionCode::OutOfSpace,
            0xc5 => CompletionCode::ReservationCancelled,
            0xc6 => CompletionCode::RequestDataTruncated,
            0xc7 => CompletionCode::RequestDataLengthInvalid,
            0xc8 => CompletionCode::RequestDataFieldLengthLimitExceeded,
            0xc9 => CompletionCode::ParameterOutOfRange,
            0xca => CompletionCode::CannotReturnNumberOfRqDataBytes,
            0xcb => CompletionCode::RqSensorDataRecordNotPresent,
            0xcc => CompletionCode::InvalidDataFieldInRequest,
            0xcd => CompletionCode::CommandIllegalForSensor,
            0xce => CompletionCode::CommandResponseNotProvided,
            0xcf => CompletionCode::CantExecuteDuplicateRq,
            0xd0 => CompletionCode::FailedSDRUpdateMode,
            0xd1 => CompletionCode::FailedDevFirmwareMode,
            0xd2 => CompletionCode::FailedInitInProgress,
            0xd3 => CompletionCode::DestinationUnavailable,
            0xd4 => CompletionCode::CannotExecuteCommandInsuffientPrivileges,
            0xd5 => CompletionCode::CommandSubFunctionUnavailable,
            0xd6 => CompletionCode::CannotExecuteCommandIllegalParam,
            0xff => CompletionCode::UnspecifiedError,
            0x01..=0x7e => CompletionCode::OEM(value),
            0x80..=0xbe => CompletionCode::CommandCode(value),
            _ => CompletionCode::Reserved(value),
        }
    }
}

/// An IPMI response:
/// `[rq_addr][netfn, rq_lun][checksum][rs_addr][rq_seq, rs_lun][command]`
/// `[completion code][data..][checksum]`.
/// The first checksum covers the two bytes before it, the second everything
/// from the responder address to the last data byte.
#[derive(Clone, Debug, PartialEq, Eq, Hash)]
pub struct IpmiPayloadResponse {
    /// The device that asked.
    pub rq_addr: Address,
    pub net_fn: NetFn,
    pub rq_lun: Lun,
    /// The device that answers.
    pub rs_addr: Address,
    /// Six bits on the wire.
    pub rq_sequence: u8,
    pub rs_lun: Lun,
    pub command: Command,
    pub completion_code: CompletionCode,
    /// `None` where no data bytes follow the command.
    pub data: Option<Vec<u8>>,
}

/// What an `IpmiPayloadResponse` holds, with its data as a sequence.
pub struct IpmiPayloadResponseView {
    pub rq_addr: Address,
    pub net_fn: NetFn,
    pub rq_lun: Lun,
    pub rs_addr: Address,
    pub rq_sequence: u8,
    pub rs_lun: Lun,
    pub command: Command,
    pub completion_code: CompletionCode,
    pub data: Option<Seq<u8>>,
}

impl View for IpmiPayloadResponse {
    type V = IpmiPayloadResponseView;

    open spec fn view(&self) -> IpmiPayloadResponseView {
        IpmiPayloadResponseView {
            rq_addr: self.rq_addr,
            net_fn: self.net_fn,
            rq_lun: self.rq_lun,
            rs_addr: self.rs_addr,
            rq_sequence: self.rq_sequence,
            rs_lun: self.rs_lun,
            command: self.command,
            completion_code: self.completion_code,
            data: optional_view(self.data),
        }
    }
}

impl IpmiPayloadResponseView {
    /// Every field is one that its own code is read back as, the sequence
    /// number fits its six bits, and data that is present is not empty.
    pub open spec fn wf(self) -> bool {
        &&& self.rq_addr.is_canonical()
        &&& self.rs_addr.is_canonical()
        &&& self.net_fn.is_canonical(CommandType::Response)
        &&& self.rq_sequence < 64
        &&& self.command.is_canonical(self.net_fn)
        &&& self.completion_code.is_canonical()
        &&& (self.data matches Some(d) ==> d.len() > 0)
    }

    /// The two bytes that the first checksum covers: the requester address,
    /// then the network function in the top six bits with the requester LUN
    /// below it.
    pub open spec fn head_bytes(self) -> Seq<u8> {
        seq![
            self.rq_addr.code(),
            ((self.net_fn.code(CommandType::Response) % 64) * 4 + self.rq_lun.code()) as u8,
        ]
    }

    /// The bytes that the second checksum covers: the responder address, the
    /// sequence number in the top six bits with the responder LUN below it,
    /// the command, the completion code and the data.
    pub open spec fn body_bytes(self) -> Seq<u8> {
        seq![
            self.rs_addr.code(),
            ((self.rq_sequence % 64) * 4 + self.rs_lun.code()) as u8,
            self.command.code(), self.completion_code.code(),
        ] + optional_bytes(self.data)
    }

    /// The bytes of this message.
    pub open spec fn spec_bytes(self) -> Seq<u8> {
        self.head_bytes() + seq![checksum(self.head_bytes())] + self.body_bytes() + seq![
            checksum(self.body_bytes()),
        ]
    }

    /// The message that `s` spells. Both checksums must close their ranges.
    pub open spec fn parse(s: Seq<u8>) -> Result<IpmiPayloadResponseView, IpmiPayloadError> {
        if s.len() < 8 {
            Err(IpmiPayloadError::PayloadRequestError(IpmiPayloadRequestError::WrongLength))
        } else if s[2] != checksum(s.subrange(0, 2)) || s[s.len() - 1] != checksum(
            s.subrange(3, s.len() - 1),
        ) {
            Err(IpmiPayloadError::BadChecksum)
        } else {
            let net_fn = NetFn::from_code((s[1] / 4) as u8);
            match (Lun::from_code((s[1] % 4) as u8), Lun::from_code((s[4] % 4) as u8)) {
                (Ok(rq_lun), Ok(rs_lun)) => Ok(
                    IpmiPayloadResponseView {
                        rq_addr: Address::from_code(s[0]),
                        net_fn,
                        rq_lun,
                        rs_addr: Address::from_code(s[3]),
                        rq_sequence: (s[4] / 4) as u8,
                        rs_lun,
                        command: Command::from_code_and_netfn(s[5], net_fn),
                        completion_code: CompletionCode::from_code(s[6]),
                        data: if s.len() == 8 {
                            None
                        } else {
                            Some(s.subrange(7, s.len() - 1))
                        },
                    },
                ),
                (Err(e), _) => Err(IpmiPayloadError::Lun(e)),
                (_, Err(e)) => Err(IpmiPayloadError::Lun(e)),
            }
        }
    }

    /// The number of bytes that this message takes on the wire.
    pub open spec fn spec_len(self) -> nat {
        optional_bytes(self.data).len() + 8
    }

    /// Parsing the bytes of a well-formed response gives the response back, and
    /// in those bytes both checksums close their ranges: each range summed
    /// with its checksum is zero modulo 256.
    pub proof fn lemma_parse_of_bytes(p: IpmiPayloadResponseView)
        requires
            p.wf(),
        ensures
            p.spec_bytes().len() == p.spec_len(),
            IpmiPayloadResponseView::parse(p.spec_bytes()) == Ok::<
                IpmiPayloadResponseView,
                IpmiPayloadError,
            >(p),
            CommandType::from_code((p.spec_bytes()[1] / 4) as u8) == CommandType::Response,
            byte_sum(p.spec_bytes().subrange(0, 3)) % 256 == 0,
            byte_sum(p.spec_bytes().subrange(3, p.spec_bytes().len() as int)) % 256 == 0,
    {
        let s = p.spec_bytes();
        let head = p.head_bytes();
        let body = p.body_bytes();
        assert(s.subrange(0, 2) =~= head);
        assert(s.subrange(3, s.len() - 1) =~= body);
        assert(s.subrange(0, 3) =~= head.push(checksum(head)));
        assert(s.subrange(3, s.len() as int) =~= body.push(checksum(body)));
        lemma_checksum_closes(head);
        lemma_checksum_closes(body);
        CompletionCode::lemma_code_of_from_code(p.completion_code.code());
        match p.data {
            Some(d) => {
                assert(s.subrange(7, s.len() - 1) =~= d);
            },
            None => {},
        }
    }
}

impl IpmiPayloadResponse {
    /// The number of bytes that this message takes on the wire.
    pub fn payload_length(&self) -> (r: usize)
        requires
            self@.spec_len() <= usize::MAX,
        ensures
            r == self@.spec_len(),
    {
        match &self.data {
            Some(d) => d.len() + 8,
            None => 8,
        }
    }

    /// Reads a response.
    pub fn from_slice(value: &[u8]) -> (r: Result<IpmiPayloadResponse, IpmiPayloadError>)
        ensures
            viewed(r) == IpmiPayloadResponseView::parse(value@),
    {
        let len: usize = value.len();
        if len < 8 {
            return Err(IpmiPayloadError::PayloadRequestError(IpmiPayloadRequestError::WrongLength));
        }
        if value[2] != get8bit_checksum(slice_subrange(value, 0, 2)) || value[len - 1]
            != get8bit_checksum(slice_subrange(value, 3, len - 1)) {
            return Err(IpmiPayloadError::BadChecksum);
        }
        let net_fn: NetFn = NetFn::from_u8(load_bits(value[1], 0, 6));
        let rq_lun: Lun = match Lun::from_u8(load_bits(value[1], 6, 8)) {
            Ok(l) => l,
            Err(e) => {
                return Err(IpmiPayloadError::Lun(e));
            },
        };
        let rs_lun: Lun = match Lun::from_u8(load_bits(value[4], 6, 8)) {
            Ok(l) => l,
            Err(e) => {
                return Err(IpmiPayloadError::Lun(e));
            },
        };
        let data: Option<Vec<u8>> = if len == 8 {
            None
        } else {
            Some(slice_to_vec(slice_subrange(value, 7, len - 1)))
        };
        Ok(
            IpmiPayloadResponse {
                rq_addr: Address::from_u8(value[0]),
                net_fn,
                rq_lun,
                rs_addr: Address::from_u8(value[3]),
                rq_sequence: load_bits(value[4], 0, 6),
                rs_lun,
                command: Command::from_u8_and_netfn(value[5], net_fn),
                completion_code: CompletionCode::from_u8(value[6]),
                data,
            },
        )
    }

    /// Writes this response, with both checksums.
    pub fn to_bytes(&self) -> (r: Vec<u8>)
        ensures
            r@ == self@.spec_bytes(),
    {
        let mut r: Vec<u8> = Vec::new();
        r.push(self.rq_addr.to_u8());
        r.push(join_two_bits_to_byte(self.net_fn.to_u8(CommandType::Response), self.rq_lun.to_u8(), 6));
        let first: u8 = get8bit_checksum(r.as_slice());
        assert(r@ =~= self@.head_bytes());
        r.push(first);
        r.push(self.rs_addr.to_u8());
        r.push(join_two_bits_to_byte(self.rq_sequence, self.rs_lun.to_u8(), 6));
        r.push(self.command.to_u8());
        r.push(self.completion_code.to_u8());
        match &self.data {
            Some(data) => {
                append_bytes(&mut r, data.as_slice());
            },
            None => {},
        }
        assert(r@.subrange(3, r@.len() as int) =~= self@.body_bytes());
        let second: u8 = get8bit_checksum(slice_subrange(r.as_slice(), 3, r.len()));
        r.push(second);
        assert(r@ =~= self@.spec_bytes());
        r
    }
}

} // verus!
