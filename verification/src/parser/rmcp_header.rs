//! The four-byte RMCP frame header.
use crate::err::RMCPHeaderError;
use crate::helpers::bits::{load_bits, store_bits};
use vstd::prelude::*;

verus! {

/// The class of message that an RMCP frame carries.
#[derive(Clone, Copy, Debug, PartialEq, Eq, Hash)]
pub enum MessageClass {
    ASF,
    IPMI,
    OEM,
}

impl MessageClass {
    /// The number that stands for this value on the wire.
    pub open spec fn code(self) -> u8 {
        match self {
            MessageClass::ASF => 6,
            MessageClass::IPMI => 7,
            MessageClass::OEM => 8,
        }
    }

    /// The value that `value` stands for.
    pub open spec fn from_code(value: u8) -> Result<MessageClass, RMCPHeaderError> {
        if value == 6 {
            Ok(MessageClass::ASF)
        } else if value == 7 {
            Ok(MessageClass::IPMI)
        } else if value == 8 {
            Ok(MessageClass::OEM)
        } else {
            Err(RMCPHeaderError::UnsupportedMessageClass(value))
        }
    }

    /// Whether reading back the code of this value gives this value.
    pub open spec fn is_canonical(self) -> bool {
        MessageClass::from_code(self.code()) == Ok::<MessageClass, RMCPHeaderError>(self)
    }

    /// Every code that is read successfully is written back unchanged.
    pub proof fn lemma_code_of_from_code(value: u8)
        ensures
            MessageClass::from_code(value) matches Ok(v) ==> v.code() == value && v.is_canonical(),
    {
    }

    /// Encodes this value.
    pub fn to_u8(&self) -> (r: u8)
        ensures
            r == self.code(),
    {
        match *self {
            MessageClass::ASF => 6,
            MessageClass::IPMI => 7,
            MessageClass::OEM => 8,
        }
    }

    /// Decodes `value`.
    pub fn from_u8(value: u8) -> (r: Result<MessageClass, RMCPHeaderError>)
        ensures
            r == MessageClass::from_code(value),
    {
        match value {
            6 => Ok(MessageClass::ASF),
            7 => Ok(MessageClass::IPMI),
            8 => Ok(MessageClass::OEM),
            _ => Err(RMCPHeaderError::UnsupportedMessageClass(value)),
        }
    }
}

/// The outer frame of every datagram: version, sequence number, message
/// class and the acknowledge flag.
#[derive(Clone, Copy, Debug, PartialEq, Eq, Hash)]
pub struct RmcpHeader {
    /// 0x06 for RMCP version 1.0.
    pub version: u8,
    /// Written as 0x00.
    pub reserved: u8,
    /// 0xFF where no acknowledge is wanted, 0 to 254 otherwise.
    pub sequence_number: u8,
    pub rmcp_ack: bool,
    pub message_class: MessageClass,
}

impl RmcpHeader {
    /// The four bytes of this header. The last one carries the acknowledge
    /// flag in its top bit and the message class in its low four bits.
    pub open spec fn spec_bytes(self) -> Seq<u8> {
        seq![
            self.version,
            self.reserved,
            self.sequence_number,
            ((if self.rmcp_ack {
                128int
            } else {
                0int
            }) + self.message_class.code()) as u8,
        ]
    }

    /// The header that the first four bytes of `s` spell.
    pub open spec fn parse(s: Seq<u8>) -> Result<RmcpHeader, RMCPHeaderError> {
        if s.len() < 4 {
            Err(RMCPHeaderError::WrongLength)
        } else {
            match MessageClass::from_code((s[3] % 16) as u8) {
                Ok(message_class) => Ok(
                    RmcpHeader {
                        version: s[0],
                        reserved: s[1],
                        sequence_number: s[2],
                        rmcp_ack: s[3] >= 128,
                        message_class,
                    },
                ),
                Err(e) => Err(e),
            }
        }
    }

    /// Parsing the bytes of a header gives the header back.
    pub proof fn lemma_parse_of_bytes(h: RmcpHeader)
        ensures
            h.spec_bytes().len() == 4,
            RmcpHeader::parse(h.spec_bytes()) == Ok::<RmcpHeader, RMCPHeaderError>(h),
    {
    }

    /// A header without acknowledge and with the reserved byte cleared.
    pub fn new(version: u8, sequence_number: u8, message_class: MessageClass) -> (r: RmcpHeader)
        ensures
            r == (RmcpHeader {
                version,
                reserved: 0x00,
                sequence_number,
                rmcp_ack: false,
                message_class,
            }),
    {
        RmcpHeader { version, reserved: 0x00, sequence_number, rmcp_ack: false, message_class }
    }

    /// Reads a header from the first four bytes of `value`.
    pub fn from_slice(value: &[u8]) -> (r: Result<RmcpHeader, RMCPHeaderError>)
        ensures
            r == RmcpHeader::parse(value@),
    {
        if value.len() < 4 {
            return Err(RMCPHeaderError::WrongLength);
        }
        let ack: u8 = load_bits(value[3], 0, 1);
        let class: u8 = load_bits(value[3], 4, 8);
        match MessageClass::from_u8(class) {
            Ok(message_class) => Ok(
                RmcpHeader {
                    version: value[0],
                    reserved: value[1],
                    sequence_number: value[2],
                    rmcp_ack: ack == 1,
                    message_class,
                },
            ),
            Err(e) => Err(e),
        }
    }

    /// Writes this header as four bytes.
    pub fn to_bytes(&self) -> (r: Vec<u8>)
        ensures
            r@ == self.spec_bytes(),
    {
        let flag: u8 = if self.rmcp_ack {
            1
        } else {
            0
        };
        let last: u8 = store_bits(store_bits(0, 0, 1, flag), 4, 8, self.message_class.to_u8());
        let mut r: Vec<u8> = Vec::new();
        r.push(self.version);
        r.push(self.reserved);
        r.push(self.sequence_number);
        r.push(last);
        assert(r@ =~= self.spec_bytes());
        r
    }
}

impl Default for RmcpHeader {
    /// The header of every outgoing packet: version 6, no acknowledge, class
    /// IPMI.
    fn default() -> (r: RmcpHeader)
        ensures
            r == (RmcpHeader {
                version: 0x06,
                reserved: 0,
                sequence_number: 0xff,
                rmcp_ack: false,
                message_class: MessageClass::IPMI,
            }),
    {
        RmcpHeader {
            version: 0x06,
            reserved: 0,
            sequence_number: 0xff,
            rmcp_ack: false,
            message_class: MessageClass::IPMI,
        }
    }
}

} // verus!
