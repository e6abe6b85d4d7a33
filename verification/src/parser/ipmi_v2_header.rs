//! The IPMI v2.0 (RMCP+) session header: 12 bytes, or 18 for an OEM
//! payload. Its multi-byte fields are little-endian.
use crate::err::{IpmiHeaderError, IpmiV2HeaderError};
use crate::helpers::bits::{load_bits, store_bits};
use crate::helpers::bytes::{
    le_bytes, le_value, lemma_u16_le, lemma_u32_bytes, push_le_bytes, u16_from_le, u32_from_le,
};
use crate::parser::ipmi_header::AuthType;
use vstd::prelude::*;

verus! {

/// What follows a v2.0 session header, six bits on the wire.
#[derive(Clone, Copy, Debug, PartialEq, Eq, Hash)]
pub enum PayloadType {
    IPMI,
    SOL,
    OEM,
    RcmpOpenSessionRequest,
    RcmpOpenSessionResponse,
    RAKP1,
    RAKP2,
    RAKP3,
    RAKP4,
}

impl PayloadType {
    /// The number that stands for this value on the wire.
    pub open spec fn code(self) -> u8 {
        match self {
            PayloadType::IPMI => 0x00,
            PayloadType::SOL => 0x01,
            PayloadType::OEM => 0x02,
            PayloadType::RcmpOpenSessionRequest => 0x10,
            PayloadType::RcmpOpenSessionResponse => 0x11,
            PayloadType::RAKP1 => 0x12,
            PayloadType::RAKP2 => 0x13,
            PayloadType::RAKP3 => 0x14,
            PayloadType::RAKP4 => 0x15,
        }
    }

    /// The value that `value` stands for.
    pub open spec fn from_code(value: u8) -> Result<PayloadType, IpmiV2HeaderError> {
        if value == 0x00 {
            Ok(PayloadType::IPMI)
        } else if value == 0x01 {
            Ok(PayloadType::SOL)
        } else if value == 0x02 {
            Ok(PayloadType::OEM)
        } else if value == 0x10 {
            Ok(PayloadType::RcmpOpenSessionRequest)
        } else if value == 0x11 {
            Ok(PayloadType::RcmpOpenSessionResponse)
        } else if value == 0x12 {
            Ok(PayloadType::RAKP1)
        } else if value == 0x13 {
            Ok(PayloadType::RAKP2)
        } else if value == 0x14 {
            Ok(PayloadType::RAKP3)
        } else if value == 0x15 {
            Ok(PayloadType::RAKP4)
        } else {
            Err(IpmiV2HeaderError::UnsupportedPayloadType(value))
        }
    }

    /// Whether reading back the code of this value gives this value.
    pub open spec fn is_canonical(self) -> bool {
        PayloadType::from_code(self.code()) == Ok::<PayloadType, IpmiV2HeaderError>(self)
    }

    /// Every code that is read successfully is written back unchanged.
    pub proof fn lemma_code_of_from_code(value: u8)
        ensures
            PayloadType::from_code(value) matches Ok(v) ==> v.code() == value && v.is_canonical(),
    {
    }

    /// Encodes this value.
    pub fn to_u8(&self) -> (r: u8)
        ensures
            r == self.code(),
    {
        match *self {
            PayloadType::IPMI => 0x00,
            PayloadType::SOL => 0x01,
            PayloadType::OEM => 0x02,
            PayloadType::RcmpOpenSessionRequest => 0x10,
            PayloadType::RcmpOpenSessionResponse => 0x11,
            PayloadType::RAKP1 => 0x12,
            PayloadType::RAKP2 => 0x13,
            PayloadType::RAKP3 => 0x14,
            PayloadType::RAKP4 => 0x15,
        }
    }

    /// Decodes `value`.
    pub fn from_u8(value: u8) -> (r: Result<PayloadType, IpmiV2HeaderError>)
        ensures
            r == PayloadType::from_code(value),
    {
        match value {
            0x00 => Ok(PayloadType::IPMI),
            0x01 => Ok(PayloadType::SOL),
            0x02 => Ok(PayloadType::OEM),
            0x10 => Ok(PayloadType::RcmpOpenSessionRequest),
            0x11 => Ok(PayloadType::RcmpOpenSessionResponse),
            0x12 => Ok(PayloadType::RAKP1),
            0x13 => Ok(PayloadType::RAKP2),
            0x14 => Ok(PayloadType::RAKP3),
            0x15 => Ok(PayloadType::RAKP4),
            _ => Err(IpmiV2HeaderError::UnsupportedPayloadType(value)),
        }
    }
}

/// A v2.0 session header.
#[derive(Clone, Copy, Debug, PartialEq, Eq, Hash)]
pub struct IpmiV2Header {
    pub auth_type: AuthType,
    /// The payload is encrypted.
    pub payload_enc: bool,
    /// The packet ends in an integrity trailer.
    pub payload_auth: bool,
    pub payload_type: PayloadType,
    /// Present exactly for an OEM payload.
    pub oem_iana: Option<u32>,
    /// Present exactly for an OEM payload.
    pub oem_payload_id: Option<u16>,
    pub rmcp_plus_session_id: u32,
    pub session_seq_number: u32,
    pub payload_length: u16,
}

impl IpmiV2Header {
    /// The authentication type is `RmcpPlus` and the two OEM fields are
    /// present exactly for an OEM payload.
    pub open spec fn wf(self) -> bool {
        &&& self.auth_type == AuthType::RmcpPlus
        &&& self.oem_iana.is_some() == (self.payload_type == PayloadType::OEM)
        &&& self.oem_payload_id.is_some() == (self.payload_type == PayloadType::OEM)
    }

    /// The header of a message outside any session: neither encrypted nor
    /// authenticated, session id and sequence number zero.
    pub open spec fn unprotected(payload_type: PayloadType, payload_length: u16) -> IpmiV2Header {
        IpmiV2Header {
            auth_type: AuthType::RmcpPlus,
            payload_enc: false,
            payload_auth: false,
            payload_type,
            oem_iana: None,
            oem_payload_id: None,
            rmcp_plus_session_id: 0,
            session_seq_number: 0,
            payload_length,
        }
    }

    /// This header with both protection flags set.
    pub open spec fn protected(self) -> IpmiV2Header {
        IpmiV2Header { payload_enc: true, payload_auth: true, ..self }
    }

    /// The second byte of the header: the encryption flag in the top bit,
    /// the authentication flag below it, the payload type in the low six
    /// bits.
    pub open spec fn flags_byte(self) -> u8 {
        ((if self.payload_enc {
            128int
        } else {
            0int
        }) + (if self.payload_auth {
            64int
        } else {
            0int
        }) + self.payload_type.code()) as u8
    }

    /// The bytes of this header.
    pub open spec fn spec_bytes(self) -> Seq<u8> {
        seq![self.auth_type.code(), self.flags_byte()] + (match self.oem_iana {
            Some(iana) => le_bytes(iana as nat, 4),
            None => Seq::empty(),
        }) + (match self.oem_payload_id {
            Some(id) => le_bytes(id as nat, 2),
            None => Seq::empty(),
        }) + le_bytes(self.rmcp_plus_session_id as nat, 4) + le_bytes(
            self.session_seq_number as nat,
            4,
        ) + le_bytes(self.payload_length as nat, 2)
    }

    /// The header that `s` spells. `s` must be as long as its payload type
    /// says the header is.
    pub open spec fn parse(s: Seq<u8>) -> Result<IpmiV2Header, IpmiHeaderError> {
        if s.len() != 12 && s.len() != 18 {
            Err(IpmiHeaderError::V2Error(IpmiV2HeaderError::WrongLength))
        } else {
            match AuthType::from_code(s[0]) {
                Err(e) => Err(e),
                Ok(auth_type) => match PayloadType::from_code((s[1] % 64) as u8) {
                    Err(e) => Err(IpmiHeaderError::V2Error(e)),
                    Ok(payload_type) => {
                        let oem = payload_type == PayloadType::OEM;
                        let base: int = if oem {
                            8
                        } else {
                            2
                        };
                        if oem != (s.len() == 18) {
                            Err(IpmiHeaderError::V2Error(IpmiV2HeaderError::WrongLength))
                        } else {
                            Ok(
                                IpmiV2Header {
                                    auth_type,
                                    payload_enc: s[1] >= 128,
                                    payload_auth: (s[1] / 64) % 2 == 1,
                                    payload_type,
                                    oem_iana: if oem {
                                        Some(le_value(s.subrange(2, 6)) as u32)
                                    } else {
                                        None
                                    },
                                    oem_payload_id: if oem {
                                        Some(le_value(s.subrange(6, 8)) as u16)
                                    } else {
                                        None
                                    },
                                    rmcp_plus_session_id: le_value(
                                        s.subrange(base, base + 4),
                                    ) as u32,
                                    session_seq_number: le_value(
                                        s.subrange(base + 4, base + 8),
                                    ) as u32,
                                    payload_length: le_value(
                                        s.subrange(base + 8, base + 10),
                                    ) as u16,
                                },
                            )
                        }
                    },
                },
            }
        }
    }

    /// Parsing the bytes of a well-formed header gives the header back.
    pub proof fn lemma_parse_of_bytes(h: IpmiV2Header)
        requires
            h.wf(),
        ensures
            IpmiV2Header::parse(h.spec_bytes()) == Ok::<IpmiV2Header, IpmiHeaderError>(h),
            h.spec_bytes().len() == (if h.payload_type == PayloadType::OEM {
                18int
            } else {
                12int
            }),
            h.spec_bytes()[0] == AuthType::RmcpPlus.code(),
            h.spec_bytes()[1] == h.flags_byte(),
            h.flags_byte() % 64 == h.payload_type.code(),
    {
        let s = h.spec_bytes();
        lemma_u32_bytes(h.rmcp_plus_session_id);
        lemma_u32_bytes(h.session_seq_number);
        lemma_u16_le(h.payload_length);
        match (h.oem_iana, h.oem_payload_id) {
            (Some(iana), Some(id)) => {
                lemma_u32_bytes(iana);
                lemma_u16_le(id);
                assert(s.subrange(2, 6) =~= le_bytes(iana as nat, 4));
                assert(s.subrange(6, 8) =~= le_bytes(id as nat, 2));
                assert(s.subrange(8, 12) =~= le_bytes(h.rmcp_plus_session_id as nat, 4));
                assert(s.subrange(12, 16) =~= le_bytes(h.session_seq_number as nat, 4));
                assert(s.subrange(16, 18) =~= le_bytes(h.payload_length as nat, 2));
            },
            _ => {
                assert(s.subrange(2, 6) =~= le_bytes(h.rmcp_plus_session_id as nat, 4));
                assert(s.subrange(6, 10) =~= le_bytes(h.session_seq_number as nat, 4));
                assert(s.subrange(10, 12) =~= le_bytes(h.payload_length as nat, 2));
            },
        }
    }

    /// A header without OEM fields.
    pub fn new(
        auth_type: AuthType,
        payload_enc: bool,
        payload_auth: bool,
        payload_type: PayloadType,
        rmcp_plus_session_id: u32,
        session_seq_number: u32,
        payload_length: u16,
    ) -> (r: IpmiV2Header)
        ensures
            r == (IpmiV2Header {
                auth_type,
                payload_enc,
                payload_auth,
                payload_type,
                oem_iana: None,
                oem_payload_id: None,
                rmcp_plus_session_id,
                session_seq_number,
                payload_length,
            }),
    {
        IpmiV2Header {
            auth_type,
            payload_enc,
            payload_auth,
            payload_type,
            oem_iana: None,
            oem_payload_id: None,
            rmcp_plus_session_id,
            session_seq_number,
            payload_length,
        }
    }

    /// Reads a v2.0 header; `value` must hold exactly the header.
    pub fn from_slice(value: &[u8]) -> (r: Result<IpmiV2Header, IpmiHeaderError>)
        ensures
            r == IpmiV2Header::parse(value@),
    {
        let len: usize = value.len();
        if len != 12 && len != 18 {
            return Err(IpmiHeaderError::V2Error(IpmiV2HeaderError::WrongLength));
        }
        let auth_type: AuthType = match AuthType::from_u8(value[0]) {
            Ok(a) => a,
            Err(e) => {
                return Err(e);
            },
        };
        let payload_enc: bool = load_bits(value[1], 0, 1) == 1;
        let payload_auth: bool = load_bits(value[1], 1, 2) == 1;
        let payload_type: PayloadType = match PayloadType::from_u8(load_bits(value[1], 2, 8)) {
            Ok(p) => p,
            Err(e) => {
                return Err(IpmiHeaderError::V2Error(e));
            },
        };
        let oem: bool = match payload_type {
            PayloadType::OEM => true,
            _ => false,
        };
        if oem != (len == 18) {
            return Err(IpmiHeaderError::V2Error(IpmiV2HeaderError::WrongLength));
        }
        let base: usize = if oem {
            8
        } else {
            2
        };
        let oem_iana: Option<u32> = if oem {
            Some(u32_from_le(value, 2))
        } else {
            None
        };
        let oem_payload_id: Option<u16> = if oem {
            Some(u16_from_le(value, 6))
        } else {
            None
        };
        Ok(
            IpmiV2Header {
                auth_type,
                payload_enc,
                payload_auth,
                payload_type,
                oem_iana,
                oem_payload_id,
                rmcp_plus_session_id: u32_from_le(value, base),
                session_seq_number: u32_from_le(value, base + 4),
                payload_length: u16_from_le(value, base + 8),
            },
        )
    }

    /// Writes this header.
    pub fn to_bytes(&self) -> (r: Vec<u8>)
        ensures
            r@ == self.spec_bytes(),
    {
        let enc: u8 = if self.payload_enc {
            1
        } else {
            0
        };
        let auth: u8 = if self.payload_auth {
            1
        } else {
            0
        };
        let flags: u8 = store_bits(
            store_bits(store_bits(0, 0, 1, enc), 1, 2, auth),
            2,
            8,
            self.payload_type.to_u8(),
        );
        let mut r: Vec<u8> = Vec::new();
        r.push(self.auth_type.to_u8());
        r.push(flags);
        match self.oem_iana {
            Some(iana) => {
                push_le_bytes(&mut r, iana as u128, 4);
            },
            None => {},
        }
        match self.oem_payload_id {
            Some(id) => {
                push_le_bytes(&mut r, id as u128, 2);
            },
            None => {},
        }
        push_le_bytes(&mut r, self.rmcp_plus_session_id as u128, 4);
        push_le_bytes(&mut r, self.session_seq_number as u128, 4);
        push_le_bytes(&mut r, self.payload_length as u128, 2);
        assert(r@ =~= self.spec_bytes());
        r
    }
}

} // verus!
