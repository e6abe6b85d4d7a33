//! The IPMI v1.5 session header: 10 bytes, or 26 with an authentication
//! code. Its multi-byte fields are big-endian.
use crate::err::{IpmiHeaderError, IpmiV1HeaderError};
use crate::helpers::bytes::{
    be_bytes, be_value, lemma_u128_bytes, lemma_u32_bytes, push_be_bytes, read_be, u32_from_be,
};
use crate::parser::ipmi_header::AuthType;
use vstd::prelude::*;

verus! {

/// A v1.5 session header.
#[derive(Clone, Copy, Debug, PartialEq, Eq, Hash)]
pub struct IpmiV1Header {
    pub auth_type: AuthType,
    pub session_seq_number: u32,
    pub session_id: u32,
    /// Present exactly where `auth_type` is not `AuthNone`.
    pub auth_code: Option<u128>,
    pub payload_length: u8,
}

impl IpmiV1Header {
    /// The length without an authentication code.
    pub const MIN_LEN: usize = 10;

    /// The length with an authentication code.
    pub const MAX_LEN: usize = 26;

    /// The authentication code is present exactly where the authentication
    /// type calls for one.
    pub open spec fn wf(self) -> bool {
        self.auth_code.is_some() == (self.auth_type != AuthType::AuthNone)
    }

    /// The bytes of this header: type, sequence number, session id, the
    /// authentication code if there is one, payload length.
    pub open spec fn spec_bytes(self) -> Seq<u8> {
        seq![self.auth_type.code()] + be_bytes(self.session_seq_number as nat, 4) + be_bytes(
            self.session_id as nat,
            4,
        ) + (match self.auth_code {
            Some(code) => be_bytes(code as nat, 16),
            None => Seq::empty(),
        }) + seq![self.payload_length]
    }

    /// The header that `s` spells. `s` must be as long as its first byte
    /// says the header is.
    pub open spec fn parse(s: Seq<u8>) -> Result<IpmiV1Header, IpmiHeaderError> {
        if s.len() != 10 && s.len() != 26 {
            Err(IpmiHeaderError::V1_5Error(IpmiV1HeaderError::WrongLength))
        } else {
            match AuthType::from_code(s[0]) {
                Err(e) => Err(e),
                Ok(auth_type) => {
                    let bare = auth_type == AuthType::AuthNone;
                    if bare != (s.len() == 10) {
                        Err(IpmiHeaderError::V1_5Error(IpmiV1HeaderError::WrongLength))
                    } else {
                        Ok(
                            IpmiV1Header {
                                auth_type,
                                session_seq_number: be_value(s.subrange(1, 5)) as u32,
                                session_id: be_value(s.subrange(5, 9)) as u32,
                                auth_code: if bare {
                                    None
                                } else {
                                    Some(be_value(s.subrange(9, 25)) as u128)
                                },
                                payload_length: s[s.len() - 1],
                            },
                        )
                    }
                },
            }
        }
    }

    /// Parsing the bytes of a well-formed header gives the header back.
    pub proof fn lemma_parse_of_bytes(h: IpmiV1Header)
        requires
            h.wf(),
        ensures
            IpmiV1Header::parse(h.spec_bytes()) == Ok::<IpmiV1Header, IpmiHeaderError>(h),
            h.spec_bytes().len() == (if h.auth_type == AuthType::AuthNone {
                10int
            } else {
                26int
            }),
            h.spec_bytes()[0] == h.auth_type.code(),
    {
        let s = h.spec_bytes();
        lemma_u32_bytes(h.session_seq_number);
        lemma_u32_bytes(h.session_id);
        assert(s.subrange(1, 5) =~= be_bytes(h.session_seq_number as nat, 4));
        assert(s.subrange(5, 9) =~= be_bytes(h.session_id as nat, 4));
        match h.auth_code {
            Some(code) => {
                lemma_u128_bytes(code);
                assert(s.subrange(9, 25) =~= be_bytes(code as nat, 16));
            },
            None => {},
        }
    }

    /// A header with a zero payload length, and a zero authentication code
    /// where the type calls for one.
    pub fn new(auth_type: AuthType, session_seq_number: u32, session_id: u32) -> (r: IpmiV1Header)
        ensures
            r.wf(),
            r == (IpmiV1Header {
                auth_type,
                session_seq_number,
                session_id,
                auth_code: if auth_type == AuthType::AuthNone {
                    None
                } else {
                    Some(0u128)
                },
                payload_length: 0,
            }),
    {
        let auth_code: Option<u128> = match auth_type {
            AuthType::AuthNone => None,
            _ => Some(0),
        };
        IpmiV1Header { auth_type, session_seq_number, session_id, auth_code, payload_length: 0 }
    }

    /// Reads a v1.5 header; `value` must hold exactly the header.
    pub fn from_slice(value: &[u8]) -> (r: Result<IpmiV1Header, IpmiHeaderError>)
        ensures
            r == IpmiV1Header::parse(value@),
    {
        let len: usize = value.len();
        if len != 10 && len != 26 {
            return Err(IpmiHeaderError::V1_5Error(IpmiV1HeaderError::WrongLength));
        }
        let auth_type: AuthType = match AuthType::from_u8(value[0]) {
            Ok(a) => a,
            Err(e) => {
                return Err(e);
            },
        };
        let bare: bool = match auth_type {
            AuthType::AuthNone => true,
            _ => false,
        };
        if bare != (len == 10) {
            return Err(IpmiHeaderError::V1_5Error(IpmiV1HeaderError::WrongLength));
        }
        let auth_code: Option<u128> = if bare {
            None
        } else {
            Some(read_be(value, 9, 16))
        };
        Ok(
            IpmiV1Header {
                auth_type,
                session_seq_number: u32_from_be(value, 1),
                session_id: u32_from_be(value, 5),
                auth_code,
                payload_length: value[len - 1],
            },
        )
    }

    /// Writes this header.
    pub fn to_bytes(&self) -> (r: Vec<u8>)
        ensures
            r@ == self.spec_bytes(),
    {
        let mut r: Vec<u8> = Vec::new();
        r.push(self.auth_type.to_u8());
        push_be_bytes(&mut r, self.session_seq_number as u128, 4);
        push_be_bytes(&mut r, self.session_id as u128, 4);
        match self.auth_code {
            Some(code) => {
                push_be_bytes(&mut r, code, 16);
            },
            None => {},
        }
        r.push(self.payload_length);
        assert(r@ =~= self.spec_bytes());
        r
    }
}

impl Default for IpmiV1Header {
    /// The header of a packet outside any session.
    fn default() -> (r: IpmiV1Header)
        ensures
            r.wf(),
            r == (IpmiV1Header {
                auth_type: AuthType::AuthNone,
                session_seq_number: 0,
                session_id: 0,
                auth_code: None,
                payload_length: 0,
            }),
    {
        IpmiV1Header {
            auth_type: AuthType::AuthNone,
            session_seq_number: 0x00,
            session_id: 0x00,
            auth_code: None,
            payload_length: 0,
        }
    }
}

} // verus!
