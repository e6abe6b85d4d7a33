//! The four messages of the RAKP key exchange.
use crate::commands::channel::Privilege;
use crate::err::{IPMIClientError, IpmiPayloadError};
use crate::helpers::bytes::{
    append_bytes, le_bytes, le_value, lemma_u128_bytes, lemma_u32_bytes, push_le_bytes, read_le,
    u32_from_le,
};
use crate::helpers::utils::join_two_bits_to_byte;
use crate::parser::ipmi_header::{AuthType, IpmiHeader};
use crate::parser::ipmi_v2_header::{IpmiV2Header, PayloadType};
use crate::parser::packet::{Packet, PacketView, Payload, PayloadView};
use crate::parser::rmcp_open_session::StatusCode;
use crate::helpers::views::{optional_bytes, optional_view, viewed};
use vstd::prelude::*;
use vstd::slice::{slice_subrange, slice_to_vec};
use vstd::utf8::encode_utf8;

verus! {

/// RAKP message 1, console to managed system: 28 bytes and the user name.
#[derive(Clone, Debug, PartialEq, Eq, Hash)]
pub struct RAKPMessage1 {
    pub message_tag: u8,
    pub managed_system_session_id: u32,
    /// The console's nonce.
    pub remote_console_random_number: u128,
    /// Whether the user is looked up by name alone.
    pub inherit_role: bool,
    pub requested_max_privilege: Privilege,
    /// The number of bytes of `username`.
    pub username_length: u8,
    pub username: String,
}

/// What a `RAKPMessage1` holds, with the user name as its UTF-8 bytes.
pub struct RAKPMessage1View {
    pub message_tag: u8,
    pub managed_system_session_id: u32,
    pub remote_console_random_number: u128,
    pub inherit_role: bool,
    pub requested_max_privilege: Privilege,
    pub username_length: u8,
    pub username: Seq<u8>,
}

impl View for RAKPMessage1 {
    type V = RAKPMessage1View;

    open spec fn view(&self) -> RAKPMessage1View {
        RAKPMessage1View {
            message_tag: self.message_tag,
            managed_system_session_id: self.managed_system_session_id,
            remote_console_random_number: self.remote_console_random_number,
            inherit_role: self.inherit_role,
            requested_max_privilege: self.requested_max_privilege,
            username_length: self.username_length,
            username: encode_utf8(self.username@),
        }
    }
}

/// The byte that carries the role: the inherit-role flag in bit 4, the
/// requested privilege level in the four bits below.
pub open spec fn role_byte(inherit_role: bool, privilege: Privilege) -> u8 {
    ((if inherit_role {
        16int
    } else {
        0int
    }) + privilege.code()) as u8
}

impl RAKPMessage1View {
    /// The length byte says how long the user name is.
    pub open spec fn wf(self) -> bool {
        self.username_length == self.username.len()
    }

    /// The bytes of this message: tag, three reserved bytes, the managed
    /// system's session id, the console's nonce, the role byte, two
    /// reserved bytes, the length of the user name, the user name.
    pub open spec fn spec_bytes(self) -> Seq<u8> {
        seq![self.message_tag, 0x00, 0x00, 0x00] + le_bytes(
            self.managed_system_session_id as nat,
            4,
        ) + le_bytes(self.remote_console_random_number as nat, 16) + seq![
            role_byte(self.inherit_role, self.requested_max_privilege),
            0x00,
            0x00,
            self.username_length,
        ] + self.username
    }

    /// The message is 28 bytes and the user name long; the length byte and
    /// the name stand at its end.
    pub proof fn lemma_layout(self)
        ensures
            self.spec_bytes().len() == 28 + self.username.len(),
            self.spec_bytes()[27] == self.username_length,
            self.spec_bytes().subrange(28, self.spec_bytes().len() as int) == self.username,
    {
        lemma_u32_bytes(self.managed_system_session_id);
        lemma_u128_bytes(self.remote_console_random_number);
        assert(self.spec_bytes().subrange(28, self.spec_bytes().len() as int) =~= self.username);
    }
}

impl RAKPMessage1 {
    /// Puts the fields together and counts the bytes of the user name.
    /// A name of more than 255 bytes has no length byte and is refused.
    pub fn new(
        message_tag: u8,
        managed_system_session_id: u32,
        remote_console_random_number: u128,
        inherit_role: bool,
        requested_max_privilege: Privilege,
        username: String,
    ) -> (r: Result<RAKPMessage1, IPMIClientError>)
        ensures
            r is Ok == (encode_utf8(username@).len() <= 255),
            r matches Ok(m) ==> m@.wf() && m@ == (RAKPMessage1View {
                message_tag,
                managed_system_session_id,
                remote_console_random_number,
                inherit_role,
                requested_max_privilege,
                username_length: encode_utf8(username@).len() as u8,
                username: encode_utf8(username@),
            }),
            r matches Err(e) ==> e == IPMIClientError::UsernameOver255InLength,
    {
        let len: usize = username.as_str().as_bytes().len();
        if len > 255 {
            return Err(IPMIClientError::UsernameOver255InLength);
        }
        Ok(
            RAKPMessage1 {
                message_tag,
                managed_system_session_id,
                remote_console_random_number,
                inherit_role,
                requested_max_privilege,
                username_length: len as u8,
                username,
            },
        )
    }

    /// Writes this message.
    pub fn to_bytes(&self) -> (r: Vec<u8>)
        ensures
            r@ == self@.spec_bytes(),
    {
        let flag: u8 = if self.inherit_role {
            1
        } else {
            0
        };
        let mut r: Vec<u8> = Vec::new();
        r.push(self.message_tag);
        r.push(0x00);
        r.push(0x00);
        r.push(0x00);
        push_le_bytes(&mut r, self.managed_system_session_id as u128, 4);
        push_le_bytes(&mut r, self.remote_console_random_number, 16);
        r.push(join_two_bits_to_byte(flag, self.requested_max_privilege.to_u8(), 4));
        r.push(0x00);
        r.push(0x00);
        r.push(self.username_length);
        append_bytes(&mut r, self.username.as_str().as_bytes());
        assert(r@ =~= self@.spec_bytes());
        r
    }

    /// The packet that carries this message: outside any session, neither
    /// encrypted nor authenticated.
    pub fn create_packet(self) -> (r: Packet)
        requires
            self@.wf(),
        ensures
            r@.wf(),
            r@ == PacketView::outgoing(
                IpmiHeader::V2_0(
                    IpmiV2Header::unprotected(
                        PayloadType::RAKP1,
                        (self@.username_length + 28) as u16,
                    ),
                ),
                PayloadView::RAKP(RAKPView::Message1(self@)),
            ),
    {
        proof {
            self@.lemma_layout();
        }
        let length: u16 = self.username_length as u16 + 28;
        Packet::new(
            IpmiHeader::V2_0(
                IpmiV2Header::new(AuthType::RmcpPlus, false, false, PayloadType::RAKP1, 0, 0, length),
            ),
            Payload::RAKP(RAKP::Message1(self)),
        )
    }
}

/// RAKP message 2, managed system to console.
#[derive(Clone, Debug, PartialEq, Eq, Hash)]
pub struct RAKPMessage2 {
    pub message_tag: u8,
    pub rmcp_plus_status_code: StatusCode,
    pub remote_console_session_id: u32,
    /// The managed system's nonce.
    pub managed_system_random_number: u128,
    pub managed_system_guid: u128,
    /// The managed system's proof that it knows the user's key.
    pub key_exchange_auth_code: Option<Vec<u8>>,
}

/// What a `RAKPMessage2` holds, with the code as a sequence.
pub struct RAKPMessage2View {
    pub message_tag: u8,
    pub rmcp_plus_status_code: StatusCode,
    pub remote_console_session_id: u32,
    pub managed_system_random_number: u128,
    pub managed_system_guid: u128,
    pub key_exchange_auth_code: Option<Seq<u8>>,
}

impl View for RAKPMessage2 {
    type V = RAKPMessage2View;

    open spec fn view(&self) -> RAKPMessage2View {
        RAKPMessage2View {
            message_tag: self.message_tag,
            rmcp_plus_status_code: self.rmcp_plus_status_code,
            remote_console_session_id: self.remote_console_session_id,
            managed_system_random_number: self.managed_system_random_number,
            managed_system_guid: self.managed_system_guid,
            key_exchange_auth_code: optional_view(self.key_exchange_auth_code),
        }
    }
}

impl RAKPMessage2View {
    /// The status is one that its own code is read back as, and a code
    /// that is present is not empty.
    pub open spec fn wf(self) -> bool {
        &&& self.rmcp_plus_status_code.is_canonical()
        &&& (self.key_exchange_auth_code matches Some(c) ==> c.len() > 0)
    }

    /// The bytes of this message: tag, status, two reserved bytes, the
    /// console's session id, the managed system's nonce and GUID, the code.
    pub open spec fn spec_bytes(self) -> Seq<u8> {
        seq![self.message_tag, self.rmcp_plus_status_code.code(), 0x00, 0x00] + le_bytes(
            self.remote_console_session_id as nat,
            4,
        ) + le_bytes(self.managed_system_random_number as nat, 16) + le_bytes(
            self.managed_system_guid as nat,
            16,
        ) + optional_bytes(self.key_exchange_auth_code)
    }

    /// The message that `s` spells. A message that stops before the GUID
    /// ends is read as carrying neither nonce nor GUID nor code.
    pub open spec fn parse(s: Seq<u8>) -> Result<RAKPMessage2View, IpmiPayloadError> {
        if s.len() < 8 {
            Err(IpmiPayloadError::WrongLength)
        } else {
            Ok(
                RAKPMessage2View {
                    message_tag: s[0],
                    rmcp_plus_status_code: StatusCode::from_code(s[1]),
                    remote_console_session_id: le_value(s.subrange(4, 8)) as u32,
                    managed_system_random_number: if s.len() >= 40 {
                        le_value(s.subrange(8, 24)) as u128
                    } else {
                        0
                    },
                    managed_system_guid: if s.len() >= 40 {
                        le_value(s.subrange(24, 40)) as u128
                    } else {
                        0
                    },
                    key_exchange_auth_code: if s.len() > 40 {
                        Some(s.subrange(40, s.len() as int))
                    } else {
                        None
                    },
                },
            )
        }
    }

    /// Parsing the bytes of a well-formed message gives the message back.
    pub proof fn lemma_parse_of_bytes(p: RAKPMessage2View)
        requires
            p.wf(),
        ensures
            p.spec_bytes().len() == 40 + optional_bytes(p.key_exchange_auth_code).len(),
            RAKPMessage2View::parse(p.spec_bytes()) == Ok::<RAKPMessage2View, IpmiPayloadError>(p),
    {
        let s = p.spec_bytes();
        lemma_u32_bytes(p.remote_console_session_id);
        lemma_u128_bytes(p.managed_system_random_number);
        lemma_u128_bytes(p.managed_system_guid);
        assert(s.subrange(4, 8) =~= le_bytes(p.remote_console_session_id as nat, 4));
        assert(s.subrange(8, 24) =~= le_bytes(p.managed_system_random_number as nat, 16));
        assert(s.subrange(24, 40) =~= le_bytes(p.managed_system_guid as nat, 16));
        match p.key_exchange_auth_code {
            Some(c) => {
                assert(s.subrange(40, s.len() as int) =~= c);
            },
            None => {},
        }
    }
}

impl RAKPMessage2 {
    /// Reads a RAKP message 2.
    pub fn from_slice(value: &[u8]) -> (r: Result<RAKPMessage2, IpmiPayloadError>)
        ensures
            viewed(r) == RAKPMessage2View::parse(value@),
    {
        let len: usize = value.len();
        if len < 8 {
            return Err(IpmiPayloadError::WrongLength);
        }
        let mut managed_system_random_number: u128 = 0;
        let mut managed_system_guid: u128 = 0;
        let mut key_exchange_auth_code: Option<Vec<u8>> = None;
        if len >= 40 {
            managed_system_random_number = read_le(value, 8, 16);
            managed_system_guid = read_le(value, 24, 16);
            if len > 40 {
                key_exchange_auth_code = Some(slice_to_vec(slice_subrange(value, 40, len)));
            }
        }
        Ok(
            RAKPMessage2 {
                message_tag: value[0],
                rmcp_plus_status_code: StatusCode::from_u8(value[1]),
                remote_console_session_id: u32_from_le(value, 4),
                managed_system_random_number,
                managed_system_guid,
                key_exchange_auth_code,
            },
        )
    }

    /// Writes this message.
    pub fn to_bytes(&self) -> (r: Vec<u8>)
        ensures
            r@ == self@.spec_bytes(),
    {
        let mut r: Vec<u8> = Vec::new();
        r.push(self.message_tag);
        r.push(self.rmcp_plus_status_code.to_u8());
        r.push(0x00);
        r.push(0x00);
        push_le_bytes(&mut r, self.remote_console_session_id as u128, 4);
        push_le_bytes(&mut r, self.managed_system_random_number, 16);
        push_le_bytes(&mut r, self.managed_system_guid, 16);
        match &self.key_exchange_auth_code {
            Some(code) => {
                append_bytes(&mut r, code.as_slice());
            },
            None => {},
        }
        assert(r@ =~= self@.spec_bytes());
        r
    }
}

/// RAKP message 3, console to managed system.
#[derive(Clone, Debug, PartialEq, Eq, Hash)]
pub struct RAKPMessage3 {
    pub message_tag: u8,
    pub rmcp_plus_status_code: StatusCode,
    pub managed_system_session_id: u32,
    /// The console's proof that it knows the user's key.
    pub key_exchange_auth_code: Option<Vec<u8>>,
}

/// What a `RAKPMessage3` holds, with the code as a sequence.
pub struct RAKPMessage3View {
    pub message_tag: u8,
    pub rmcp_plus_status_code: StatusCode,
    pub managed_system_session_id: u32,
    pub key_exchange_auth_code: Option<Seq<u8>>,
}

impl View for RAKPMessage3 {
    type V = RAKPMessage3View;

    open spec fn view(&self) -> RAKPMessage3View {
        RAKPMessage3View {
            message_tag: self.message_tag,
            rmcp_plus_status_code: self.rmcp_plus_status_code,
            managed_system_session_id: self.managed_system_session_id,
            key_exchange_auth_code: optional_view(self.key_exchange_auth_code),
        }
    }
}

impl RAKPMessage3View {
    /// The bytes of this message: tag, status, two reserved bytes, the
    /// managed system's session id, the code.
    pub open spec fn spec_bytes(self) -> Seq<u8> {
        seq![self.message_tag, self.rmcp_plus_status_code.code(), 0x00, 0x00] + le_bytes(
            self.managed_system_session_id as nat,
            4,
        ) + optional_bytes(self.key_exchange_auth_code)
    }

    /// The message is 8 bytes and the code long.
    pub proof fn lemma_len(self)
        ensures
            self.spec_bytes().len() == 8 + optional_bytes(self.key_exchange_auth_code).len(),
    {
        lemma_u32_bytes(self.managed_system_session_id);
    }
}

impl RAKPMessage3 {
    /// Puts the fields together.
    pub fn new(
        message_tag: u8,
        rmcp_plus_status_code: StatusCode,
        managed_system_session_id: u32,
        key_exchange_auth_code: Option<Vec<u8>>,
    ) -> (r: RAKPMessage3)
        ensures
            r@ == (RAKPMessage3View {
                message_tag,
                rmcp_plus_status_code,
                managed_system_session_id,
                key_exchange_auth_code: optional_view(key_exchange_auth_code),
            }),
    {
        RAKPMessage3 {
            message_tag,
            rmcp_plus_status_code,
            managed_system_session_id,
            key_exchange_auth_code,
        }
    }

    /// Writes this message.
    pub fn to_bytes(&self) -> (r: Vec<u8>)
        ensures
            r@ == self@.spec_bytes(),
    {
        let mut r: Vec<u8> = Vec::new();
        r.push(self.message_tag);
        r.push(self.rmcp_plus_status_code.to_u8());
        r.push(0x00);
        r.push(0x00);
        push_le_bytes(&mut r, self.managed_system_session_id as u128, 4);
        match &self.key_exchange_auth_code {
            Some(code) => {
                append_bytes(&mut r, code.as_slice());
            },
            None => {},
        }
        assert(r@ =~= self@.spec_bytes());
        r
    }

    /// The packet that carries this message: outside any session, neither
    /// encrypted nor authenticated. The code must leave the message short
    /// enough for the sixteen-bit length field.
    pub fn create_packet(self) -> (r: Packet)
        requires
            optional_bytes(self@.key_exchange_auth_code).len() + 8 <= 0xFFFF,
        ensures
            r@.wf(),
            r@ == PacketView::outgoing(
                IpmiHeader::V2_0(
                    IpmiV2Header::unprotected(
                        PayloadType::RAKP3,
                        (optional_bytes(self@.key_exchange_auth_code).len() + 8) as u16,
                    ),
                ),
                PayloadView::RAKP(RAKPView::Message3(self@)),
            ),
    {
        proof {
            self@.lemma_len();
        }
        let length: usize = match &self.key_exchange_auth_code {
            None => 8,
            Some(auth_code) => auth_code.len() + 8,
        };
        Packet::new(
            IpmiHeader::V2_0(
                IpmiV2Header::new(
                    AuthType::RmcpPlus,
                    false,
                    false,
                    PayloadType::RAKP3,
                    0,
                    0,
                    length as u16,
                ),
            ),
            Payload::RAKP(RAKP::Message3(self)),
        )
    }
}

/// RAKP message 4, managed system to console.
#[derive(Clone, Debug, PartialEq, Eq, Hash)]
pub struct RAKPMessage4 {
    pub message_tag: u8,
    pub rmcp_plus_status_code: StatusCode,
    pub management_console_session_id: u32,
    /// The managed system's proof that it derived the same session key.
    pub integrity_check_value: Option<Vec<u8>>,
}

/// What a `RAKPMessage4` holds, with the check value as a sequence.
pub struct RAKPMessage4View {
    pub message_tag: u8,
    pub rmcp_plus_status_code: StatusCode,
    pub management_console_session_id: u32,
    pub integrity_check_value: Option<Seq<u8>>,
}

impl View for RAKPMessage4 {
    type V = RAKPMessage4View;

    open spec fn view(&self) -> RAKPMessage4View {
        RAKPMessage4View {
            message_tag: self.message_tag,
            rmcp_plus_status_code: self.rmcp_plus_status_code,
            management_console_session_id: self.management_console_session_id,
            integrity_check_value: optional_view(self.integrity_check_value),
        }
    }
}

impl RAKPMessage4View {
    /// The status is one that its own code is read back as, and a check
    /// value that is present is not empty.
    pub open spec fn wf(self) -> bool {
        &&& self.rmcp_plus_status_code.is_canonical()
        &&& (self.integrity_check_value matches Some(c) ==> c.len() > 0)
    }

    /// The bytes of this message: tag, status, two reserved bytes, the
    /// console's session id, the check value.
    pub open spec fn spec_bytes(self) -> Seq<u8> {
        seq![self.message_tag, self.rmcp_plus_status_code.code(), 0x00, 0x00] + le_bytes(
            self.management_console_session_id as nat,
            4,
        ) + optional_bytes(self.integrity_check_value)
    }

    /// The message that `s` spells.
    pub open spec fn parse(s: Seq<u8>) -> Result<RAKPMessage4View, IpmiPayloadError> {
        if s.len() < 8 {
            Err(IpmiPayloadError::WrongLength)
        } else {
            Ok(
                RAKPMessage4View {
                    message_tag: s[0],
                    rmcp_plus_status_code: StatusCode::from_code(s[1]),
                    management_console_session_id: le_value(s.subrange(4, 8)) as u32,
                    integrity_check_value: if s.len() > 8 {
                        Some(s.subrange(8, s.len() as int))
                    } else {
                        None
                    },
                },
            )
        }
    }

    /// Parsing the bytes of a well-formed message gives the message back.
    pub proof fn lemma_parse_of_bytes(p: RAKPMessage4View)
        requires
            p.wf(),
        ensures
            p.spec_bytes().len() == 8 + optional_bytes(p.integrity_check_value).len(),
            RAKPMessage4View::parse(p.spec_bytes()) == Ok::<RAKPMessage4View, IpmiPayloadError>(p),
    {
        let s = p.spec_bytes();
        lemma_u32_bytes(p.management_console_session_id);
        assert(s.subrange(4, 8) =~= le_bytes(p.management_console_session_id as nat, 4));
        match p.integrity_check_value {
            Some(c) => {
                assert(s.subrange(8, s.len() as int) =~= c);
            },
            None => {},
        }
    }
}

impl RAKPMessage4 {
    /// Reads a RAKP message 4.
    pub fn from_slice(value: &[u8]) -> (r: Result<RAKPMessage4, IpmiPayloadError>)
        ensures
            viewed(r) == RAKPMessage4View::parse(value@),
    {
        let len: usize = value.len();
        if len < 8 {
            return Err(IpmiPayloadError::WrongLength);
        }
        let integrity_check_value: Option<Vec<u8>> = if len > 8 {
            Some(slice_to_vec(slice_subrange(value, 8, len)))
        } else {
            None
        };
        Ok(
            RAKPMessage4 {
                message_tag: value[0],
                rmcp_plus_status_code: StatusCode::from_u8(value[1]),
                management_console_session_id: u32_from_le(value, 4),
                integrity_check_value,
            },
        )
    }

    /// Writes this message.
    pub fn to_bytes(&self) -> (r: Vec<u8>)
        ensures
            r@ == self@.spec_bytes(),
    {
        let mut r: Vec<u8> = Vec::new();
        r.push(self.message_tag);
        r.push(self.rmcp_plus_status_code.to_u8());
        r.push(0x00);
        r.push(0x00);
        push_le_bytes(&mut r, self.management_console_session_id as u128, 4);
        match &self.integrity_check_value {
            Some(code) => {
                append_bytes(&mut r, code.as_slice());
            },
            None => {},
        }
        assert(r@ =~= self@.spec_bytes());
        r
    }
}

/// Any of the four RAKP messages.
#[derive(Clone, Debug, PartialEq, Eq, Hash)]
pub enum RAKP {
    Message1(RAKPMessage1),
    Message2(RAKPMessage2),
    Message3(RAKPMessage3),
    Message4(RAKPMessage4),
}

/// What a `RAKP` holds.
pub enum RAKPView {
    Message1(RAKPMessage1View),
    Message2(RAKPMessage2View),
    Message3(RAKPMessage3View),
    Message4(RAKPMessage4View),
}

impl View for RAKP {
    type V = RAKPView;

    open spec fn view(&self) -> RAKPView {
        match self {
            RAKP::Message1(m) => RAKPView::Message1(m@),
            RAKP::Message2(m) => RAKPView::Message2(m@),
            RAKP::Message3(m) => RAKPView::Message3(m@),
            RAKP::Message4(m) => RAKPView::Message4(m@),
        }
    }
}

impl RAKPView {
    /// The bytes of this message.
    pub open spec fn spec_bytes(self) -> Seq<u8> {
        match self {
            RAKPView::Message1(m) => m.spec_bytes(),
            RAKPView::Message2(m) => m.spec_bytes(),
            RAKPView::Message3(m) => m.spec_bytes(),
            RAKPView::Message4(m) => m.spec_bytes(),
        }
    }

    /// The payload type that announces this message.
    pub open spec fn payload_type(self) -> PayloadType {
        match self {
            RAKPView::Message1(_) => PayloadType::RAKP1,
            RAKPView::Message2(_) => PayloadType::RAKP2,
            RAKPView::Message3(_) => PayloadType::RAKP3,
            RAKPView::Message4(_) => PayloadType::RAKP4,
        }
    }
}

impl RAKP {
    /// Writes this message.
    pub fn to_bytes(&self) -> (r: Vec<u8>)
        ensures
            r@ == self@.spec_bytes(),
    {
        match self {
            RAKP::Message1(payload) => payload.to_bytes(),
            RAKP::Message2(payload) => payload.to_bytes(),
            RAKP::Message3(payload) => payload.to_bytes(),
            RAKP::Message4(payload) => payload.to_bytes(),
        }
    }
}

} // verus!
