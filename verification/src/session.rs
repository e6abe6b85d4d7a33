//! The RMCP+ session engine: discovery, cipher suite negotiation, the RAKP
//! key exchange, and the requests of an established session.
//!
//! The engine does no input or output. Whoever owns the socket asks it for
//! the datagram to send, hands it every datagram that arrives, and is told
//! what to do next.
use crate::commands::channel::{
    AuthVersion, GetChannelAuthCapabilitiesRequest, GetChannelAuthCapabilitiesResponse,
    GetChannelAuthCapabilitiesResponseView, Privilege,
};
use crate::commands::cipher::{
    best_suite, choose_cipher_suite, CipherSuite, GetChannelCipherSuitesRequest,
    GetChannelCipherSuitesResponse,
};
use crate::commands::command::Command;
use crate::err::{IPMIClientError, IpmiHeaderError, IpmiPayloadError, PacketError};
use crate::helpers::bytes::{append_bytes, bytes_equal, le_bytes};
use crate::helpers::views::{optional_view, viewed};
use crate::helpers::utils::{
    append_u128_to_vec, append_u32_to_vec, generate_iv, hash_hmac_sha_256, hash_hmac_sha_256_128,
    hmac_sha256, hmac_sha256_128, join_two_bits_to_byte, random_u128,
};
use crate::parser::ipmi_header::{AuthType, IpmiHeader};
use crate::parser::ipmi_payload::{IpmiPayload, IpmiPayloadView, NetFn};
use crate::parser::ipmi_payload_request::IpmiPayloadRequestView;
use crate::parser::ipmi_payload_response::{
    CompletionCode, IpmiPayloadResponse, IpmiPayloadResponseView,
};
use crate::parser::ipmi_raw_request::{IpmiPayloadRawRequest, IpmiPayloadRawRequestView};
use crate::parser::ipmi_v1_header::IpmiV1Header;
use crate::parser::ipmi_v2_header::{IpmiV2Header, PayloadType};
use crate::parser::packet::{Packet, PacketView, Payload, PayloadView};
use crate::parser::rakp::{
    role_byte, RAKPMessage1, RAKPMessage1View, RAKPMessage2, RAKPMessage2View,
    RAKPMessage3, RAKPMessage3View, RAKPMessage4, RAKPMessage4View, RAKPView, RAKP,
};
use crate::parser::rmcp_open_session::{
    AuthAlgorithm, ConfidentialityAlgorithm, IntegrityAlgorithm, RMCPPlusOpenSession,
    RMCPPlusOpenSessionRequest, RMCPPlusOpenSessionResponse, StatusCode,
};
use vstd::prelude::*;
use vstd::slice::slice_to_vec;
use vstd::utf8::encode_utf8;

verus! {

/// How far the session has come.
#[derive(Clone, Copy, Debug, PartialEq, Eq, Hash, Structural)]
pub enum State {
    /// Learning what the managed system supports.
    Discovery,
    /// Opening the session and exchanging keys.
    Authentication,
    /// The session stands; requests travel in the envelope.
    Established,
}

/// The answer that the engine waits for. An answer of another kind is out
/// of order and refused.
#[derive(Clone, Copy, Debug, PartialEq, Eq, Hash, Structural)]
pub enum Awaiting {
    Nothing,
    ChannelAuthCapabilities,
    CipherSuites,
    OpenSessionResponse,
    Rakp2,
    Rakp4,
    Reply,
}

/// What the owner of the socket is to do next.
#[derive(Clone, Debug, PartialEq, Eq, Hash)]
pub enum Step {
    /// Send this datagram and hand the answer to the engine.
    Send(Vec<u8>),
    /// The session stands; nothing to send.
    Established,
    /// The answer to a request of the established session. Its completion
    /// code is for the caller to read.
    Response(IpmiPayloadResponse),
}

/// What a `Step` holds.
pub enum StepView {
    Send(Seq<u8>),
    Established,
    Response(IpmiPayloadResponseView),
}

impl View for Step {
    type V = StepView;

    open spec fn view(&self) -> StepView {
        match self {
            Step::Send(d) => StepView::Send(d@),
            Step::Established => StepView::Established,
            Step::Response(r) => StepView::Response(r@),
        }
    }
}

/// The session id under which the console asks to be addressed.
pub const REMOTE_CONSOLE_SESSION_ID: u32 = 0xa0a2a3a4;

/// The sequence number of the first request of an established session.
pub const FIRST_SESSION_SEQ_NUMBER: u32 = 0x0000000a;

/// The highest index of the cipher suite list.
pub const LAST_LIST_INDEX: u8 = 0x3F;

/// Everything the console knows about its session.
#[derive(Debug)]
pub struct Session {
    pub auth_state: State,
    pub awaiting: Awaiting,
    /// The privilege level that the managed system has granted.
    pub privilege: Privilege,
    /// The sequence number of the next request in the envelope.
    pub session_seq_number: u32,
    pub auth_algorithm: AuthAlgorithm,
    pub integrity_algorithm: IntegrityAlgorithm,
    pub confidentiality_algorithm: ConfidentialityAlgorithm,
    pub managed_system_session_id: u32,
    pub managed_system_random_number: u128,
    pub managed_system_guid: u128,
    pub remote_console_session_id: u32,
    pub remote_console_random_number: u128,
    pub username: String,
    /// The key of the user: the bytes of the password.
    pub password_mac_key: Vec<u8>,
    pub channel_auth_capabilities: Option<GetChannelAuthCapabilitiesResponse>,
    /// The cipher suite record bytes gathered so far.
    pub cipher_suite_bytes: Vec<u8>,
    pub cipher_list_index: u8,
    /// The session integrity key.
    pub sik: Option<[u8; 32]>,
    /// The key of the integrity tag.
    pub k1: Option<[u8; 32]>,
    /// The key whose first half encrypts payloads.
    pub k2: Option<[u8; 32]>,
}

/// What a `Session` holds, with its byte strings as sequences.
pub struct SessionView {
    pub auth_state: State,
    pub awaiting: Awaiting,
    pub privilege: Privilege,
    pub session_seq_number: u32,
    pub auth_algorithm: AuthAlgorithm,
    pub integrity_algorithm: IntegrityAlgorithm,
    pub confidentiality_algorithm: ConfidentialityAlgorithm,
    pub managed_system_session_id: u32,
    pub managed_system_random_number: u128,
    pub managed_system_guid: u128,
    pub remote_console_session_id: u32,
    pub remote_console_random_number: u128,
    pub username: Seq<u8>,
    pub password_mac_key: Seq<u8>,
    pub channel_auth_capabilities: Option<GetChannelAuthCapabilitiesResponseView>,
    pub cipher_suite_bytes: Seq<u8>,
    pub cipher_list_index: u8,
    pub sik: Option<Seq<u8>>,
    pub k1: Option<Seq<u8>>,
    pub k2: Option<Seq<u8>>,
}

/// The bytes of a key that may be absent.
pub open spec fn owned_key_view(key: Option<[u8; 32]>) -> Option<Seq<u8>> {
    match key {
        Some(k) => Some(k@),
        None => None,
    }
}

impl View for Session {
    type V = SessionView;

    open spec fn view(&self) -> SessionView {
        SessionView {
            auth_state: self.auth_state,
            awaiting: self.awaiting,
            privilege: self.privilege,
            session_seq_number: self.session_seq_number,
            auth_algorithm: self.auth_algorithm,
            integrity_algorithm: self.integrity_algorithm,
            confidentiality_algorithm: self.confidentiality_algorithm,
            managed_system_session_id: self.managed_system_session_id,
            managed_system_random_number: self.managed_system_random_number,
            managed_system_guid: self.managed_system_guid,
            remote_console_session_id: self.remote_console_session_id,
            remote_console_random_number: self.remote_console_random_number,
            username: encode_utf8(self.username@),
            password_mac_key: self.password_mac_key@,
            channel_auth_capabilities: match self.channel_auth_capabilities {
                Some(c) => Some(c@),
                None => None,
            },
            cipher_suite_bytes: self.cipher_suite_bytes@,
            cipher_list_index: self.cipher_list_index,
            sik: owned_key_view(self.sik),
            k1: owned_key_view(self.k1),
            k2: owned_key_view(self.k2),
        }
    }
}

/// Twenty bytes of the same value: what the two session keys are derived
/// from.
pub open spec fn twenty(value: u8) -> Seq<u8> {
    Seq::new(20, |i: int| value)
}

/// The sequence number after `n`; it starts over behind the largest.
pub open spec fn next_seq_number(n: u32) -> u32 {
    if n == u32::MAX {
        0
    } else {
        (n + 1) as u32
    }
}

impl SessionView {
    /// A session before anything was sent, with the console's nonce.
    pub open spec fn initial(remote_console_random_number: u128) -> SessionView {
        SessionView {
            auth_state: State::Discovery,
            awaiting: Awaiting::Nothing,
            privilege: Privilege::Callback,
            session_seq_number: FIRST_SESSION_SEQ_NUMBER,
            auth_algorithm: AuthAlgorithm::RakpNone,
            integrity_algorithm: IntegrityAlgorithm::IntegrityNone,
            confidentiality_algorithm: ConfidentialityAlgorithm::ConfidentialityNone,
            managed_system_session_id: 0,
            managed_system_random_number: 0,
            managed_system_guid: 0,
            remote_console_session_id: 0,
            remote_console_random_number,
            username: Seq::empty(),
            password_mac_key: Seq::empty(),
            channel_auth_capabilities: None,
            cipher_suite_bytes: Seq::empty(),
            cipher_list_index: 0,
            sik: None,
            k1: None,
            k2: None,
        }
    }

    /// The role that the console asks for, the user name's length and the
    /// user name: the tail of the key exchange hash inputs. The role byte
    /// is that of RAKP message 1: inherit-role with Administrator, 0x14.
    pub open spec fn name_block(self) -> Seq<u8> {
        seq![role_byte(true, Privilege::Administrator), self.username.len() as u8] + self.username
    }

    /// What the session integrity key is the hash of: both nonces, the
    /// console's first, and the name block.
    pub open spec fn sik_input(self) -> Seq<u8> {
        le_bytes(self.remote_console_random_number as nat, 16) + le_bytes(
            self.managed_system_random_number as nat,
            16,
        ) + self.name_block()
    }

    /// What the code of RAKP message 2 is the hash of: both session ids,
    /// the console's first, both nonces, the console's first, the GUID of
    /// the managed system, and the name block.
    pub open spec fn rakp2_input(self) -> Seq<u8> {
        le_bytes(self.remote_console_session_id as nat, 4) + le_bytes(
            self.managed_system_session_id as nat,
            4,
        ) + le_bytes(self.remote_console_random_number as nat, 16) + le_bytes(
            self.managed_system_random_number as nat,
            16,
        ) + le_bytes(self.managed_system_guid as nat, 16) + self.name_block()
    }

    /// What the code of RAKP message 3 is the hash of: the nonce of the
    /// managed system, the session id of the console, and the name block.
    pub open spec fn rakp3_input(self) -> Seq<u8> {
        le_bytes(self.managed_system_random_number as nat, 16) + le_bytes(
            self.remote_console_session_id as nat,
            4,
        ) + self.name_block()
    }

    /// What the check value of RAKP message 4 is the hash of: the nonce of
    /// the console, the session id of the managed system and its GUID.
    pub open spec fn rakp4_input(self) -> Seq<u8> {
        le_bytes(self.remote_console_random_number as nat, 16) + le_bytes(
            self.managed_system_session_id as nat,
            4,
        ) + le_bytes(self.managed_system_guid as nat, 16)
    }

    /// The session integrity key: the hash of `sik_input` under the user's
    /// key.
    pub open spec fn derived_sik(self) -> Seq<u8> {
        hmac_sha256(self.password_mac_key, self.sik_input())
    }

    /// This session with its three keys: the session integrity key, and
    /// under it the hashes of twenty bytes 0x01 and of twenty bytes 0x02.
    pub open spec fn with_session_keys(self) -> SessionView {
        SessionView {
            sik: Some(self.derived_sik()),
            k1: Some(hmac_sha256(self.derived_sik(), twenty(0x01))),
            k2: Some(hmac_sha256(self.derived_sik(), twenty(0x02))),
            ..self
        }
    }

    /// The code that RAKP message 2 must carry.
    pub open spec fn rakp2_code(self) -> Seq<u8> {
        hmac_sha256(self.password_mac_key, self.rakp2_input())
    }

    /// The code that RAKP message 3 carries.
    pub open spec fn rakp3_code(self) -> Seq<u8> {
        hmac_sha256(self.password_mac_key, self.rakp3_input())
    }

    /// The check value that RAKP message 4 must carry: the first 16 bytes
    /// of the hash of `rakp4_input` under the session integrity key.
    pub open spec fn rakp4_check(self, sik: Seq<u8>) -> Seq<u8> {
        hmac_sha256_128(sik, self.rakp4_input())
    }

    /// The first datagram of discovery: Get Channel Authentication
    /// Capabilities for the channel the request comes in on, asking for
    /// the v2.0 data and the Administrator level, under a v1.5 header
    /// without authentication.
    pub open spec fn discovery_datagram() -> Seq<u8> {
        PacketView::outgoing(
            IpmiHeader::V1_5(
                IpmiV1Header {
                    auth_type: AuthType::AuthNone,
                    session_seq_number: 0,
                    session_id: 0,
                    auth_code: None,
                    payload_length: 9,
                },
            ),
            PayloadView::Ipmi(
                IpmiPayloadView::Request(
                    (GetChannelAuthCapabilitiesRequest {
                        channel_version: true,
                        channel_number: 0xE,
                        max_privilege: Privilege::Administrator,
                    }).spec_request(),
                ),
            ),
        ).spec_bytes()
    }

    /// The datagram that asks for the cipher suite record bytes at `index`.
    pub open spec fn cipher_suites_datagram(index: u8) -> Seq<u8> {
        PacketView::outgoing(
            IpmiHeader::V2_0(IpmiV2Header::unprotected(PayloadType::IPMI, 10)),
            PayloadView::Ipmi(
                IpmiPayloadView::Request(GetChannelCipherSuitesRequest::at_index(index).spec_request()),
            ),
        ).spec_bytes()
    }

    /// The datagram that asks to open a session with the algorithms of
    /// `suite`, at the Administrator level.
    pub open spec fn open_session_datagram(suite: CipherSuite) -> Seq<u8> {
        PacketView::outgoing(
            IpmiHeader::V2_0(IpmiV2Header::unprotected(PayloadType::RcmpOpenSessionRequest, 32)),
            PayloadView::RMCP(
                RMCPPlusOpenSession::Request(
                    RMCPPlusOpenSessionRequest {
                        message_tag: 0,
                        max_privilege: Privilege::Administrator,
                        remote_console_session_id: REMOTE_CONSOLE_SESSION_ID,
                        authentication_algorithm: suite.authentication,
                        integrity_algorithm: suite.integrity,
                        confidentiality_algorithm: suite.confidentiality,
                    },
                ),
            ),
        ).spec_bytes()
    }

    /// RAKP message 1 of this session: the nonce of the console, the
    /// Administrator level with inherit-role, and the user name.
    pub open spec fn rakp1_message(self) -> RAKPMessage1View {
        RAKPMessage1View {
            message_tag: 0,
            managed_system_session_id: self.managed_system_session_id,
            remote_console_random_number: self.remote_console_random_number,
            inherit_role: true,
            requested_max_privilege: Privilege::Administrator,
            username_length: self.username.len() as u8,
            username: self.username,
        }
    }

    /// The datagram that carries RAKP message 1.
    pub open spec fn rakp1_datagram(self) -> Seq<u8> {
        PacketView::outgoing(
            IpmiHeader::V2_0(
                IpmiV2Header::unprotected(PayloadType::RAKP1, (self.username.len() + 28) as u16),
            ),
            PayloadView::RAKP(RAKPView::Message1(self.rakp1_message())),
        ).spec_bytes()
    }

    /// The datagram that carries RAKP message 3 with its code.
    pub open spec fn rakp3_datagram(self) -> Seq<u8> {
        PacketView::outgoing(
            IpmiHeader::V2_0(IpmiV2Header::unprotected(PayloadType::RAKP3, 40)),
            PayloadView::RAKP(
                RAKPView::Message3(
                    RAKPMessage3View {
                        message_tag: 0,
                        rmcp_plus_status_code: StatusCode::NoErrors,
                        managed_system_session_id: self.managed_system_session_id,
                        key_exchange_auth_code: Some(self.rakp3_code()),
                    },
                ),
            ),
        ).spec_bytes()
    }

    /// The session after the capabilities of the channel have arrived as
    /// the data of a response, and what to do then. A channel that speaks
    /// v1.5 only is refused; otherwise the capabilities are kept and the
    /// first 16 cipher suite record bytes are asked for.
    pub open spec fn on_capabilities(self, data: Option<Seq<u8>>) -> (SessionView, Result<
        StepView,
        IPMIClientError,
    >) {
        match data {
            None => (
                self,
                Err(
                    IPMIClientError::PacketError(
                        PacketError::IPMIPayload(IpmiPayloadError::WrongLength),
                    ),
                ),
            ),
            Some(d) => match GetChannelAuthCapabilitiesResponseView::parse(d) {
                Err(e) => (self, Err(IPMIClientError::PacketError(PacketError::IPMIPayload(e)))),
                Ok(capabilities) => if capabilities.auth_version == AuthVersion::IpmiV1_5 {
                    (self, Err(IPMIClientError::UnsupportedVersion))
                } else {
                    (
                        SessionView {
                            channel_auth_capabilities: Some(capabilities),
                            cipher_suite_bytes: Seq::empty(),
                            cipher_list_index: 0,
                            awaiting: Awaiting::CipherSuites,
                            ..self
                        },
                        Ok(StepView::Send(SessionView::cipher_suites_datagram(0))),
                    )
                },
            },
        }
    }

    /// The session after cipher suite record bytes have arrived as the
    /// data of a response, and what to do then. The data is the channel
    /// number and the record bytes. Sixteen record bytes mean that more
    /// follow, and the next index is asked for; fewer, or the last index,
    /// end the list: the best suite of all record bytes is chosen and the
    /// session is asked to be opened with it.
    pub open spec fn on_cipher_suites(self, data: Option<Seq<u8>>) -> (SessionView, Result<
        StepView,
        IPMIClientError,
    >) {
        match data {
            Some(d) if d.len() >= 2 => {
                let gathered = self.cipher_suite_bytes + d.subrange(1, d.len() as int);
                if d.len() - 1 >= 16 && self.cipher_list_index < LAST_LIST_INDEX {
                    let index = (self.cipher_list_index + 1) as u8;
                    (
                        SessionView {
                            cipher_suite_bytes: gathered,
                            cipher_list_index: index,
                            ..self
                        },
                        Ok(StepView::Send(SessionView::cipher_suites_datagram(index))),
                    )
                } else {
                    let suite = best_suite(gathered);
                    (
                        SessionView {
                            cipher_suite_bytes: gathered,
                            auth_algorithm: suite.authentication,
                            integrity_algorithm: suite.integrity,
                            confidentiality_algorithm: suite.confidentiality,
                            auth_state: State::Authentication,
                            awaiting: Awaiting::OpenSessionResponse,
                            ..self
                        },
                        Ok(StepView::Send(SessionView::open_session_datagram(suite))),
                    )
                }
            },
            _ => (
                self,
                Err(
                    IPMIClientError::PacketError(
                        PacketError::IPMIPayload(IpmiPayloadError::WrongLength),
                    ),
                ),
            ),
        }
    }

    /// The session after an IPMI response has arrived, and what to do
    /// then. During discovery only the normal completion of the command
    /// that is awaited is in order. In an established session that awaits
    /// a reply every response is handed on, whatever its completion code;
    /// a Set Session Privilege Level that completed normally raises the
    /// privilege level to Administrator.
    pub open spec fn on_response(self, response: IpmiPayloadResponseView) -> (SessionView, Result<
        StepView,
        IPMIClientError,
    >) {
        let normal = response.completion_code == CompletionCode::CompletedNormally;
        if self.auth_state == State::Discovery && self.awaiting == Awaiting::ChannelAuthCapabilities
            && normal && response.command == Command::GetChannelAuthCapabilities {
            self.on_capabilities(response.data)
        } else if self.auth_state == State::Discovery && self.awaiting == Awaiting::CipherSuites
            && normal && response.command == Command::GetChannelCipherSuites {
            self.on_cipher_suites(response.data)
        } else if self.auth_state == State::Established && self.awaiting == Awaiting::Reply {
            (
                SessionView {
                    awaiting: Awaiting::Nothing,
                    privilege: if normal && response.command == Command::SetSessionPrivilegeLevel {
                        Privilege::Administrator
                    } else {
                        self.privilege
                    },
                    ..self
                },
                Ok(StepView::Response(response)),
            )
        } else {
            (self, Err(IPMIClientError::MisformedResponse))
        }
    }

    /// The session after the open-session response has arrived, and what
    /// to do then. A status other than `NoErrors` ends the attempt;
    /// otherwise the session id of the managed system is kept and RAKP
    /// message 1 goes out.
    pub open spec fn on_open_session_response(self, response: RMCPPlusOpenSessionResponse) -> (
        SessionView,
        Result<StepView, IPMIClientError>,
    ) {
        if self.auth_state != State::Authentication || self.awaiting
            != Awaiting::OpenSessionResponse {
            (self, Err(IPMIClientError::MisformedResponse))
        } else if response.rmcp_plus_status_code != StatusCode::NoErrors {
            (self, Err(IPMIClientError::FailedToOpenSession(response.rmcp_plus_status_code)))
        } else if self.username.len() > 255 {
            (self, Err(IPMIClientError::UsernameOver255InLength))
        } else {
            let next = SessionView {
                managed_system_session_id: response.managed_system_session_id,
                awaiting: Awaiting::Rakp2,
                ..self
            };
            (next, Ok(StepView::Send(next.rakp1_datagram())))
        }
    }

    /// The session after RAKP message 2 has arrived, and what to do then.
    /// A status other than `NoErrors` ends the attempt. Otherwise the
    /// nonce and GUID of the managed system and the session id of the
    /// console are kept; a code that the message carries must be the hash
    /// of `rakp2_input` under the user's key; the session keys are derived
    /// and RAKP message 3 goes out.
    pub open spec fn on_rakp2(self, message: RAKPMessage2View) -> (SessionView, Result<
        StepView,
        IPMIClientError,
    >) {
        let known = SessionView {
            managed_system_guid: message.managed_system_guid,
            remote_console_session_id: message.remote_console_session_id,
            managed_system_random_number: message.managed_system_random_number,
            ..self
        };
        if self.auth_state != State::Authentication || self.awaiting != Awaiting::Rakp2 {
            (self, Err(IPMIClientError::MisformedResponse))
        } else if message.rmcp_plus_status_code != StatusCode::NoErrors {
            (self, Err(IPMIClientError::FailedToOpenSession(message.rmcp_plus_status_code)))
        } else if self.username.len() > 255 {
            (self, Err(IPMIClientError::UsernameOver255InLength))
        } else if message.key_exchange_auth_code matches Some(code) && code != known.rakp2_code() {
            (self, Err(IPMIClientError::FailedToValidateRAKP2))
        } else {
            let next = SessionView { awaiting: Awaiting::Rakp4, ..known.with_session_keys() };
            (next, Ok(StepView::Send(next.rakp3_datagram())))
        }
    }

    /// The session after RAKP message 4 has arrived, and what to do then.
    /// A status other than `NoErrors` ends the attempt. The check value
    /// must be there and be the one that the session integrity key gives;
    /// then the session stands.
    pub open spec fn on_rakp4(self, message: RAKPMessage4View) -> (SessionView, Result<
        StepView,
        IPMIClientError,
    >) {
        if self.auth_state != State::Authentication || self.awaiting != Awaiting::Rakp4 {
            (self, Err(IPMIClientError::MisformedResponse))
        } else if message.rmcp_plus_status_code != StatusCode::NoErrors {
            (self, Err(IPMIClientError::FailedToOpenSession(message.rmcp_plus_status_code)))
        } else if self.sik matches Some(sik) && message.integrity_check_value == Some(
            self.rakp4_check(sik),
        ) {
            (
                SessionView {
                    auth_state: State::Established,
                    awaiting: Awaiting::Nothing,
                    ..self
                },
                Ok(StepView::Established),
            )
        } else {
            (self, Err(IPMIClientError::MismatchedKeyExchangeAuthCode))
        }
    }

    /// The session after a packet has arrived, and what to do then. Only
    /// what a managed system sends is in order: IPMI responses, the
    /// open-session response, RAKP messages 2 and 4. On every error the
    /// session is as it was.
    pub open spec fn on_packet(self, packet: PacketView) -> (SessionView, Result<
        StepView,
        IPMIClientError,
    >) {
        match packet.payload {
            Some(PayloadView::Ipmi(IpmiPayloadView::Response(r))) => self.on_response(r),
            Some(PayloadView::RMCP(RMCPPlusOpenSession::Response(r))) =>
                self.on_open_session_response(r),
            Some(PayloadView::RAKP(RAKPView::Message2(m))) => self.on_rakp2(m),
            Some(PayloadView::RAKP(RAKPView::Message4(m))) => self.on_rakp4(m),
            _ => (self, Err(IPMIClientError::MisformedResponse)),
        }
    }

    /// The session after a datagram has arrived, and what to do then. The
    /// datagram is read with the keys that the session has; one that
    /// cannot be read leaves the session as it was.
    pub open spec fn on_datagram(self, datagram: Seq<u8>) -> (SessionView, Result<
        StepView,
        IPMIClientError,
    >) {
        match PacketView::parse(datagram, self.k1, self.k2) {
            Err(e) => (self, Err(IPMIClientError::PacketError(e))),
            Ok(packet) => self.on_packet(packet),
        }
    }

    /// Whether requests can travel in the envelope: the session stands and
    /// has both keys.
    pub open spec fn can_send(self) -> bool {
        self.auth_state == State::Established && self.k1 is Some && self.k2 is Some
    }

    /// The session after a request went out: it awaits the reply, and the
    /// next request gets the next sequence number.
    pub open spec fn after_request(self) -> SessionView {
        SessionView {
            awaiting: Awaiting::Reply,
            session_seq_number: next_seq_number(self.session_seq_number),
            ..self
        }
    }

    /// The datagram that carries `request` in the envelope of this
    /// session, under the initialisation vector `iv`.
    pub open spec fn request_datagram(self, request: IpmiPayloadRawRequestView, iv: Seq<u8>) -> Option<
        Seq<u8>,
    > {
        request.spec_packet(
            self.managed_system_session_id,
            self.session_seq_number,
        ).spec_encrypted_bytes(self.k1.unwrap(), self.k2.unwrap(), iv)
    }

    /// Every request of a session with keys goes out behind a header that
    /// announces both encryption and authentication, carries the session
    /// id of the managed system and the sequence number of the session,
    /// and whose length field is the length of the message before padding
    /// and encryption.
    pub proof fn lemma_request_datagram(self, request: IpmiPayloadRawRequestView, iv: Seq<u8>)
        requires
            self.k1 is Some,
            self.k2 is Some,
            request.spec_request().spec_len() <= 0xFFFF,
        ensures
            self.request_datagram(request, iv) matches Some(datagram) && ({
                let header = request.spec_header(
                    self.managed_system_session_id,
                    self.session_seq_number,
                );
                &&& header.payload_enc && header.payload_auth
                &&& header.rmcp_plus_session_id == self.managed_system_session_id
                &&& header.session_seq_number == self.session_seq_number
                &&& header.payload_length == request.spec_request().spec_bytes().len()
                &&& datagram.len() >= 16
                &&& IpmiHeader::parse(datagram.subrange(4, 16)) == Ok::<IpmiHeader, IpmiHeaderError>(
                    IpmiHeader::V2_0(header),
                )
            }),
    {
        let packet = request.spec_packet(self.managed_system_session_id, self.session_seq_number);
        IpmiPayloadRequestView::lemma_len(request.spec_request());
        assert(packet.wf());
        PacketView::lemma_envelope_header(packet, self.k1.unwrap(), self.k2.unwrap(), iv);
    }

    /// Two requests that go out one after the other carry sequence numbers
    /// that differ by exactly 1, as long as the numbers last.
    pub proof fn lemma_sequence_numbers(
        self,
        first: IpmiPayloadRawRequestView,
        second: IpmiPayloadRawRequestView,
    )
        requires
            self.session_seq_number < u32::MAX,
        ensures
            second.spec_header(
                self.after_request().managed_system_session_id,
                self.after_request().session_seq_number,
            ).session_seq_number == first.spec_header(
                self.managed_system_session_id,
                self.session_seq_number,
            ).session_seq_number + 1,
            self.after_request().can_send() == self.can_send(),
    {
    }

    /// The engine only moves forward: a packet that is accepted leaves the
    /// session where it was or takes it from discovery to authentication
    /// or from authentication to established, and a packet that is refused
    /// leaves everything as it was. A session that becomes established by
    /// a packet has its session integrity key.
    pub proof fn lemma_progress(self, packet: PacketView)
        ensures
            ({
                let (next, step) = self.on_packet(packet);
                &&& step is Err ==> next == self
                &&& next.auth_state == self.auth_state || (self.auth_state == State::Discovery
                    && next.auth_state == State::Authentication) || (self.auth_state
                    == State::Authentication && next.auth_state == State::Established)
                &&& (step matches Ok(StepView::Established)) ==> next.auth_state
                    == State::Established && next.sik is Some
                &&& next.auth_state == State::Established && self.auth_state != State::Established
                    ==> step matches Ok(StepView::Established)
            }),
    {
    }
}

/// A copy of a 32-byte key as a vector.
fn key_bytes(key: &[u8; 32]) -> (r: Vec<u8>)
    ensures
        r@ == key@,
{
    slice_to_vec(key.as_slice())
}

/// Twenty bytes of the same value.
fn twenty_bytes(value: u8) -> (r: Vec<u8>)
    ensures
        r@ == twenty(value),
{
    let mut r: Vec<u8> = Vec::new();
    let mut i: usize = 0;
    while i < 20
        invariant
            i <= 20,
            r@ == Seq::new(i as nat, |k: int| value),
        decreases 20 - i,
    {
        r.push(value);
        i += 1;
        assert(r@ =~= Seq::new(i as nat, |k: int| value));
    }
    r
}

impl Session {
    /// A session before anything was sent, with the given nonce of the
    /// console.
    pub fn new(remote_console_random_number: u128) -> (r: Session)
        ensures
            r@ == SessionView::initial(remote_console_random_number),
    {
        let r = Session {
            auth_state: State::Discovery,
            awaiting: Awaiting::Nothing,
            privilege: Privilege::Callback,
            session_seq_number: FIRST_SESSION_SEQ_NUMBER,
            auth_algorithm: AuthAlgorithm::RakpNone,
            integrity_algorithm: IntegrityAlgorithm::IntegrityNone,
            confidentiality_algorithm: ConfidentialityAlgorithm::ConfidentialityNone,
            managed_system_session_id: 0,
            managed_system_random_number: 0,
            managed_system_guid: 0,
            remote_console_session_id: 0,
            remote_console_random_number,
            username: String::new(),
            password_mac_key: Vec::new(),
            channel_auth_capabilities: None,
            cipher_suite_bytes: Vec::new(),
            cipher_list_index: 0,
            sik: None,
            k1: None,
            k2: None,
        };
        assert(r@.username =~= Seq::<u8>::empty()) by {
            reveal_with_fuel(encode_utf8, 1);
        }
        r
    }

    /// A session before anything was sent, with a fresh random nonce.
    pub fn with_random_nonce() -> (r: Session)
        ensures
            exists|nonce: u128| r@ == #[trigger] SessionView::initial(nonce),
    {
        Session::new(random_u128())
    }

    /// The first datagram of discovery.
    pub fn discovery_request(&self) -> (r: Vec<u8>)
        ensures
            r@ == SessionView::discovery_datagram(),
    {
        GetChannelAuthCapabilitiesRequest::new(true, 0xE, Privilege::Administrator).create_packet(
            AuthType::AuthNone,
            0x0,
            0x0,
            None,
        ).to_bytes()
    }

    /// Takes the credentials, starts over at discovery, and gives the
    /// first datagram to send. A user name of more than 255 bytes has no
    /// length byte in the key exchange and is refused; the session is then
    /// as it was.
    pub fn establish_connection(&mut self, username: String, password: String) -> (r: Result<
        Vec<u8>,
        IPMIClientError,
    >)
        ensures
            r is Ok == (encode_utf8(username@).len() <= 255),
            r matches Err(e) ==> e == IPMIClientError::UsernameOver255InLength && final(self)@
                == old(self)@,
            r matches Ok(datagram) ==> datagram@ == SessionView::discovery_datagram()
                && final(self)@ == (SessionView {
                username: encode_utf8(username@),
                password_mac_key: encode_utf8(password@),
                awaiting: Awaiting::ChannelAuthCapabilities,
                ..SessionView::initial(old(self)@.remote_console_random_number)
            }),
    {
        if username.as_str().as_bytes().len() > 255 {
            return Err(IPMIClientError::UsernameOver255InLength);
        }
        let key: Vec<u8> = slice_to_vec(password.as_str().as_bytes());
        let mut fresh: Session = Session::new(self.remote_console_random_number);
        fresh.username = username;
        fresh.password_mac_key = key;
        fresh.awaiting = Awaiting::ChannelAuthCapabilities;
        *self = fresh;
        Ok(self.discovery_request())
    }

    /// Appends the name block: the role byte, the length of the user name
    /// and the user name.
    fn push_name_block(&self, out: &mut Vec<u8>)
        requires
            self@.username.len() <= 255,
        ensures
            final(out)@ == old(out)@ + self@.name_block(),
    {
        let name: &[u8] = self.username.as_str().as_bytes();
        out.push(join_two_bits_to_byte(1, Privilege::Administrator.to_u8(), 4));
        out.push(name.len() as u8);
        append_bytes(out, name);
        assert(out@ =~= old(out)@ + self@.name_block());
    }

    /// Derives the session integrity key from the user's key, both nonces
    /// and the user name, and the two session keys from it. A user name of
    /// more than 255 bytes is refused and leaves the session as it was.
    pub fn create_session_keys(&mut self) -> (r: Result<(), IPMIClientError>)
        ensures
            r is Ok == (old(self)@.username.len() <= 255),
            r is Ok ==> final(self)@ == old(self)@.with_session_keys(),
            r matches Err(e) ==> e == IPMIClientError::UsernameOver255InLength && final(self)@
                == old(self)@,
    {
        if self.username.as_str().as_bytes().len() > 255 {
            return Err(IPMIClientError::UsernameOver255InLength);
        }
        let mut sik_input: Vec<u8> = Vec::new();
        append_u128_to_vec(&mut sik_input, self.remote_console_random_number);
        append_u128_to_vec(&mut sik_input, self.managed_system_random_number);
        self.push_name_block(&mut sik_input);
        assert(sik_input@ =~= self@.sik_input());
        let sik: [u8; 32] = hash_hmac_sha_256(
            slice_to_vec(self.password_mac_key.as_slice()),
            sik_input,
        );
        let k1: [u8; 32] = hash_hmac_sha_256(key_bytes(&sik), twenty_bytes(1));
        let k2: [u8; 32] = hash_hmac_sha_256(key_bytes(&sik), twenty_bytes(2));
        self.sik = Some(sik);
        self.k1 = Some(k1);
        self.k2 = Some(k2);
        Ok(())
    }

    /// Checks the code of RAKP message 2 against the hash that the user's
    /// key gives for the session as it will be once the message is taken
    /// in. A message without a code passes. The comparison takes the same
    /// time wherever the codes differ.
    pub fn validate_rakp2(&self, response: &RAKPMessage2) -> (r: Result<(), IPMIClientError>)
        ensures
            r == (if self@.username.len() > 255 {
                Err::<(), IPMIClientError>(IPMIClientError::UsernameOver255InLength)
            } else if response@.key_exchange_auth_code matches Some(code) && code != (SessionView {
                managed_system_guid: response@.managed_system_guid,
                remote_console_session_id: response@.remote_console_session_id,
                managed_system_random_number: response@.managed_system_random_number,
                ..self@
            }).rakp2_code() {
                Err::<(), IPMIClientError>(IPMIClientError::FailedToValidateRAKP2)
            } else {
                Ok::<(), IPMIClientError>(())
            }),
    {
        if self.username.as_str().as_bytes().len() > 255 {
            return Err(IPMIClientError::UsernameOver255InLength);
        }
        match &response.key_exchange_auth_code {
            None => Ok(()),
            Some(code) => {
                let ghost known = SessionView {
                    managed_system_guid: response@.managed_system_guid,
                    remote_console_session_id: response@.remote_console_session_id,
                    managed_system_random_number: response@.managed_system_random_number,
                    ..self@
                };
                let mut input: Vec<u8> = Vec::new();
                append_u32_to_vec(&mut input, response.remote_console_session_id);
                append_u32_to_vec(&mut input, self.managed_system_session_id);
                append_u128_to_vec(&mut input, self.remote_console_random_number);
                append_u128_to_vec(&mut input, response.managed_system_random_number);
                append_u128_to_vec(&mut input, response.managed_system_guid);
                self.push_name_block(&mut input);
                assert(input@ =~= known.rakp2_input());
                let expected: [u8; 32] = hash_hmac_sha_256(
                    slice_to_vec(self.password_mac_key.as_slice()),
                    input,
                );
                if bytes_equal(expected.as_slice(), code.as_slice()) {
                    Ok(())
                } else {
                    Err(IPMIClientError::FailedToValidateRAKP2)
                }
            },
        }
    }

    /// Picks the cipher suite from the record bytes gathered so far.
    pub fn choose_ciphers(&mut self)
        ensures
            final(self)@ == (SessionView {
                auth_algorithm: best_suite(old(self)@.cipher_suite_bytes).authentication,
                integrity_algorithm: best_suite(old(self)@.cipher_suite_bytes).integrity,
                confidentiality_algorithm: best_suite(old(self)@.cipher_suite_bytes).confidentiality,
                ..old(self)@
            }),
    {
        let suite: CipherSuite = choose_cipher_suite(self.cipher_suite_bytes.as_slice());
        self.auth_algorithm = suite.authentication;
        self.integrity_algorithm = suite.integrity;
        self.confidentiality_algorithm = suite.confidentiality;
    }

    /// Takes in the capabilities of the channel.
    pub fn handle_channel_auth_capabilities(&mut self, data: Option<Vec<u8>>) -> (r: Result<
        Step,
        IPMIClientError,
    >)
        ensures
            (final(self)@, viewed(r)) == old(self)@.on_capabilities(optional_view(data)),
    {
        let bytes: Vec<u8> = match data {
            Some(d) => d,
            None => {
                return Err(
                    IPMIClientError::PacketError(
                        PacketError::IPMIPayload(IpmiPayloadError::WrongLength),
                    ),
                );
            },
        };
        let response: GetChannelAuthCapabilitiesResponse =
            match GetChannelAuthCapabilitiesResponse::from_slice(bytes.as_slice()) {
            Ok(c) => c,
            Err(e) => {
                return Err(IPMIClientError::PacketError(PacketError::IPMIPayload(e)));
            },
        };
        if response.auth_version == AuthVersion::IpmiV1_5 {
            return Err(IPMIClientError::UnsupportedVersion);
        }
        self.channel_auth_capabilities = Some(response);
        self.cipher_suite_bytes = Vec::new();
        self.cipher_list_index = 0;
        self.awaiting = Awaiting::CipherSuites;
        Ok(Step::Send(GetChannelCipherSuitesRequest::default().create_packet().to_bytes()))
    }

    /// Takes in cipher suite record bytes.
    pub fn handle_cipher_suites(&mut self, data: Option<Vec<u8>>) -> (r: Result<
        Step,
        IPMIClientError,
    >)
        ensures
            (final(self)@, viewed(r)) == old(self)@.on_cipher_suites(optional_view(data)),
    {
        let bytes: Vec<u8> = match data {
            Some(d) => d,
            None => {
                return Err(
                    IPMIClientError::PacketError(
                        PacketError::IPMIPayload(IpmiPayloadError::WrongLength),
                    ),
                );
            },
        };
        let response: GetChannelCipherSuitesResponse =
            match GetChannelCipherSuitesResponse::from_slice(bytes.as_slice()) {
            Ok(c) => c,
            Err(e) => {
                return Err(IPMIClientError::PacketError(PacketError::IPMIPayload(e)));
            },
        };
        append_bytes(
            &mut self.cipher_suite_bytes,
            response.cypher_suite_record_data_bytes.as_slice(),
        );
        if !response.is_last() && self.cipher_list_index < LAST_LIST_INDEX {
            self.cipher_list_index = self.cipher_list_index + 1;
            Ok(
                Step::Send(
                    GetChannelCipherSuitesRequest::new(
                        0xe,
                        PayloadType::IPMI,
                        true,
                        self.cipher_list_index,
                    ).create_packet().to_bytes(),
                ),
            )
        } else {
            self.choose_ciphers();
            self.auth_state = State::Authentication;
            self.awaiting = Awaiting::OpenSessionResponse;
            Ok(
                Step::Send(
                    RMCPPlusOpenSessionRequest::new(
                        0,
                        Privilege::Administrator,
                        REMOTE_CONSOLE_SESSION_ID,
                        self.auth_algorithm,
                        self.integrity_algorithm,
                        self.confidentiality_algorithm,
                    ).create_packet().to_bytes(),
                ),
            )
        }
    }

    /// Takes in an IPMI response.
    pub fn handle_completion_code(&mut self, payload: IpmiPayloadResponse) -> (r: Result<
        Step,
        IPMIClientError,
    >)
        ensures
            (final(self)@, viewed(r)) == old(self)@.on_response(payload@),
    {
        let normal: bool = payload.completion_code == CompletionCode::CompletedNormally;
        if self.auth_state == State::Discovery && self.awaiting == Awaiting::ChannelAuthCapabilities
            && normal && payload.command == Command::GetChannelAuthCapabilities {
            self.handle_channel_auth_capabilities(payload.data)
        } else if self.auth_state == State::Discovery && self.awaiting == Awaiting::CipherSuites
            && normal && payload.command == Command::GetChannelCipherSuites {
            self.handle_cipher_suites(payload.data)
        } else if self.auth_state == State::Established && self.awaiting == Awaiting::Reply {
            self.awaiting = Awaiting::Nothing;
            if normal && payload.command == Command::SetSessionPrivilegeLevel {
                self.privilege = Privilege::Administrator;
            }
            Ok(Step::Response(payload))
        } else {
            Err(IPMIClientError::MisformedResponse)
        }
    }

    /// Takes in the open-session response.
    pub fn handle_open_session_response(&mut self, response: RMCPPlusOpenSessionResponse) -> (r:
        Result<Step, IPMIClientError>)
        ensures
            (final(self)@, viewed(r)) == old(self)@.on_open_session_response(response),
    {
        if !(self.auth_state == State::Authentication && self.awaiting
            == Awaiting::OpenSessionResponse) {
            return Err(IPMIClientError::MisformedResponse);
        }
        if response.rmcp_plus_status_code != StatusCode::NoErrors {
            return Err(IPMIClientError::FailedToOpenSession(response.rmcp_plus_status_code));
        }
        let message: RAKPMessage1 = match RAKPMessage1::new(
            0x0,
            response.managed_system_session_id,
            self.remote_console_random_number,
            true,
            Privilege::Administrator,
            self.username.clone(),
        ) {
            Ok(m) => m,
            Err(e) => {
                return Err(e);
            },
        };
        self.managed_system_session_id = response.managed_system_session_id;
        self.awaiting = Awaiting::Rakp2;
        Ok(Step::Send(message.create_packet().to_bytes()))
    }

    /// Takes in RAKP message 2.
    pub fn handle_rakp2(&mut self, message: RAKPMessage2) -> (r: Result<Step, IPMIClientError>)
        ensures
            (final(self)@, viewed(r)) == old(self)@.on_rakp2(message@),
    {
        if !(self.auth_state == State::Authentication && self.awaiting == Awaiting::Rakp2) {
            return Err(IPMIClientError::MisformedResponse);
        }
        if message.rmcp_plus_status_code != StatusCode::NoErrors {
            return Err(IPMIClientError::FailedToOpenSession(message.rmcp_plus_status_code));
        }
        match self.validate_rakp2(&message) {
            Ok(_) => {},
            Err(e) => {
                return Err(e);
            },
        }
        self.managed_system_guid = message.managed_system_guid;
        self.remote_console_session_id = message.remote_console_session_id;
        self.managed_system_random_number = message.managed_system_random_number;
        match self.create_session_keys() {
            Ok(_) => {},
            Err(e) => {
                return Err(e);
            },
        }
        let mut input: Vec<u8> = Vec::new();
        append_u128_to_vec(&mut input, self.managed_system_random_number);
        append_u32_to_vec(&mut input, self.remote_console_session_id);
        self.push_name_block(&mut input);
        assert(input@ =~= self@.rakp3_input());
        let code: [u8; 32] = hash_hmac_sha_256(
            slice_to_vec(self.password_mac_key.as_slice()),
            input,
        );
        self.awaiting = Awaiting::Rakp4;
        let packet: Packet = RAKPMessage3::new(
            0x0,
            StatusCode::NoErrors,
            self.managed_system_session_id,
            Some(key_bytes(&code)),
        ).create_packet();
        Ok(Step::Send(packet.to_bytes()))
    }

    /// Takes in RAKP message 4. The comparison of the check value takes
    /// the same time wherever the values differ.
    pub fn handle_rakp4(&mut self, message: RAKPMessage4) -> (r: Result<Step, IPMIClientError>)
        ensures
            (final(self)@, viewed(r)) == old(self)@.on_rakp4(message@),
    {
        if !(self.auth_state == State::Authentication && self.awaiting == Awaiting::Rakp4) {
            return Err(IPMIClientError::MisformedResponse);
        }
        if message.rmcp_plus_status_code != StatusCode::NoErrors {
            return Err(IPMIClientError::FailedToOpenSession(message.rmcp_plus_status_code));
        }
        let sik: [u8; 32] = match self.sik {
            Some(k) => k,
            None => {
                return Err(IPMIClientError::MismatchedKeyExchangeAuthCode);
            },
        };
        let value: &Vec<u8> = match &message.integrity_check_value {
            Some(v) => v,
            None => {
                return Err(IPMIClientError::MismatchedKeyExchangeAuthCode);
            },
        };
        let mut input: Vec<u8> = Vec::new();
        append_u128_to_vec(&mut input, self.remote_console_random_number);
        append_u32_to_vec(&mut input, self.managed_system_session_id);
        append_u128_to_vec(&mut input, self.managed_system_guid);
        assert(input@ =~= self@.rakp4_input());
        let check: [u8; 16] = hash_hmac_sha_256_128(key_bytes(&sik), input);
        if bytes_equal(value.as_slice(), check.as_slice()) {
            self.auth_state = State::Established;
            self.awaiting = Awaiting::Nothing;
            Ok(Step::Established)
        } else {
            Err(IPMIClientError::MismatchedKeyExchangeAuthCode)
        }
    }

    /// Takes in a message of the session set-up: the open-session
    /// response, RAKP message 2 or RAKP message 4. Every other payload is
    /// out of place here.
    pub fn handle_status_code(&mut self, payload: Payload) -> (r: Result<Step, IPMIClientError>)
        ensures
            (final(self)@, viewed(r)) == (match payload@ {
                PayloadView::RMCP(RMCPPlusOpenSession::Response(p)) =>
                    old(self)@.on_open_session_response(p),
                PayloadView::RAKP(RAKPView::Message2(m)) => old(self)@.on_rakp2(m),
                PayloadView::RAKP(RAKPView::Message4(m)) => old(self)@.on_rakp4(m),
                _ => (old(self)@, Err(IPMIClientError::MisformedResponse)),
            }),
    {
        match payload {
            Payload::RMCP(RMCPPlusOpenSession::Response(response)) =>
                self.handle_open_session_response(response),
            Payload::RAKP(RAKP::Message2(message)) => self.handle_rakp2(message),
            Payload::RAKP(RAKP::Message4(message)) => self.handle_rakp4(message),
            _ => Err(IPMIClientError::MisformedResponse),
        }
    }

    /// Takes in a packet that has arrived.
    pub fn handle_packet(&mut self, packet: Packet) -> (r: Result<Step, IPMIClientError>)
        ensures
            (final(self)@, viewed(r)) == old(self)@.on_packet(packet@),
    {
        match packet.payload {
            Some(Payload::Ipmi(IpmiPayload::Response(payload))) => self.handle_completion_code(
                payload,
            ),
            Some(Payload::Ipmi(IpmiPayload::Request(_))) => Err(IPMIClientError::MisformedResponse),
            Some(payload) => self.handle_status_code(payload),
            None => Err(IPMIClientError::MisformedResponse),
        }
    }

    /// Takes in a datagram that has arrived and says what to do next.
    pub fn receive(&mut self, datagram: &[u8]) -> (r: Result<Step, IPMIClientError>)
        ensures
            (final(self)@, viewed(r)) == old(self)@.on_datagram(datagram@),
    {
        let parsed: Result<Packet, PacketError> = Packet::from_slice(
            datagram,
            self.k1.as_ref(),
            self.k2.as_ref(),
        );
        match parsed {
            Err(e) => Err(IPMIClientError::PacketError(e)),
            Ok(packet) => self.handle_packet(packet),
        }
    }

    /// The datagram that carries a request in the envelope of the
    /// session, under the given initialisation vector. Outside an
    /// established session nothing can be sent this way; data that does
    /// not leave the message short enough for the sixteen-bit length field
    /// is refused as of the wrong length. On success the session awaits
    /// the reply and the sequence number has moved on by one.
    pub fn send_raw_request_with_iv(
        &mut self,
        net_fn: NetFn,
        command_code: u8,
        data: Option<Vec<u8>>,
        iv: [u8; 16],
    ) -> (r: Result<Vec<u8>, IPMIClientError>)
        ensures
            r is Ok == (old(self)@.can_send() && Session::spec_raw_request(
                net_fn,
                command_code,
                optional_view(data),
            ).spec_request().spec_len() <= 0xFFFF),
            r matches Err(e) ==> e == (if !old(self)@.can_send() {
                IPMIClientError::SessionNotEstablishedYet
            } else {
                IPMIClientError::PacketError(PacketError::WrongLength)
            }),
            r is Err ==> final(self)@ == old(self)@,
            r matches Ok(datagram) ==> final(self)@ == old(self)@.after_request() && Some(datagram@)
                == old(self)@.request_datagram(
                Session::spec_raw_request(net_fn, command_code, optional_view(data)),
                iv@,
            ),
    {
        if self.auth_state != State::Established {
            return Err(IPMIClientError::SessionNotEstablishedYet);
        }
        let (k1, k2): ([u8; 32], [u8; 32]) = match (self.k1, self.k2) {
            (Some(a), Some(b)) => (a, b),
            _ => {
                return Err(IPMIClientError::SessionNotEstablishedYet);
            },
        };
        let extra: usize = match &data {
            Some(d) => d.len(),
            None => 0,
        };
        if extra > 0xFFFF - 7 {
            return Err(IPMIClientError::PacketError(PacketError::WrongLength));
        }
        let command: Command = Command::from_u8_and_netfn(command_code, net_fn);
        let packet: Packet = IpmiPayloadRawRequest::new(net_fn, command, data).create_packet(
            self.managed_system_session_id,
            self.session_seq_number,
        );
        match packet.to_encrypted_bytes_with_iv(&k1, &k2, iv) {
            Some(datagram) => {
                self.session_seq_number = if self.session_seq_number == u32::MAX {
                    0
                } else {
                    self.session_seq_number + 1
                };
                self.awaiting = Awaiting::Reply;
                Ok(datagram)
            },
            None => Err(IPMIClientError::SessionNotEstablishedYet),
        }
    }

    /// The request that the numbers `net_fn`, `command_code` and `data`
    /// stand for.
    pub open spec fn spec_raw_request(
        net_fn: NetFn,
        command_code: u8,
        data: Option<Seq<u8>>,
    ) -> IpmiPayloadRawRequestView {
        IpmiPayloadRawRequestView {
            netfn: net_fn,
            command_code: Command::from_code_and_netfn(command_code, net_fn),
            data,
        }
    }

    /// The datagram that carries a request in the envelope of the
    /// session, under a fresh initialisation vector.
    pub fn send_raw_request(&mut self, net_fn: NetFn, command_code: u8, data: Option<Vec<u8>>) -> (r:
        Result<Vec<u8>, IPMIClientError>)
        ensures
            r is Ok == (old(self)@.can_send() && Session::spec_raw_request(
                net_fn,
                command_code,
                optional_view(data),
            ).spec_request().spec_len() <= 0xFFFF),
            r is Err ==> final(self)@ == old(self)@,
            r matches Err(e) ==> e == (if !old(self)@.can_send() {
                IPMIClientError::SessionNotEstablishedYet
            } else {
                IPMIClientError::PacketError(PacketError::WrongLength)
            }),
            r matches Ok(datagram) ==> final(self)@ == old(self)@.after_request() && exists|
                iv: Seq<u8>,
            |
                iv.len() == 16 && Some(datagram@) == #[trigger] old(self)@.request_datagram(
                    Session::spec_raw_request(net_fn, command_code, optional_view(data)),
                    iv,
                ),
    {
        let iv: [u8; 16] = generate_iv();
        self.send_raw_request_with_iv(net_fn, command_code, data, iv)
    }

    /// Forgets the secrets of the session: the bytes of the user's key are
    /// set to zero before the vector is emptied, and the three session keys
    /// are dropped. The session is back at discovery.
    pub fn discard_keys(&mut self)
        ensures
            final(self)@ == (SessionView {
                password_mac_key: Seq::empty(),
                sik: None,
                k1: None,
                k2: None,
                auth_state: State::Discovery,
                awaiting: Awaiting::Nothing,
                ..old(self)@
            }),
    {
        let mut i: usize = 0;
        while i < self.password_mac_key.len()
            invariant
                i <= self.password_mac_key.len(),
                self.password_mac_key.len() == old(self).password_mac_key.len(),
                self@ == (SessionView { password_mac_key: self.password_mac_key@, ..old(self)@ }),
            decreases self.password_mac_key.len() - i,
        {
            self.password_mac_key[i] = 0;
            i += 1;
        }
        self.password_mac_key.clear();
        self.sik = None;
        self.k1 = None;
        self.k2 = None;
        self.auth_state = State::Discovery;
        self.awaiting = Awaiting::Nothing;
    }

    /// Whether the privilege level has yet to be raised to Administrator.
    pub fn needs_privilege(&self) -> (r: bool)
        ensures
            r == (self@.privilege != Privilege::Administrator),
    {
        self.privilege != Privilege::Administrator
    }

    /// The datagram that asks for the Administrator level: Set Session
    /// Privilege Level with the one data byte 4, in the envelope.
    pub fn set_privilege_request(&mut self) -> (r: Result<Vec<u8>, IPMIClientError>)
        ensures
            r is Ok == old(self)@.can_send(),
            r is Err ==> final(self)@ == old(self)@,
            r matches Err(e) ==> e == IPMIClientError::SessionNotEstablishedYet,
            r matches Ok(datagram) ==> final(self)@ == old(self)@.after_request() && exists|
                iv: Seq<u8>,
            |
                iv.len() == 16 && Some(datagram@) == #[trigger] old(self)@.request_datagram(
                    Session::spec_raw_request(
                        NetFn::App,
                        0x3b,
                        Some(seq![Privilege::Administrator.code()]),
                    ),
                    iv,
                ),
    {
        let mut data: Vec<u8> = Vec::new();
        data.push(Privilege::Administrator.to_u8());
        assert(data@ =~= seq![Privilege::Administrator.code()]);
        self.send_raw_request(NetFn::App, 0x3b, Some(data))
    }
}

} // verus!
