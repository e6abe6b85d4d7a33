//! A whole datagram: RMCP frame, session header, payload; and the
//! encrypted, authenticated envelope that an established session puts
//! around the payload.
use crate::err::{IpmiHeaderError, PacketError};
use crate::helpers::bytes::{append_bytes, bytes_equal};
use crate::helpers::utils::{
    aes_128_cbc_decrypt, aes_128_cbc_encrypt, decrypted_payload, encrypted_payload, generate_iv,
    hash_hmac_sha_256_128, hmac_sha256_128,
};
use crate::parser::ipmi_header::{AuthType, IpmiHeader};
use crate::parser::ipmi_payload::{IpmiPayload, IpmiPayloadView};
use crate::parser::ipmi_v1_header::IpmiV1Header;
use crate::parser::ipmi_v2_header::{IpmiV2Header, PayloadType};
use crate::parser::rakp::{RAKPMessage2, RAKPMessage2View, RAKPMessage4, RAKPMessage4View, RAKPView, RAKP};
use crate::parser::rmcp_header::{MessageClass, RmcpHeader};
use crate::parser::rmcp_open_session::{RMCPPlusOpenSession, RMCPPlusOpenSessionResponse};
use crate::helpers::views::viewed;
use vstd::prelude::*;
use vstd::slice::{slice_subrange, slice_to_vec};

verus! {

/// What a packet carries behind its session header.
#[derive(Clone, Debug, PartialEq, Eq, Hash)]
pub enum Payload {
    Ipmi(IpmiPayload),
    RMCP(RMCPPlusOpenSession),
    RAKP(RAKP),
}

/// What a `Payload` holds.
pub enum PayloadView {
    Ipmi(IpmiPayloadView),
    RMCP(RMCPPlusOpenSession),
    RAKP(RAKPView),
}

impl View for Payload {
    type V = PayloadView;

    open spec fn view(&self) -> PayloadView {
        match self {
            Payload::Ipmi(p) => PayloadView::Ipmi(p@),
            Payload::RMCP(p) => PayloadView::RMCP(*p),
            Payload::RAKP(p) => PayloadView::RAKP(p@),
        }
    }
}

impl PayloadView {
    /// The bytes of this payload.
    pub open spec fn spec_bytes(self) -> Seq<u8> {
        match self {
            PayloadView::Ipmi(p) => p.spec_bytes(),
            PayloadView::RMCP(p) => p.spec_bytes(),
            PayloadView::RAKP(p) => p.spec_bytes(),
        }
    }

    /// The payload type that a v2.0 header announces this payload with.
    pub open spec fn payload_type(self) -> PayloadType {
        match self {
            PayloadView::Ipmi(_) => PayloadType::IPMI,
            PayloadView::RMCP(RMCPPlusOpenSession::Request(_)) => PayloadType::RcmpOpenSessionRequest,
            PayloadView::RMCP(RMCPPlusOpenSession::Response(_)) =>
                PayloadType::RcmpOpenSessionResponse,
            PayloadView::RAKP(m) => m.payload_type(),
        }
    }
}

impl PayloadView {
    /// Whether the payload is one that its own bytes spell.
    pub open spec fn wf(self) -> bool {
        match self {
            PayloadView::Ipmi(p) => p.wf(),
            PayloadView::RMCP(RMCPPlusOpenSession::Request(_)) => true,
            PayloadView::RMCP(RMCPPlusOpenSession::Response(p)) => p.wf(),
            PayloadView::RAKP(RAKPView::Message2(m)) => m.wf(),
            PayloadView::RAKP(RAKPView::Message4(m)) => m.wf(),
            PayloadView::RAKP(_) => true,
        }
    }

    /// The payload of the announced type that `s` spells. Only what a
    /// managed system sends is read: IPMI messages, the open-session
    /// response, RAKP messages 2 and 4.
    pub open spec fn parse(payload_type: PayloadType, s: Seq<u8>) -> Result<
        PayloadView,
        PacketError,
    > {
        match payload_type {
            PayloadType::IPMI => match IpmiPayloadView::parse(s) {
                Ok(p) => Ok(PayloadView::Ipmi(p)),
                Err(e) => Err(PacketError::IPMIPayload(e)),
            },
            PayloadType::RcmpOpenSessionResponse => match RMCPPlusOpenSessionResponse::parse(s) {
                Ok(p) => Ok(PayloadView::RMCP(RMCPPlusOpenSession::Response(p))),
                Err(e) => Err(PacketError::IPMIPayload(e)),
            },
            PayloadType::RAKP2 => match RAKPMessage2View::parse(s) {
                Ok(p) => Ok(PayloadView::RAKP(RAKPView::Message2(p))),
                Err(e) => Err(PacketError::IPMIPayload(e)),
            },
            PayloadType::RAKP4 => match RAKPMessage4View::parse(s) {
                Ok(p) => Ok(PayloadView::RAKP(RAKPView::Message4(p))),
                Err(e) => Err(PacketError::IPMIPayload(e)),
            },
            _ => Err(PacketError::FailedToParse),
        }
    }

    /// Whether this is a kind of payload that `parse` reads.
    pub open spec fn is_incoming(self) -> bool {
        match self {
            PayloadView::Ipmi(_) => true,
            PayloadView::RMCP(RMCPPlusOpenSession::Response(_)) => true,
            PayloadView::RAKP(RAKPView::Message2(_)) => true,
            PayloadView::RAKP(RAKPView::Message4(_)) => true,
            _ => false,
        }
    }

    /// Parsing the bytes of a well-formed incoming payload under its own
    /// type gives the payload back.
    pub proof fn lemma_parse_of_bytes(p: PayloadView)
        requires
            p.wf(),
            p.is_incoming(),
        ensures
            PayloadView::parse(p.payload_type(), p.spec_bytes()) == Ok::<PayloadView, PacketError>(
                p,
            ),
    {
        match p {
            PayloadView::Ipmi(q) => {
                IpmiPayloadView::lemma_parse_of_bytes(q);
            },
            PayloadView::RMCP(RMCPPlusOpenSession::Response(q)) => {
                RMCPPlusOpenSessionResponse::lemma_parse_of_bytes(q);
            },
            PayloadView::RAKP(RAKPView::Message2(q)) => {
                RAKPMessage2View::lemma_parse_of_bytes(q);
            },
            PayloadView::RAKP(RAKPView::Message4(q)) => {
                RAKPMessage4View::lemma_parse_of_bytes(q);
            },
            _ => {},
        }
    }
}

impl Payload {
    /// Reads a payload of the announced type.
    pub fn from_slice(payload_type: PayloadType, value: &[u8]) -> (r: Result<Payload, PacketError>)
        ensures
            viewed(r) == PayloadView::parse(payload_type, value@),
    {
        match payload_type {
            PayloadType::IPMI => match IpmiPayload::from_slice(value) {
                Ok(p) => Ok(Payload::Ipmi(p)),
                Err(e) => Err(PacketError::IPMIPayload(e)),
            },
            PayloadType::RcmpOpenSessionResponse => match RMCPPlusOpenSessionResponse::from_slice(
                value,
            ) {
                Ok(p) => Ok(Payload::RMCP(RMCPPlusOpenSession::Response(p))),
                Err(e) => Err(PacketError::IPMIPayload(e)),
            },
            PayloadType::RAKP2 => match RAKPMessage2::from_slice(value) {
                Ok(p) => Ok(Payload::RAKP(RAKP::Message2(p))),
                Err(e) => Err(PacketError::IPMIPayload(e)),
            },
            PayloadType::RAKP4 => match RAKPMessage4::from_slice(value) {
                Ok(p) => Ok(Payload::RAKP(RAKP::Message4(p))),
                Err(e) => Err(PacketError::IPMIPayload(e)),
            },
            _ => Err(PacketError::FailedToParse),
        }
    }

    /// Writes this payload.
    pub fn to_bytes(&self) -> (r: Vec<u8>)
        ensures
            r@ == self@.spec_bytes(),
    {
        match self {
            Payload::Ipmi(payload) => payload.to_bytes(),
            Payload::RMCP(payload) => payload.to_bytes(),
            Payload::RAKP(payload) => payload.to_bytes(),
        }
    }
}

/// A datagram taken apart.
#[derive(Clone, Debug, PartialEq, Eq, Hash)]
pub struct Packet {
    pub rmcp_header: RmcpHeader,
    pub ipmi_header: IpmiHeader,
    pub payload: Option<Payload>,
}

/// What a `Packet` holds.
pub struct PacketView {
    pub rmcp_header: RmcpHeader,
    pub ipmi_header: IpmiHeader,
    pub payload: Option<PayloadView>,
}

impl View for Packet {
    type V = PacketView;

    open spec fn view(&self) -> PacketView {
        PacketView {
            rmcp_header: self.rmcp_header,
            ipmi_header: self.ipmi_header,
            payload: match self.payload {
                Some(p) => Some(p@),
                None => None,
            },
        }
    }
}

/// The bytes of a key that may be absent.
pub open spec fn key_view(key: Option<&[u8; 32]>) -> Option<Seq<u8>> {
    match key {
        Some(k) => Some(k@),
        None => None,
    }
}

/// The RMCP header of every packet that the library builds.
pub open spec fn outgoing_rmcp_header() -> RmcpHeader {
    RmcpHeader {
        version: 0x06,
        reserved: 0,
        sequence_number: 0xff,
        rmcp_ack: false,
        message_class: MessageClass::IPMI,
    }
}

impl PacketView {
    /// A packet under the RMCP header of outgoing packets.
    pub open spec fn outgoing(ipmi_header: IpmiHeader, payload: PayloadView) -> PacketView {
        PacketView { rmcp_header: outgoing_rmcp_header(), ipmi_header, payload: Some(payload) }
    }

    /// The bytes of the payload; none where there is no payload.
    pub open spec fn payload_bytes(self) -> Seq<u8> {
        match self.payload {
            Some(p) => p.spec_bytes(),
            None => Seq::empty(),
        }
    }

    /// The header is well-formed and tells the truth about the payload: its
    /// length field is the length of the payload bytes, a v2.0 header
    /// announces the kind of payload that is there, a v1.5 header carries
    /// an IPMI message; and a v2.0 header that announces encryption
    /// announces authentication too.
    pub open spec fn wf(self) -> bool {
        &&& self.ipmi_header.wf()
        &&& self.ipmi_header.spec_payload_len() == self.payload_bytes().len()
        &&& (self.payload matches Some(p) ==> p.payload_type()
            == self.ipmi_header.spec_payload_type())
        &&& (self.ipmi_header matches IpmiHeader::V2_0(h) ==> (h.payload_enc ==> h.payload_auth))
    }

    /// The datagram without envelope: the three parts one after another.
    pub open spec fn spec_bytes(self) -> Seq<u8> {
        self.rmcp_header.spec_bytes() + self.ipmi_header.spec_bytes() + self.payload_bytes()
    }

    /// In the bytes of a well-formed packet the session header stands
    /// behind the four bytes of the RMCP header, and the payload length
    /// that it announces is the number of bytes from its end to the end of
    /// the datagram.
    pub proof fn lemma_payload_length_field(p: PacketView)
        requires
            p.wf(),
        ensures
            IpmiHeader::spec_header_len(p.spec_bytes()[4], p.spec_bytes()[5]) == Ok::<
                usize,
                IpmiHeaderError,
            >(p.ipmi_header.spec_bytes().len() as usize),
            IpmiHeader::parse(
                p.spec_bytes().subrange(4, 4 + p.ipmi_header.spec_bytes().len() as int),
            ) == Ok::<IpmiHeader, IpmiHeaderError>(p.ipmi_header),
            p.ipmi_header.spec_payload_len() == p.spec_bytes().len() - 4
                - p.ipmi_header.spec_bytes().len(),
    {
        let s = p.spec_bytes();
        let h = p.ipmi_header.spec_bytes();
        RmcpHeader::lemma_parse_of_bytes(p.rmcp_header);
        IpmiHeader::lemma_parse_of_bytes(p.ipmi_header);
        assert(s.subrange(4, 4 + h.len() as int) =~= h);
        assert(s[4] == h[0]);
        assert(s[5] == h[1]);
    }
}

/// The number of 0xFF bytes that bring `covered` bytes, the pad count and
/// the next-header byte to a multiple of four.
pub open spec fn integrity_pad_len(covered: nat) -> nat {
    ((4 - (covered + 2) % 4) % 4) as nat
}

/// What stands between the ciphertext and the integrity tag: the 0xFF pad,
/// its count, and the next-header byte 0x07.
pub open spec fn integrity_trailer(covered: nat) -> Seq<u8> {
    Seq::new(integrity_pad_len(covered), |i: int| 0xFFu8) + seq![
        integrity_pad_len(covered) as u8,
        0x07u8,
    ]
}

impl PacketView {
    /// What the integrity tag of the envelope covers: the v2.0 header with
    /// both protection flags set, the initialisation vector, the padded
    /// and encrypted payload, and the integrity trailer. `None` for a
    /// packet without a v2.0 header or without a payload.
    pub open spec fn authenticated_span(self, k2: Seq<u8>, iv: Seq<u8>) -> Option<Seq<u8>> {
        match (self.ipmi_header, self.payload) {
            (IpmiHeader::V2_0(h), Some(p)) => {
                let covered = h.protected().spec_bytes() + iv + encrypted_payload(
                    k2.take(16),
                    iv,
                    p.spec_bytes(),
                );
                Some(covered + integrity_trailer(covered.len()))
            },
            _ => None,
        }
    }

    /// The datagram in its envelope: RMCP header, authenticated span, and
    /// the first 16 bytes of the HMAC-SHA256 of the span under `k1`.
    pub open spec fn spec_encrypted_bytes(self, k1: Seq<u8>, k2: Seq<u8>, iv: Seq<u8>) -> Option<
        Seq<u8>,
    > {
        match self.authenticated_span(k2, iv) {
            Some(span) => Some(self.rmcp_header.spec_bytes() + span + hmac_sha256_128(k1, span)),
            None => None,
        }
    }

    /// The header that the envelope of a well-formed packet shows has both
    /// protection flags set, and its length field is the length of the
    /// payload before padding and encryption.
    pub proof fn lemma_envelope_header(p: PacketView, k1: Seq<u8>, k2: Seq<u8>, iv: Seq<u8>)
        requires
            p.wf(),
            p.spec_encrypted_bytes(k1, k2, iv) is Some,
        ensures
            p.ipmi_header matches IpmiHeader::V2_0(h) && ({
                let out = p.spec_encrypted_bytes(k1, k2, iv).unwrap();
                let n = h.spec_bytes().len() as int;
                &&& out.len() >= 4 + n
                &&& IpmiHeader::parse(out.subrange(4, 4 + n)) == Ok::<
                    IpmiHeader,
                    IpmiHeaderError,
                >(IpmiHeader::V2_0(h.protected()))
                &&& h.protected().payload_enc
                &&& h.protected().payload_auth
                &&& h.protected().payload_length == p.payload_bytes().len()
            }),
    {
        match p.ipmi_header {
            IpmiHeader::V2_0(h) => {
                let out = p.spec_encrypted_bytes(k1, k2, iv).unwrap();
                let hb = h.protected().spec_bytes();
                IpmiV2Header::lemma_parse_of_bytes(h);
                IpmiV2Header::lemma_parse_of_bytes(h.protected());
                IpmiHeader::lemma_parse_of_bytes(IpmiHeader::V2_0(h.protected()));
                assert(out.subrange(4, 4 + hb.len() as int) =~= hb);
            },
            _ => {},
        }
    }

    /// The two headers at the start of `s` and the length of the second.
    pub open spec fn parse_headers(s: Seq<u8>) -> Result<(RmcpHeader, IpmiHeader, int), PacketError> {
        if s.len() < 4 {
            Err(PacketError::WrongLength)
        } else {
            match RmcpHeader::parse(s.subrange(0, 4)) {
                Err(e) => Err(PacketError::RMCP(e)),
                Ok(rmcp_header) => if s.len() < 6 {
                    Err(PacketError::WrongLength)
                } else {
                    match IpmiHeader::spec_header_len(s[4], s[5]) {
                        Err(e) => Err(PacketError::IPMI(e)),
                        Ok(n) => if s.len() < 4 + n {
                            Err(PacketError::WrongLength)
                        } else {
                            match IpmiHeader::parse(s.subrange(4, 4 + n)) {
                                Err(e) => Err(PacketError::IPMI(e)),
                                Ok(ipmi_header) => Ok((rmcp_header, ipmi_header, n as int)),
                            }
                        },
                    }
                },
            }
        }
    }

    /// Whether the datagram `s`, whose session header ends at `start`,
    /// passes the integrity check that its header asks for. A header that
    /// announces authentication asks for the key `k1` and for a datagram
    /// that ends in the first 16 bytes of the HMAC-SHA256, under `k1`, of
    /// everything between the RMCP header and that tag.
    pub open spec fn check_integrity(
        s: Seq<u8>,
        header: IpmiHeader,
        start: int,
        k1: Option<Seq<u8>>,
    ) -> Result<(), PacketError> {
        match header {
            IpmiHeader::V2_0(h) => if !h.payload_auth {
                Ok(())
            } else {
                match k1 {
                    None => Err(PacketError::FailedToParse),
                    Some(key) => if s.len() < start + 16 {
                        Err(PacketError::WrongLength)
                    } else if hmac_sha256_128(key, s.subrange(4, s.len() - 16)) != s.subrange(
                        s.len() - 16,
                        s.len() as int,
                    ) {
                        Err(PacketError::FailedToParse)
                    } else {
                        Ok(())
                    },
                }
            },
            IpmiHeader::V1_5(_) => Ok(()),
        }
    }

    /// The payload bytes of the datagram `s`, whose session header ends at
    /// `start` and announces a payload that is not empty. For an encrypted
    /// payload the initialisation vector follows the header, the ciphertext
    /// fills the rest of the announced length, and what comes out is
    /// decrypted under the first 16 bytes of `k2` and stripped of its pad;
    /// otherwise the payload is the last bytes of the datagram.
    pub open spec fn payload_region(
        s: Seq<u8>,
        header: IpmiHeader,
        start: int,
        k2: Option<Seq<u8>>,
    ) -> Result<Seq<u8>, PacketError> {
        let announced = header.spec_payload_len() as int;
        if header matches IpmiHeader::V2_0(h) && h.payload_enc {
            match k2 {
                None => Err(PacketError::FailedToParse),
                Some(key) => if announced < 16 || s.len() < start + announced {
                    Err(PacketError::WrongLength)
                } else {
                    match decrypted_payload(
                        key.take(16),
                        s.subrange(start, start + 16),
                        s.subrange(start + 16, start + announced),
                    ) {
                        Some(plain) => Ok(plain),
                        None => Err(PacketError::FailedToParse),
                    }
                },
            }
        } else if s.len() < start + announced {
            Err(PacketError::WrongLength)
        } else {
            Ok(s.subrange(s.len() - announced, s.len() as int))
        }
    }

    /// The packet that the datagram `s` spells, read with the session keys
    /// that are at hand: first the two headers, then the integrity check,
    /// then the payload, which is absent where the announced length is 0.
    pub open spec fn parse(s: Seq<u8>, k1: Option<Seq<u8>>, k2: Option<Seq<u8>>) -> Result<
        PacketView,
        PacketError,
    > {
        match PacketView::parse_headers(s) {
            Err(e) => Err(e),
            Ok((rmcp_header, ipmi_header, n)) => match PacketView::check_integrity(
                s,
                ipmi_header,
                4 + n,
                k1,
            ) {
                Err(e) => Err(e),
                Ok(_) => if ipmi_header.spec_payload_len() == 0 {
                    Ok(PacketView { rmcp_header, ipmi_header, payload: None })
                } else {
                    match PacketView::payload_region(s, ipmi_header, 4 + n, k2) {
                        Err(e) => Err(e),
                        Ok(bytes) => match PayloadView::parse(
                            ipmi_header.spec_payload_type(),
                            bytes,
                        ) {
                            Err(e) => Err(e),
                            Ok(payload) => Ok(
                                PacketView { rmcp_header, ipmi_header, payload: Some(payload) },
                            ),
                        },
                    }
                },
            },
        }
    }

    /// A datagram too short for the RMCP header, the empty one among them,
    /// is refused as of the wrong length.
    pub proof fn lemma_parse_short(s: Seq<u8>, k1: Option<Seq<u8>>, k2: Option<Seq<u8>>)
        requires
            s.len() < 4,
        ensures
            PacketView::parse(s, k1, k2) == Err::<PacketView, PacketError>(
                PacketError::WrongLength,
            ),
    {
    }

    /// Parsing the plain bytes of a well-formed packet without protection,
    /// whose payload is absent or of a kind that is read, gives the packet
    /// back.
    pub proof fn lemma_parse_of_bytes(p: PacketView, k1: Option<Seq<u8>>, k2: Option<Seq<u8>>)
        requires
            p.wf(),
            p.ipmi_header matches IpmiHeader::V2_0(h) ==> !h.payload_enc && !h.payload_auth,
            p.payload matches Some(q) ==> q.wf() && q.is_incoming(),
        ensures
            PacketView::parse(p.spec_bytes(), k1, k2) == Ok::<PacketView, PacketError>(p),
    {
        let s = p.spec_bytes();
        let h = p.ipmi_header.spec_bytes();
        PacketView::lemma_payload_length_field(p);
        RmcpHeader::lemma_parse_of_bytes(p.rmcp_header);
        assert(s.subrange(0, 4) =~= p.rmcp_header.spec_bytes());
        let n = h.len() as int;
        assert(PacketView::parse_headers(s) == Ok::<(RmcpHeader, IpmiHeader, int), PacketError>(
            (p.rmcp_header, p.ipmi_header, n),
        ));
        match p.payload {
            Some(q) => {
                PayloadView::lemma_parse_of_bytes(q);
                assert(s.subrange(s.len() - q.spec_bytes().len(), s.len() as int)
                    =~= q.spec_bytes());
                if q.spec_bytes().len() == 0 {
                    // every payload that is read has at least seven bytes
                    assert(PayloadView::parse(q.payload_type(), q.spec_bytes()) is Err);
                }
            },
            None => {},
        }
    }
}

/// The first 16 bytes of a 32-byte key.
fn first_sixteen(key: &[u8; 32]) -> (r: [u8; 16])
    ensures
        r@ == key@.take(16),
{
    let mut out: [u8; 16] = [0u8; 16];
    let mut i: usize = 0;
    while i < 16
        invariant
            i <= 16,
            forall|k: int| 0 <= k < i ==> out@[k] == key@[k],
        decreases 16 - i,
    {
        out[i] = key[i];
        i += 1;
    }
    assert(out@ =~= key@.take(16));
    out
}

impl Packet {
    /// Writes the datagram in its envelope, under the given initialisation
    /// vector: the payload padded and encrypted under the first 16 bytes
    /// of `k2`, the header with both protection flags set, and the
    /// integrity tag under `k1` at the end. `None` for a packet without a
    /// v2.0 header or without a payload.
    pub fn to_encrypted_bytes_with_iv(&self, k1: &[u8; 32], k2: &[u8; 32], iv: [u8; 16]) -> (r:
        Option<Vec<u8>>)
        ensures
            r is Some == self@.spec_encrypted_bytes(k1@, k2@, iv@) is Some,
            r matches Some(v) ==> Some(v@) == self@.spec_encrypted_bytes(k1@, k2@, iv@),
    {
        match (&self.ipmi_header, &self.payload) {
            (IpmiHeader::V2_0(header), Some(payload)) => {
                let protected = IpmiV2Header { payload_enc: true, payload_auth: true, ..*header };
                let mut span: Vec<u8> = protected.to_bytes();
                append_bytes(&mut span, iv.as_slice());
                let mut encrypted: Vec<u8> = aes_128_cbc_encrypt(
                    first_sixteen(k2),
                    iv,
                    payload.to_bytes(),
                );
                append_bytes(&mut span, encrypted.as_slice());
                let ghost covered = span@;
                let pad: usize = (4 - (span.len() % 4 + 2) % 4) % 4;
                assert(pad == integrity_pad_len(covered.len()));
                let mut i: usize = 0;
                while i < pad
                    invariant
                        i <= pad,
                        span@ == covered + Seq::new(i as nat, |k: int| 0xFFu8),
                    decreases pad - i,
                {
                    span.push(0xFF);
                    i += 1;
                    assert(span@ =~= covered + Seq::new(i as nat, |k: int| 0xFFu8));
                }
                span.push(pad as u8);
                span.push(0x07);
                assert(span@ =~= covered + integrity_trailer(covered.len()));
                let tag: [u8; 16] = hash_hmac_sha_256_128(
                    slice_to_vec(k1.as_slice()),
                    slice_to_vec(span.as_slice()),
                );
                let mut out: Vec<u8> = self.rmcp_header.to_bytes();
                append_bytes(&mut out, span.as_slice());
                append_bytes(&mut out, tag.as_slice());
                Some(out)
            },
            _ => None,
        }
    }

    /// Writes the datagram in its envelope, under a fresh initialisation
    /// vector.
    pub fn to_encrypted_bytes(&self, k1: &[u8; 32], k2: &[u8; 32]) -> (r: Option<Vec<u8>>)
        ensures
            r is Some == (self@.ipmi_header is V2_0 && self@.payload is Some),
            r matches Some(v) ==> exists|iv: Seq<u8>|
                iv.len() == 16 && Some(v@) == #[trigger] self@.spec_encrypted_bytes(k1@, k2@, iv),
    {
        let iv: [u8; 16] = generate_iv();
        self.to_encrypted_bytes_with_iv(k1, k2, iv)
    }

    /// Reads a datagram. `k1` is the integrity key and `k2` the
    /// confidentiality key of the session, where there is one; a datagram
    /// that announces protection cannot be read without the key for it.
    pub fn from_slice(slice: &[u8], k1: Option<&[u8; 32]>, k2: Option<&[u8; 32]>) -> (r: Result<
        Packet,
        PacketError,
    >)
        ensures
            viewed(r) == PacketView::parse(slice@, key_view(k1), key_view(k2)),
    {
        let len: usize = slice.len();
        if len < 4 {
            return Err(PacketError::WrongLength);
        }
        let rmcp_header: RmcpHeader = match RmcpHeader::from_slice(slice_subrange(slice, 0, 4)) {
            Ok(h) => h,
            Err(e) => {
                return Err(PacketError::RMCP(e));
            },
        };
        if len < 6 {
            return Err(PacketError::WrongLength);
        }
        let n: usize = match IpmiHeader::header_len(slice[4], slice[5]) {
            Ok(n) => n,
            Err(e) => {
                return Err(PacketError::IPMI(e));
            },
        };
        if len < 4 + n {
            return Err(PacketError::WrongLength);
        }
        let ipmi_header: IpmiHeader = match IpmiHeader::from_slice(slice_subrange(slice, 4, 4 + n)) {
            Ok(h) => h,
            Err(e) => {
                return Err(PacketError::IPMI(e));
            },
        };
        let start: usize = 4 + n;
        let protection: (bool, bool) = match &ipmi_header {
            IpmiHeader::V2_0(h) => (h.payload_enc, h.payload_auth),
            IpmiHeader::V1_5(_) => (false, false),
        };
        if protection.1 {
            match k1 {
                None => {
                    return Err(PacketError::FailedToParse);
                },
                Some(key) => {
                    if len < start + 16 {
                        return Err(PacketError::WrongLength);
                    }
                    let tag: [u8; 16] = hash_hmac_sha_256_128(
                        slice_to_vec(key.as_slice()),
                        slice_to_vec(slice_subrange(slice, 4, len - 16)),
                    );
                    if !bytes_equal(tag.as_slice(), slice_subrange(slice, len - 16, len)) {
                        return Err(PacketError::FailedToParse);
                    }
                },
            }
        }
        let announced: usize = ipmi_header.payload_len();
        if announced == 0 {
            return Ok(Packet { rmcp_header, ipmi_header, payload: None });
        }
        let payload_vec: Vec<u8> = if protection.0 {
            match k2 {
                None => {
                    return Err(PacketError::FailedToParse);
                },
                Some(key) => {
                    if announced < 16 || len - start < announced {
                        return Err(PacketError::WrongLength);
                    }
                    let mut iv: [u8; 16] = [0u8; 16];
                    let mut i: usize = 0;
                    while i < 16
                        invariant
                            i <= 16,
                            start + 16 <= slice.len(),
                            forall|k: int| 0 <= k < i ==> iv@[k] == slice@[start + k],
                        decreases 16 - i,
                    {
                        iv[i] = slice[start + i];
                        i += 1;
                    }
                    assert(iv@ =~= slice@.subrange(start as int, start + 16));
                    match aes_128_cbc_decrypt(
                        first_sixteen(key),
                        iv,
                        slice_to_vec(slice_subrange(slice, start + 16, start + announced)),
                    ) {
                        Some(plain) => plain,
                        None => {
                            return Err(PacketError::FailedToParse);
                        },
                    }
                },
            }
        } else {
            if len - start < announced {
                return Err(PacketError::WrongLength);
            }
            slice_to_vec(slice_subrange(slice, len - announced, len))
        };
        match Payload::from_slice(ipmi_header.payload_type(), payload_vec.as_slice()) {
            Ok(payload) => Ok(Packet { rmcp_header, ipmi_header, payload: Some(payload) }),
            Err(e) => Err(e),
        }
    }

    /// A packet under the RMCP header of outgoing packets.
    pub fn new(ipmi_header: IpmiHeader, payload: Payload) -> (r: Packet)
        ensures
            r@ == PacketView::outgoing(ipmi_header, payload@),
    {
        Packet { rmcp_header: RmcpHeader::default(), ipmi_header, payload: Some(payload) }
    }

    /// Writes the datagram without envelope.
    pub fn to_bytes(&self) -> (r: Vec<u8>)
        ensures
            r@ == self@.spec_bytes(),
    {
        let mut r: Vec<u8> = self.rmcp_header.to_bytes();
        let header: Vec<u8> = self.ipmi_header.to_bytes();
        append_bytes(&mut r, header.as_slice());
        match &self.payload {
            None => {},
            Some(a) => {
                let body: Vec<u8> = a.to_bytes();
                append_bytes(&mut r, body.as_slice());
            },
        }
        assert(r@ =~= self@.spec_bytes());
        r
    }
}

impl Default for Packet {
    /// An empty packet outside any session.
    fn default() -> (r: Packet)
        ensures
            r@.wf(),
            r@ == (PacketView {
                rmcp_header: outgoing_rmcp_header(),
                ipmi_header: IpmiHeader::V1_5(
                    IpmiV1Header {
                        auth_type: AuthType::AuthNone,
                        session_seq_number: 0,
                        session_id: 0,
                        auth_code: None,
                        payload_length: 0,
                    },
                ),
                payload: None,
            }),
    {
        Packet {
            rmcp_header: RmcpHeader::default(),
            ipmi_header: IpmiHeader::V1_5(IpmiV1Header::default()),
            payload: None,
        }
    }
}

} // verus!
