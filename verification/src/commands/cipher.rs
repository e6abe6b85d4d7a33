//! Get Channel Cipher Suites, the second command of discovery.
use crate::commands::command::Command;
use crate::err::IpmiPayloadError;
use crate::helpers::bits::store_bits;
use crate::helpers::utils::join_two_bits_to_byte;
use crate::parser::ipmi_header::{AuthType, IpmiHeader};
use crate::parser::ipmi_payload::{IpmiPayload, IpmiPayloadView, NetFn};
use crate::parser::ipmi_payload_request::{IpmiPayloadRequest, IpmiPayloadRequestView};
use crate::parser::ipmi_v2_header::{IpmiV2Header, PayloadType};
use crate::parser::packet::{Packet, PacketView, Payload, PayloadView};
use crate::parser::rmcp_open_session::{
    AuthAlgorithm, ConfidentialityAlgorithm, IntegrityAlgorithm,
};
use vstd::prelude::*;
use vstd::slice::{slice_subrange, slice_to_vec};

verus! {

/// The data of a Get Channel Cipher Suites request.
#[derive(Clone, Copy, Debug, PartialEq, Eq, Hash)]
pub struct GetChannelCipherSuitesRequest {
    /// Four bits on the wire; 0x0E is the channel that the request came in
    /// on.
    pub channel_number: u8,
    /// Five bits on the wire.
    pub payload_type: PayloadType,
    /// List the algorithms by cipher suite rather than just the numbers.
    pub list_algo_cipher_suite: bool,
    /// Which 16 bytes of the record data to return; six bits on the wire.
    pub list_index: u8,
}

impl GetChannelCipherSuitesRequest {
    /// The three data bytes: the channel number in the low four bits, the
    /// payload type in the low five bits, and the list flag in the top bit
    /// with the list index in the low six bits.
    pub open spec fn spec_bytes(self) -> Seq<u8> {
        seq![
            (self.channel_number % 16) as u8,
            (self.payload_type.code() % 32) as u8,
            ((if self.list_algo_cipher_suite {
                128int
            } else {
                0int
            }) + self.list_index % 64) as u8,
        ]
    }

    /// The request message that carries this data.
    pub open spec fn spec_request(self) -> IpmiPayloadRequestView {
        IpmiPayloadRequestView::outgoing(
            NetFn::App,
            Command::GetChannelCipherSuites,
            Some(self.spec_bytes()),
        )
    }

    /// The data that asks for the record bytes at `list_index` of the
    /// channel that the request comes in on.
    pub open spec fn at_index(list_index: u8) -> GetChannelCipherSuitesRequest {
        GetChannelCipherSuitesRequest {
            channel_number: 0xe,
            payload_type: PayloadType::IPMI,
            list_algo_cipher_suite: true,
            list_index,
        }
    }

    /// Puts the fields together.
    pub fn new(
        channel_number: u8,
        payload_type: PayloadType,
        list_algo_cipher_suite: bool,
        list_index: u8,
    ) -> (r: GetChannelCipherSuitesRequest)
        ensures
            r == (GetChannelCipherSuitesRequest {
                channel_number,
                payload_type,
                list_algo_cipher_suite,
                list_index,
            }),
    {
        GetChannelCipherSuitesRequest {
            channel_number,
            payload_type,
            list_algo_cipher_suite,
            list_index,
        }
    }

    /// Writes the data bytes.
    pub fn to_bytes(&self) -> (r: Vec<u8>)
        ensures
            r@ == self.spec_bytes(),
    {
        let flag: u8 = if self.list_algo_cipher_suite {
            1
        } else {
            0
        };
        let mut r: Vec<u8> = Vec::new();
        r.push(join_two_bits_to_byte(0, self.channel_number, 4));
        r.push(join_two_bits_to_byte(0, self.payload_type.to_u8(), 3));
        r.push(store_bits(store_bits(0, 0, 1, flag), 2, 8, self.list_index));
        assert(r@ =~= self.spec_bytes());
        r
    }

    /// The packet that carries this request: outside any session, neither
    /// encrypted nor authenticated.
    pub fn create_packet(&self) -> (r: Packet)
        ensures
            r@.wf(),
            r@ == PacketView::outgoing(
                IpmiHeader::V2_0(IpmiV2Header::unprotected(PayloadType::IPMI, 10)),
                PayloadView::Ipmi(IpmiPayloadView::Request(self.spec_request())),
            ),
    {
        proof {
            IpmiPayloadRequestView::lemma_len(self.spec_request());
        }
        let data_bytes: Vec<u8> = self.to_bytes();
        let length: u8 = (data_bytes.len() as u8) + 7;
        Packet::new(
            IpmiHeader::V2_0(
                IpmiV2Header {
                    auth_type: AuthType::RmcpPlus,
                    payload_enc: false,
                    payload_auth: false,
                    payload_type: PayloadType::IPMI,
                    oem_iana: None,
                    oem_payload_id: None,
                    rmcp_plus_session_id: 0x0,
                    session_seq_number: 0x0,
                    payload_length: length as u16,
                },
            ),
            Payload::Ipmi(
                IpmiPayload::Request(
                    IpmiPayloadRequest::new(
                        NetFn::App,
                        Command::GetChannelCipherSuites,
                        Some(data_bytes),
                    ),
                ),
            ),
        )
    }
}

impl Default for GetChannelCipherSuitesRequest {
    /// The request for the first 16 record bytes.
    fn default() -> (r: GetChannelCipherSuitesRequest)
        ensures
            r == GetChannelCipherSuitesRequest::at_index(0),
    {
        GetChannelCipherSuitesRequest {
            channel_number: 0xe,
            payload_type: PayloadType::IPMI,
            list_algo_cipher_suite: true,
            list_index: 0x0,
        }
    }
}

/// The data of a Get Channel Cipher Suites response: the channel number
/// and up to 16 bytes of cipher suite records. The records are packed and
/// may run across responses.
#[derive(Clone, Debug, PartialEq, Eq, Hash)]
pub struct GetChannelCipherSuitesResponse {
    pub channel_number: u8,
    pub cypher_suite_record_data_bytes: Vec<u8>,
}

impl GetChannelCipherSuitesResponse {
    /// Reads the channel number and the record bytes; at least one record
    /// byte must be there.
    pub fn from_slice(value: &[u8]) -> (r: Result<GetChannelCipherSuitesResponse, IpmiPayloadError>)
        ensures
            r is Ok == (value@.len() >= 2),
            r matches Ok(p) ==> p.channel_number == value@[0]
                && p.cypher_suite_record_data_bytes@ == value@.subrange(1, value@.len() as int),
            r matches Err(e) ==> e == IpmiPayloadError::WrongLength,
    {
        if value.len() < 2 {
            return Err(IpmiPayloadError::WrongLength);
        }
        Ok(
            GetChannelCipherSuitesResponse {
                channel_number: value[0],
                cypher_suite_record_data_bytes: slice_to_vec(
                    slice_subrange(value, 1, value.len()),
                ),
            },
        )
    }

    /// Whether this is the last response of the list: fewer than 16 record
    /// bytes.
    pub fn is_last(&self) -> (r: bool)
        ensures
            r == (self.cypher_suite_record_data_bytes@.len() < 16),
    {
        self.cypher_suite_record_data_bytes.len() < 16
    }
}

/// One cipher suite record: the suite's id and the three algorithms it
/// stands for.
#[derive(Clone, Copy, Debug, PartialEq, Eq, Hash)]
pub struct CipherSuite {
    pub id: u8,
    pub authentication: AuthAlgorithm,
    pub integrity: IntegrityAlgorithm,
    pub confidentiality: ConfidentialityAlgorithm,
}

/// The byte that separates cipher suite records.
pub const RECORD_DELIMITER: u8 = 0xC0;

/// The authentication algorithm that a record byte names; what is not
/// named counts as none.
pub open spec fn authentication_of(byte: u8) -> AuthAlgorithm {
    if byte == 0x01 {
        AuthAlgorithm::RakpHmacSha1
    } else if byte == 0x02 {
        AuthAlgorithm::RakpHmacMd5
    } else if byte == 0x03 {
        AuthAlgorithm::RakpHmacSha256
    } else {
        AuthAlgorithm::RakpNone
    }
}

/// The integrity algorithm that a record byte names; the byte carries the
/// tag 0x40 above the algorithm number.
pub open spec fn integrity_of(byte: u8) -> IntegrityAlgorithm {
    if byte == 0x41 {
        IntegrityAlgorithm::HmacSha196
    } else if byte == 0x42 {
        IntegrityAlgorithm::HmacMd5128
    } else if byte == 0x43 {
        IntegrityAlgorithm::Md5128
    } else if byte == 0x44 {
        IntegrityAlgorithm::HmacSha256128
    } else {
        IntegrityAlgorithm::IntegrityNone
    }
}

/// The confidentiality algorithm that a record byte names; the byte
/// carries the tag 0x80 above the algorithm number.
pub open spec fn confidentiality_of(byte: u8) -> ConfidentialityAlgorithm {
    if byte == 0x81 {
        ConfidentialityAlgorithm::AesCbc128
    } else if byte == 0x82 {
        ConfidentialityAlgorithm::XRc4128
    } else if byte == 0x83 {
        ConfidentialityAlgorithm::XRc440
    } else {
        ConfidentialityAlgorithm::ConfidentialityNone
    }
}

impl CipherSuite {
    /// The suite without protection, which is chosen where no record
    /// offers anything.
    pub open spec fn null() -> CipherSuite {
        CipherSuite {
            id: 0,
            authentication: AuthAlgorithm::RakpNone,
            integrity: IntegrityAlgorithm::IntegrityNone,
            confidentiality: ConfidentialityAlgorithm::ConfidentialityNone,
        }
    }

    /// The suite that the four bytes at `at` spell.
    pub open spec fn at(s: Seq<u8>, at: int) -> CipherSuite {
        CipherSuite {
            id: s[at],
            authentication: authentication_of(s[at + 1]),
            integrity: integrity_of(s[at + 2]),
            confidentiality: confidentiality_of(s[at + 3]),
        }
    }

    /// How much this suite is preferred: SHA-256 over SHA-1 over MD5 for
    /// authentication, HMAC-SHA256-128 over HMAC-MD5-128 over HMAC-SHA1-96
    /// over MD5-128 for integrity, AES-CBC-128 over RC4-128 over RC4-40 for
    /// confidentiality; the three ranks add up.
    pub open spec fn score(self) -> int {
        (match self.authentication {
            AuthAlgorithm::RakpHmacSha256 => 3int,
            AuthAlgorithm::RakpHmacSha1 => 2,
            AuthAlgorithm::RakpHmacMd5 => 1,
            _ => 0,
        }) + (match self.integrity {
            IntegrityAlgorithm::HmacSha256128 => 4int,
            IntegrityAlgorithm::HmacMd5128 => 3,
            IntegrityAlgorithm::HmacSha196 => 2,
            IntegrityAlgorithm::Md5128 => 1,
            _ => 0,
        }) + (match self.confidentiality {
            ConfidentialityAlgorithm::AesCbc128 => 3int,
            ConfidentialityAlgorithm::XRc4128 => 2,
            ConfidentialityAlgorithm::XRc440 => 1,
            _ => 0,
        })
    }

    /// Computes the score.
    pub fn rank(&self) -> (r: u8)
        ensures
            r as int == self.score(),
            r <= 10,
    {
        let a: u8 = match self.authentication {
            AuthAlgorithm::RakpHmacSha256 => 3,
            AuthAlgorithm::RakpHmacSha1 => 2,
            AuthAlgorithm::RakpHmacMd5 => 1,
            _ => 0,
        };
        let i: u8 = match self.integrity {
            IntegrityAlgorithm::HmacSha256128 => 4,
            IntegrityAlgorithm::HmacMd5128 => 3,
            IntegrityAlgorithm::HmacSha196 => 2,
            IntegrityAlgorithm::Md5128 => 1,
            _ => 0,
        };
        let c: u8 = match self.confidentiality {
            ConfidentialityAlgorithm::AesCbc128 => 3,
            ConfidentialityAlgorithm::XRc4128 => 2,
            ConfidentialityAlgorithm::XRc440 => 1,
            _ => 0,
        };
        a + i + c
    }

    /// Reads the suite that the four bytes at `at` spell.
    pub fn read(bytes: &[u8], at: usize) -> (r: CipherSuite)
        requires
            at + 4 <= bytes.len(),
        ensures
            r == CipherSuite::at(bytes@, at as int),
    {
        let authentication: AuthAlgorithm = match bytes[at + 1] {
            0x01 => AuthAlgorithm::RakpHmacSha1,
            0x02 => AuthAlgorithm::RakpHmacMd5,
            0x03 => AuthAlgorithm::RakpHmacSha256,
            _ => AuthAlgorithm::RakpNone,
        };
        let integrity: IntegrityAlgorithm = match bytes[at + 2] {
            0x41 => IntegrityAlgorithm::HmacSha196,
            0x42 => IntegrityAlgorithm::HmacMd5128,
            0x43 => IntegrityAlgorithm::Md5128,
            0x44 => IntegrityAlgorithm::HmacSha256128,
            _ => IntegrityAlgorithm::IntegrityNone,
        };
        let confidentiality: ConfidentialityAlgorithm = match bytes[at + 3] {
            0x81 => ConfidentialityAlgorithm::AesCbc128,
            0x82 => ConfidentialityAlgorithm::XRc4128,
            0x83 => ConfidentialityAlgorithm::XRc440,
            _ => ConfidentialityAlgorithm::ConfidentialityNone,
        };
        CipherSuite { id: bytes[at], authentication, integrity, confidentiality }
    }
}

/// Where the group that is open after the first `n` bytes of `s` starts:
/// behind the last delimiter among them, or at 0.
pub open spec fn group_start(s: Seq<u8>, n: int) -> int
    decreases n,
{
    if n <= 0 {
        0
    } else if s[n - 1] == RECORD_DELIMITER {
        n
    } else {
        group_start(s, n - 1)
    }
}

/// The records among the groups that a delimiter closes within the first
/// `n` bytes of `s`: every such group of exactly four bytes, in order.
pub open spec fn closed_records(s: Seq<u8>, n: int) -> Seq<CipherSuite>
    decreases n,
{
    if n <= 0 {
        Seq::empty()
    } else if s[n - 1] == RECORD_DELIMITER && (n - 1) - group_start(s, n - 1) == 4 {
        closed_records(s, n - 1).push(CipherSuite::at(s, group_start(s, n - 1)))
    } else {
        closed_records(s, n - 1)
    }
}

/// The records in `s`: `s` is cut at every delimiter 0xC0, and each piece
/// of exactly four bytes is a record; the piece behind the last delimiter
/// counts too.
pub open spec fn cipher_suite_records(s: Seq<u8>) -> Seq<CipherSuite> {
    let closed = closed_records(s, s.len() as int);
    if s.len() - group_start(s, s.len() as int) == 4 {
        closed.push(CipherSuite::at(s, group_start(s, s.len() as int)))
    } else {
        closed
    }
}

/// The record to choose among `records`: the first among the
/// highest-scoring ones; `None` where there is no record.
pub open spec fn first_best(records: Seq<CipherSuite>) -> Option<CipherSuite>
    decreases records.len(),
{
    if records.len() == 0 {
        None
    } else {
        match first_best(records.drop_last()) {
            Some(best) => if records.last().score() > best.score() {
                Some(records.last())
            } else {
                Some(best)
            },
            None => Some(records.last()),
        }
    }
}

/// The suite to negotiate for the record bytes `s`: the first among the
/// highest-scoring records, and the null suite where there is no record.
pub open spec fn best_suite(s: Seq<u8>) -> CipherSuite {
    match first_best(cipher_suite_records(s)) {
        Some(suite) => suite,
        None => CipherSuite::null(),
    }
}

/// Whether `records[index]` scores at least as high as every record and
/// higher than every record before it.
pub open spec fn is_first_best(records: Seq<CipherSuite>, index: int) -> bool {
    &&& 0 <= index < records.len()
    &&& forall|j: int|
        0 <= j < records.len() ==> (#[trigger] records[j]).score() <= records[index].score()
    &&& forall|j: int| 0 <= j < index ==> (#[trigger] records[j]).score() < records[index].score()
}

/// What `first_best` picks is one of the records, no record scores higher,
/// and no record before it scores as high.
pub proof fn lemma_first_best(records: Seq<CipherSuite>)
    ensures
        records.len() == 0 ==> first_best(records) is None,
        records.len() > 0 ==> first_best(records) is Some && exists|index: int|
            #[trigger] is_first_best(records, index) && first_best(records) == Some(
                records[index],
            ),
    decreases records.len(),
{
    if records.len() > 0 {
        let front = records.drop_last();
        lemma_first_best(front);
        assert forall|j: int| 0 <= j < front.len() implies (#[trigger] records[j]) == front[j] by {}
        if front.len() == 0 {
            assert(is_first_best(records, 0));
        } else {
            let index = choose|index: int|
                #[trigger] is_first_best(front, index) && first_best(front) == Some(front[index]);
            if records.last().score() > front[index].score() {
                assert(is_first_best(records, records.len() - 1));
            } else {
                assert(is_first_best(records, index));
            }
        }
    }
}

/// The better of the best record so far and the next one; the earlier
/// wins a tie.
fn prefer(best: Option<CipherSuite>, candidate: CipherSuite, Ghost(seen): Ghost<Seq<CipherSuite>>) -> (r:
    Option<CipherSuite>)
    requires
        best == first_best(seen),
    ensures
        r == first_best(seen.push(candidate)),
{
    proof {
        assert(seen.push(candidate).drop_last() =~= seen);
    }
    match best {
        Some(b) => if candidate.rank() > b.rank() {
            Some(candidate)
        } else {
            Some(b)
        },
        None => Some(candidate),
    }
}

/// Picks the cipher suite to negotiate from the record bytes that the
/// managed system lists.
pub fn choose_cipher_suite(bytes: &[u8]) -> (r: CipherSuite)
    ensures
        r == best_suite(bytes@),
{
    let len: usize = bytes.len();
    let mut best: Option<CipherSuite> = None;
    let ghost mut seen: Seq<CipherSuite> = Seq::empty();
    let mut start: usize = 0;
    let mut i: usize = 0;
    while i < len
        invariant
            len == bytes.len(),
            start <= i <= len,
            start as int == group_start(bytes@, i as int),
            seen == closed_records(bytes@, i as int),
            best == first_best(seen),
        decreases len - i,
    {
        if bytes[i] == RECORD_DELIMITER {
            if i - start == 4 {
                let candidate: CipherSuite = CipherSuite::read(bytes, start);
                best = prefer(best, candidate, Ghost(seen));
                proof {
                    seen = seen.push(candidate);
                }
            }
            start = i + 1;
        }
        i += 1;
    }
    if len - start == 4 {
        let candidate: CipherSuite = CipherSuite::read(bytes, start);
        best = prefer(best, candidate, Ghost(seen));
        proof {
            seen = seen.push(candidate);
        }
    }
    match best {
        Some(suite) => suite,
        None => CipherSuite {
            id: 0,
            authentication: AuthAlgorithm::RakpNone,
            integrity: IntegrityAlgorithm::IntegrityNone,
            confidentiality: ConfidentialityAlgorithm::ConfidentialityNone,
        },
    }
}

} // verus!
