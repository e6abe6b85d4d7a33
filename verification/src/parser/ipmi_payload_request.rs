//! The IPMI request message.
use crate::commands::command::Command;
use crate::err::{IpmiPayloadError, IpmiPayloadRequestError};
use crate::helpers::bits::load_bits;
use crate::helpers::bytes::append_bytes;
use crate::helpers::utils::{
    byte_sum, checksum, get8bit_checksum, join_two_bits_to_byte, lemma_checksum_closes,
};
use crate::parser::ipmi_payload::{CommandType, Lun, NetFn, SlaveAddress, SoftwareType};
use crate::parser::ipmi_payload_response::Address;
use crate::helpers::views::{optional_bytes, optional_view, viewed};
use vstd::prelude::*;
use vstd::slice::{slice_subrange, slice_to_vec};

verus! {

/// An IPMI request:
/// `[rs_addr][netfn, rs_lun][checksum][rq_addr][rq_seq, rq_lun][command][data..][checksum]`.
/// The first checksum covers the two bytes before it, the second everything
/// from the requester address to the last data byte.
#[derive(Clone, Debug, PartialEq, Eq, Hash)]
pub struct IpmiPayloadRequest {
    /// The device that is asked.
    pub rs_addr: Address,
    pub net_fn: NetFn,
    pub rs_lun: Lun,
    /// The device that asks.
    pub rq_addr: Address,
    /// Six bits on the wire.
    pub rq_sequence: u8,
    pub rq_lun: Lun,
    pub command: Command,
    /// `None` where no data bytes follow the command.
    pub data: Option<Vec<u8>>,
}

/// What an `IpmiPayloadRequest` holds, with its data as a sequence.
pub struct IpmiPayloadRequestView {
    pub rs_addr: Address,
    pub net_fn: NetFn,
    pub rs_lun: Lun,
    pub rq_addr: Address,
    pub rq_sequence: u8,
    pub rq_lun: Lun,
    pub command: Command,
    pub data: Option<Seq<u8>>,
}

impl View for IpmiPayloadRequest {
    type V = IpmiPayloadRequestView;

    open spec fn view(&self) -> IpmiPayloadRequestView {
        IpmiPayloadRequestView {
            rs_addr: self.rs_addr,
            net_fn: self.net_fn,
            rs_lun: self.rs_lun,
            rq_addr: self.rq_addr,
            rq_sequence: self.rq_sequence,
            rq_lun: self.rq_lun,
            command: self.command,
            data: optional_view(self.data),
        }
    }
}

impl IpmiPayloadRequestView {
    /// Every field is one that its own code is read back as, the sequence
    /// number fits its six bits, and data that is present is not empty.
    pub open spec fn wf(self) -> bool {
        &&& self.rs_addr.is_canonical()
        &&& self.rq_addr.is_canonical()
        &&& self.net_fn.is_canonical(CommandType::Request)
        &&& self.rq_sequence < 64
        &&& self.command.is_canonical(self.net_fn)
        &&& (self.data matches Some(d) ==> d.len() > 0)
    }

    /// The two bytes that the first checksum covers: the responder address,
    /// then the network function in the top six bits with the responder LUN
    /// below it.
    pub open spec fn head_bytes(self) -> Seq<u8> {
        seq![
            self.rs_addr.code(),
            ((self.net_fn.code(CommandType::Request) % 64) * 4 + self.rs_lun.code()) as u8,
        ]
    }

    /// The bytes that the second checksum covers: the requester address, the
    /// sequence number in the top six bits with the requester LUN below it,
    /// the command and the data.
    pub open spec fn body_bytes(self) -> Seq<u8> {
        seq![
            self.rq_addr.code(),
            ((self.rq_sequence % 64) * 4 + self.rq_lun.code()) as u8,
            self.command.code(),
        ] + optional_bytes(self.data)
    }

    /// The bytes of this message.
    pub open spec fn spec_bytes(self) -> Seq<u8> {
        self.head_bytes() + seq![checksum(self.head_bytes())] + self.body_bytes() + seq![
            checksum(self.body_bytes()),
        ]
    }

    /// The message that `s` spells. Both checksums must close their ranges.
    pub open spec fn parse(s: Seq<u8>) -> Result<IpmiPayloadRequestView, IpmiPayloadError> {
        if s.len() < 7 {
            Err(IpmiPayloadError::PayloadRequestError(IpmiPayloadRequestError::WrongLength))
        } else if s[2] != checksum(s.subrange(0, 2)) || s[s.len() - 1] != checksum(
            s.subrange(3, s.len() - 1),
        ) {
            Err(IpmiPayloadError::BadChecksum)
        } else {
            let net_fn = NetFn::from_code((s[1] / 4) as u8);
            match (Lun::from_code((s[1] % 4) as u8), Lun::from_code((s[4] % 4) as u8)) {
                (Ok(rs_lun), Ok(rq_lun)) => Ok(
                    IpmiPayloadRequestView {
                        rs_addr: Address::from_code(s[0]),
                        net_fn,
                        rs_lun,
                        rq_addr: Address::from_code(s[3]),
                        rq_sequence: (s[4] / 4) as u8,
                        rq_lun,
                        command: Command::from_code_and_netfn(s[5], net_fn),
                        data: if s.len() == 7 {
                            None
                        } else {
                            Some(s.subrange(6, s.len() - 1))
                        },
                    },
                ),
                (Err(e), _) => Err(IpmiPayloadError::Lun(e)),
                (_, Err(e)) => Err(IpmiPayloadError::Lun(e)),
            }
        }
    }

    /// A request from remote console 1 to the management controller, with
    /// sequence number 8.
    pub open spec fn outgoing(
        net_fn: NetFn,
        command: Command,
        data: Option<Seq<u8>>,
    ) -> IpmiPayloadRequestView {
        IpmiPayloadRequestView {
            rs_addr: Address::Slave(SlaveAddress::Bmc),
            net_fn,
            rs_lun: Lun::Bmc,
            rq_addr: Address::Software(SoftwareType::RemoteConsoleSoftware(1)),
            rq_sequence: 0x8,
            rq_lun: Lun::Bmc,
            command,
            data,
        }
    }

    /// A request takes seven bytes and its data.
    pub proof fn lemma_len(p: IpmiPayloadRequestView)
        ensures
            p.spec_bytes().len() == p.spec_len(),
    {
    }

    /// The number of bytes that this message takes on the wire.
    pub open spec fn spec_len(self) -> nat {
        optional_bytes(self.data).len() + 7
    }

    /// Parsing the bytes of a well-formed request gives the request back, and
    /// in those bytes both checksums close their ranges: each range summed
    /// with its checksum is zero modulo 256.
    pub proof fn lemma_parse_of_bytes(p: IpmiPayloadRequestView)
        requires
            p.wf(),
        ensures
            p.spec_bytes().len() == p.spec_len(),
            IpmiPayloadRequestView::parse(p.spec_bytes()) == Ok::<
                IpmiPayloadRequestView,
                IpmiPayloadError,
            >(p),
            CommandType::from_code((p.spec_bytes()[1] / 4) as u8) == CommandType::Request,
            byte_sum(p.spec_bytes().subrange(0, 3)) % 256 == 0,
            byte_sum(p.spec_bytes().subrange(3, p.spec_bytes().len() as int)) % 256 == 0,
    {
        let s = p.spec_bytes();
        let head = p.head_bytes();
        let body = p.body_bytes();
        assert(s.subrange(0, 2) =~= head);
        assert(s.subrange(3, s.len() - 1) =~= body);
        assert(s.subrange(0, 3) =~= head.push(checksum(head)));
        assert(s.subrange(3, s.len() as int) =~= body.push(checksum(body)));
        lemma_checksum_closes(head);
        lemma_checksum_closes(body);
        match p.data {
            Some(d) => {
                assert(s.subrange(6, s.len() - 1) =~= d);
            },
            None => {},
        }
    }
}

impl IpmiPayloadRequest {
    /// The longest request that a v1.5 header can announce.
    pub const MAX_PAYLOAD_LENGTH: usize = 0xff;

    /// A request from remote console 1 to the management controller, with
    /// sequence number 8.
    pub fn new(net_fn: NetFn, command: Command, data: Option<Vec<u8>>) -> (r: IpmiPayloadRequest)
        ensures
            r@ == IpmiPayloadRequestView::outgoing(net_fn, command, optional_view(data)),
    {
        IpmiPayloadRequest {
            rs_addr: Address::Slave(SlaveAddress::Bmc),
            net_fn,
            rs_lun: Lun::Bmc,
            rq_addr: Address::Software(SoftwareType::RemoteConsoleSoftware(1)),
            rq_sequence: 0x8,
            rq_lun: Lun::Bmc,
            command,
            data,
        }
    }

    /// The number of bytes that this message takes on the wire.
    pub fn payload_length(&self) -> (r: usize)
        requires
            self@.spec_len() <= usize::MAX,
        ensures
            r == self@.spec_len(),
    {
        match &self.data {
            Some(d) => d.len() + 7,
            None => 7,
        }
    }

    /// Reads a request.
    pub fn from_slice(value: &[u8]) -> (r: Result<IpmiPayloadRequest, IpmiPayloadError>)
        ensures
            viewed(r) == IpmiPayloadRequestView::parse(value@),
    {
        let len: usize = value.len();
        if len < 7 {
            return Err(IpmiPayloadError::PayloadRequestError(IpmiPayloadRequestError::WrongLength));
        }
        if value[2] != get8bit_checksum(slice_subrange(value, 0, 2)) || value[len - 1]
            != get8bit_checksum(slice_subrange(value, 3, len - 1)) {
            return Err(IpmiPayloadError::BadChecksum);
        }
        let net_fn: NetFn = NetFn::from_u8(load_bits(value[1], 0, 6));
        let rs_lun: Lun = match Lun::from_u8(load_bits(value[1], 6, 8)) {
            Ok(l) => l,
            Err(e) => {
                return Err(IpmiPayloadError::Lun(e));
            },
        };
        let rq_lun: Lun = match Lun::from_u8(load_bits(value[4], 6, 8)) {
            Ok(l) => l,
            Err(e) => {
                return Err(IpmiPayloadError::Lun(e));
            },
        };
        let data: Option<Vec<u8>> = if len == 7 {
            None
        } else {
            Some(slice_to_vec(slice_subrange(value, 6, len - 1)))
        };
        Ok(
            IpmiPayloadRequest {
                rs_addr: Address::from_u8(value[0]),
                net_fn,
                rs_lun,
                rq_addr: Address::from_u8(value[3]),
                rq_sequence: load_bits(value[4], 0, 6),
                rq_lun,
                command: Command::from_u8_and_netfn(value[5], net_fn),
                data,
            },
        )
    }

    /// Writes this request, with both checksums.
    pub fn to_bytes(&self) -> (r: Vec<u8>)
        ensures
            r@ == self@.spec_bytes(),
    {
        let mut r: Vec<u8> = Vec::new();
        r.push(self.rs_addr.to_u8());
        r.push(join_two_bits_to_byte(self.net_fn.to_u8(CommandType::Request), self.rs_lun.to_u8(), 6));
        let first: u8 = get8bit_checksum(r.as_slice());
        assert(r@ =~= self@.head_bytes());
        r.push(first);
        r.push(self.rq_addr.to_u8());
        r.push(join_two_bits_to_byte(self.rq_sequence, self.rq_lun.to_u8(), 6));
        r.push(self.command.to_u8());
        match &self.data {
            Some(data) => {
                append_bytes(&mut r, data.as_slice());
            },
            None => {},
        }
        assert(r@.subrange(3, r@.len() as int) =~= self@.body_bytes());
        let second: u8 = get8bit_checksum(slice_subrange(r.as_slice(), 3, r.len()));
        r.push(second);
        assert(r@ =~= self@.spec_bytes());
        r
    }
}

impl Default for IpmiPayloadRequest {
    /// A Get Channel Authentication Capabilities request without data and
    /// with sequence number 0.
    fn default() -> (r: IpmiPayloadRequest)
        ensures
            r@ == (IpmiPayloadRequestView {
                rs_addr: Address::Slave(SlaveAddress::Bmc),
                net_fn: NetFn::App,
                rs_lun: Lun::Bmc,
                rq_addr: Address::Software(SoftwareType::RemoteConsoleSoftware(1)),
                rq_sequence: 0x00,
                rq_lun: Lun::Bmc,
                command: Command::GetChannelAuthCapabilities,
                data: None,
            }),
    {
        IpmiPayloadRequest {
            rs_addr: Address::Slave(SlaveAddress::Bmc),
            net_fn: NetFn::App,
            rs_lun: Lun::Bmc,
            rq_addr: Address::Software(SoftwareType::RemoteConsoleSoftware(1)),
            rq_sequence: 0x00,
            rq_lun: Lun::Bmc,
            command: Command::GetChannelAuthCapabilities,
            data: None,
        }
    }
}

} // verus!
