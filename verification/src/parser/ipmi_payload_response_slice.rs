//! A view of an IPMI response in place, without copying it out.
use crate::commands::command::Command;
use crate::err::IpmiPayloadError;
use crate::helpers::bits::load_bits;
use crate::parser::ipmi_payload::{AddrType, Lun, NetFn, SlaveAddress, SoftwareType};
use crate::parser::ipmi_payload_response::{IpmiPayloadResponse, IpmiPayloadResponseView};
use crate::parser::ipmi_payload_response::{Address, CompletionCode};
use crate::helpers::views::optional_bytes;
use vstd::prelude::*;
use vstd::slice::{slice_subrange, slice_to_vec};

verus! {

/// The bytes of an IPMI response, still where they were received. Only
/// bytes that spell a response with both checksums in order are viewed.
pub struct IpmiPayloadResponseSlice<'a> {
    slice: &'a [u8],
}

impl<'a> IpmiPayloadResponseSlice<'a> {
    /// The bytes spell a response.
    #[verifier::type_invariant]
    spec fn well_formed(self) -> bool {
        IpmiPayloadResponseView::parse(self.slice@) is Ok
    }

    /// The bytes that the view holds.
    pub closed spec fn bytes(self) -> Seq<u8> {
        self.slice@
    }

    /// The response that the bytes spell.
    pub open spec fn message(self) -> IpmiPayloadResponseView {
        IpmiPayloadResponseView::parse(self.bytes()).unwrap()
    }

    /// Views `slice` as a response.
    pub fn from_slice(slice: &'a [u8]) -> (r: Result<IpmiPayloadResponseSlice<'a>, IpmiPayloadError>)
        ensures
            r is Ok == IpmiPayloadResponseView::parse(slice@) is Ok,
            r matches Ok(view) ==> view.bytes() == slice@,
            r matches Err(e) ==> IpmiPayloadResponseView::parse(slice@) == Err::<
                IpmiPayloadResponseView,
                IpmiPayloadError,
            >(e),
    {
        match IpmiPayloadResponse::from_slice(slice) {
            Ok(_) => Ok(IpmiPayloadResponseSlice { slice }),
            Err(e) => Err(e),
        }
    }

    /// The bytes of the response.
    pub fn slice(&self) -> (r: &'a [u8])
        ensures
            r@ == self.bytes(),
    {
        self.slice
    }

    /// The kind of the requester address.
    pub fn rq_addr_type(&self) -> (r: AddrType)
        ensures
            r == self.message().rq_addr.kind(),
    {
        proof {
            use_type_invariant(self);
        }
        AddrType::from_bool(load_bits(self.slice[0], 0, 1) == 1)
    }

    /// The requester address, if it is a slave address.
    pub fn rq_slave_address_type(&self) -> (r: Option<SlaveAddress>)
        ensures
            r == self.message().rq_addr.slave(),
    {
        proof {
            use_type_invariant(self);
        }
        match Address::from_u8(self.slice[0]) {
            Address::Slave(s) => Some(s),
            Address::Software(_) => None,
        }
    }

    /// The requester address, if it is a software id.
    pub fn rq_software_type(&self) -> (r: Option<SoftwareType>)
        ensures
            r == self.message().rq_addr.software(),
    {
        proof {
            use_type_invariant(self);
        }
        match Address::from_u8(self.slice[0]) {
            Address::Slave(_) => None,
            Address::Software(s) => Some(s),
        }
    }

    /// The network function.
    pub fn net_fn(&self) -> (r: NetFn)
        ensures
            r == self.message().net_fn,
    {
        proof {
            use_type_invariant(self);
        }
        NetFn::from_u8(load_bits(self.slice[1], 0, 6))
    }

    /// The requester LUN.
    pub fn rq_lun(&self) -> (r: Lun)
        ensures
            r == self.message().rq_lun,
    {
        proof {
            use_type_invariant(self);
        }
        match Lun::from_u8(load_bits(self.slice[1], 6, 8)) {
            Ok(l) => l,
            Err(_) => unreached(),
        }
    }

    /// The kind of the responder address.
    pub fn rs_addr_type(&self) -> (r: AddrType)
        ensures
            r == self.message().rs_addr.kind(),
    {
        proof {
            use_type_invariant(self);
        }
        AddrType::from_bool(load_bits(self.slice[3], 0, 1) == 1)
    }

    /// The responder address, if it is a slave address.
    pub fn rs_slave_address_type(&self) -> (r: Option<SlaveAddress>)
        ensures
            r == self.message().rs_addr.slave(),
    {
        proof {
            use_type_invariant(self);
        }
        match Address::from_u8(self.slice[3]) {
            Address::Slave(s) => Some(s),
            Address::Software(_) => None,
        }
    }

    /// The responder address, if it is a software id.
    pub fn rs_software_type(&self) -> (r: Option<SoftwareType>)
        ensures
            r == self.message().rs_addr.software(),
    {
        proof {
            use_type_invariant(self);
        }
        match Address::from_u8(self.slice[3]) {
            Address::Slave(_) => None,
            Address::Software(s) => Some(s),
        }
    }

    /// The sequence number of the request.
    pub fn rq_sequence(&self) -> (r: u8)
        ensures
            r == self.message().rq_sequence,
    {
        proof {
            use_type_invariant(self);
        }
        load_bits(self.slice[4], 0, 6)
    }

    /// The responder LUN.
    pub fn rs_lun(&self) -> (r: Lun)
        ensures
            r == self.message().rs_lun,
    {
        proof {
            use_type_invariant(self);
        }
        match Lun::from_u8(load_bits(self.slice[4], 6, 8)) {
            Ok(l) => l,
            Err(_) => unreached(),
        }
    }

    /// The command.
    pub fn command(&self) -> (r: Command)
        ensures
            r == self.message().command,
    {
        proof {
            use_type_invariant(self);
        }
        Command::from_u8_and_netfn(self.slice[5], self.net_fn())
    }

    /// The completion code.
    pub fn completion_code(&self) -> (r: CompletionCode)
        ensures
            r == self.message().completion_code,
    {
        proof {
            use_type_invariant(self);
        }
        CompletionCode::from_u8(self.slice[6])
    }

    /// A copy of the data bytes; empty where there are none.
    pub fn data(&self) -> (r: Vec<u8>)
        ensures
            r@ == optional_bytes(self.message().data),
    {
        proof {
            use_type_invariant(self);
        }
        let len: usize = self.slice.len() - 1;
        slice_to_vec(slice_subrange(self.slice, 7, len))
    }

    /// Copies the response out.
    pub fn to_header(&self) -> (r: IpmiPayloadResponse)
        ensures
            r@ == self.message(),
    {
        proof {
            use_type_invariant(self);
        }
        let data: Option<Vec<u8>> = if self.slice.len() == 8 {
            None
        } else {
            Some(self.data())
        };
        IpmiPayloadResponse {
            rq_addr: Address::from_u8(self.slice[0]),
            net_fn: self.net_fn(),
            rq_lun: self.rq_lun(),
            rs_addr: Address::from_u8(self.slice[3]),
            rq_sequence: self.rq_sequence(),
            rs_lun: self.rs_lun(),
            command: self.command(),
            completion_code: self.completion_code(),
            data,
        }
    }
}

} // verus!
