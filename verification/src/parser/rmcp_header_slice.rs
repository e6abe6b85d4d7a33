//! A view of the RMCP header in place, without copying it out.
use crate::err::RMCPHeaderError;
use crate::helpers::bits::load_bits;
use crate::parser::rmcp_header::{MessageClass, RmcpHeader};
use vstd::prelude::*;
use vstd::slice::slice_subrange;

verus! {

/// The four bytes of an RMCP header, still where they were received.
pub struct RmcpHeaderSlice<'a> {
    slice: &'a [u8],
}

impl<'a> RmcpHeaderSlice<'a> {
    /// The view always holds exactly the four bytes of the header.
    #[verifier::type_invariant]
    spec fn well_formed(self) -> bool {
        self.slice@.len() == 4
    }

    /// The bytes that the view holds.
    pub closed spec fn bytes(self) -> Seq<u8> {
        self.slice@
    }

    /// Takes the first four bytes of `slice` as an RMCP header.
    pub fn from_slice(slice: &'a [u8]) -> (r: Result<RmcpHeaderSlice<'a>, RMCPHeaderError>)
        ensures
            r is Ok == (slice@.len() >= 4),
            r matches Ok(view) ==> view.bytes() == slice@.subrange(0, 4),
            r matches Err(e) ==> e == RMCPHeaderError::WrongLength,
    {
        if slice.len() < 4 {
            return Err(RMCPHeaderError::WrongLength);
        }
        Ok(RmcpHeaderSlice { slice: slice_subrange(slice, 0, 4) })
    }

    /// The bytes of the header.
    pub fn slice(&self) -> (r: &'a [u8])
        ensures
            r@ == self.bytes(),
            r@.len() == 4,
    {
        proof {
            use_type_invariant(self);
        }
        self.slice
    }

    /// The version byte.
    pub fn version(&self) -> (r: u8)
        ensures
            r == self.bytes()[0],
    {
        proof {
            use_type_invariant(self);
        }
        self.slice[0]
    }

    /// The reserved byte.
    pub fn reserved(&self) -> (r: u8)
        ensures
            r == self.bytes()[1],
    {
        proof {
            use_type_invariant(self);
        }
        self.slice[1]
    }

    /// The sequence number.
    pub fn sequence_number(&self) -> (r: u8)
        ensures
            r == self.bytes()[2],
    {
        proof {
            use_type_invariant(self);
        }
        self.slice[2]
    }

    /// The acknowledge flag: the top bit of the last byte.
    pub fn ack(&self) -> (r: bool)
        ensures
            r == (self.bytes()[3] >= 128),
    {
        proof {
            use_type_invariant(self);
        }
        load_bits(self.slice[3], 0, 1) == 1
    }

    /// The number of the message class: the low four bits of the last byte.
    pub fn message_class(&self) -> (r: u8)
        ensures
            r == self.bytes()[3] % 16,
    {
        proof {
            use_type_invariant(self);
        }
        load_bits(self.slice[3], 4, 8)
    }

    /// The header that the bytes spell.
    pub fn to_header(&self) -> (r: Result<RmcpHeader, RMCPHeaderError>)
        ensures
            r == RmcpHeader::parse(self.bytes()),
    {
        proof {
            use_type_invariant(self);
        }
        match MessageClass::from_u8(self.message_class()) {
            Ok(message_class) => Ok(
                RmcpHeader {
                    version: self.version(),
                    reserved: self.reserved(),
                    sequence_number: self.sequence_number(),
                    rmcp_ack: self.ack(),
                    message_class,
                },
            ),
            Err(e) => Err(e),
        }
    }
}

} // verus!
