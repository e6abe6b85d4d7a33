//! A view of a v2.0 session header in place, without copying it out.
use crate::err::IpmiHeaderError;
use crate::helpers::bits::load_bits;
use crate::helpers::bytes::{u16_from_le, u32_from_le};
use crate::parser::ipmi_header::AuthType;
use crate::parser::ipmi_v2_header::{IpmiV2Header, PayloadType};
use vstd::prelude::*;

verus! {

/// The bytes of a v2.0 session header, still where they were received.
/// Only bytes that spell a header are viewed.
#[derive(Debug)]
pub struct IpmiV2HeaderSlice<'a> {
    slice: &'a [u8],
}

impl<'a> IpmiV2HeaderSlice<'a> {
    /// The bytes spell a header.
    #[verifier::type_invariant]
    spec fn well_formed(self) -> bool {
        IpmiV2Header::parse(self.slice@) is Ok
    }

    /// The bytes that the view holds.
    pub closed spec fn bytes(self) -> Seq<u8> {
        self.slice@
    }

    /// The header that the bytes spell.
    pub open spec fn header(self) -> IpmiV2Header {
        IpmiV2Header::parse(self.bytes()).unwrap()
    }

    /// Views `slice` as a v2.0 header; it must hold exactly the header.
    pub fn from_slice(slice: &'a [u8]) -> (r: Result<IpmiV2HeaderSlice<'a>, IpmiHeaderError>)
        ensures
            r is Ok == IpmiV2Header::parse(slice@) is Ok,
            r matches Ok(view) ==> view.bytes() == slice@,
            r matches Err(e) ==> IpmiV2Header::parse(slice@) == Err::<IpmiV2Header, IpmiHeaderError>(
                e,
            ),
    {
        match IpmiV2Header::from_slice(slice) {
            Ok(_) => Ok(IpmiV2HeaderSlice { slice }),
            Err(e) => Err(e),
        }
    }

    /// The bytes of the header.
    pub fn slice(&self) -> (r: &'a [u8])
        ensures
            r@ == self.bytes(),
    {
        self.slice
    }

    /// The number of the authentication type.
    pub fn auth_type(&self) -> (r: u8)
        ensures
            r == self.header().auth_type.code(),
    {
        proof {
            use_type_invariant(self);
            AuthType::lemma_code_of_from_code(self.slice@[0]);
        }
        self.slice[0]
    }

    /// The byte that carries both protection flags and the payload type.
    pub fn payload_byte(&self) -> (r: u8)
        ensures
            r == self.bytes()[1],
    {
        proof {
            use_type_invariant(self);
        }
        self.slice[1]
    }

    /// Whether the payload is encrypted.
    pub fn payload_enc(&self) -> (r: bool)
        ensures
            r == self.header().payload_enc,
    {
        proof {
            use_type_invariant(self);
        }
        load_bits(self.slice[1], 0, 1) == 1
    }

    /// Whether the packet ends in an integrity trailer.
    pub fn payload_auth(&self) -> (r: bool)
        ensures
            r == self.header().payload_auth,
    {
        proof {
            use_type_invariant(self);
        }
        load_bits(self.slice[1], 1, 2) == 1
    }

    /// The payload type.
    pub fn payload_type(&self) -> (r: PayloadType)
        ensures
            r == self.header().payload_type,
    {
        proof {
            use_type_invariant(self);
        }
        match PayloadType::from_u8(load_bits(self.slice[1], 2, 8)) {
            Ok(t) => t,
            Err(_) => unreached(),
        }
    }

    /// The IANA number of an OEM payload.
    pub fn oem_iana(&self) -> (r: Option<u32>)
        ensures
            r == self.header().oem_iana,
    {
        proof {
            use_type_invariant(self);
        }
        if self.slice.len() == 18 {
            Some(u32_from_le(self.slice, 2))
        } else {
            None
        }
    }

    /// The payload id of an OEM payload.
    pub fn oem_payload_id(&self) -> (r: Option<u16>)
        ensures
            r == self.header().oem_payload_id,
    {
        proof {
            use_type_invariant(self);
        }
        if self.slice.len() == 18 {
            Some(u16_from_le(self.slice, 6))
        } else {
            None
        }
    }

    /// The session id.
    pub fn rmcp_plus_session_id(&self) -> (r: u32)
        ensures
            r == self.header().rmcp_plus_session_id,
    {
        proof {
            use_type_invariant(self);
        }
        u32_from_le(self.slice, self.slice.len() - 10)
    }

    /// The session sequence number.
    pub fn session_seq_number(&self) -> (r: u32)
        ensures
            r == self.header().session_seq_number,
    {
        proof {
            use_type_invariant(self);
        }
        u32_from_le(self.slice, self.slice.len() - 6)
    }

    /// The payload length.
    pub fn payload_length(&self) -> (r: u16)
        ensures
            r == self.header().payload_length,
    {
        proof {
            use_type_invariant(self);
        }
        u16_from_le(self.slice, self.slice.len() - 2)
    }

    /// Copies the header out.
    pub fn to_header(&self) -> (r: IpmiV2Header)
        ensures
            r == self.header(),
    {
        proof {
            use_type_invariant(self);
        }
        IpmiV2Header {
            auth_type: match AuthType::from_u8(self.auth_type()) {
                Ok(a) => a,
                Err(_) => unreached(),
            },
            payload_enc: self.payload_enc(),
            payload_auth: self.payload_auth(),
            payload_type: self.payload_type(),
            oem_iana: self.oem_iana(),
            oem_payload_id: self.oem_payload_id(),
            rmcp_plus_session_id: self.rmcp_plus_session_id(),
            session_seq_number: self.session_seq_number(),
            payload_length: self.payload_length(),
        }
    }
}

} // verus!
