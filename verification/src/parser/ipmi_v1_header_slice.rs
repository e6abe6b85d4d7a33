//! A view of a v1.5 session header in place, without copying it out.
use crate::err::IpmiHeaderError;
use crate::helpers::bytes::{read_be, u32_from_be};
use crate::parser::ipmi_header::AuthType;
use crate::parser::ipmi_v1_header::IpmiV1Header;
use vstd::prelude::*;

verus! {

/// The bytes of a v1.5 session header, still where they were received.
/// Only bytes that spell a header are viewed.
#[derive(Debug)]
pub struct IpmiV1HeaderSlice<'a> {
    slice: &'a [u8],
}

impl<'a> IpmiV1HeaderSlice<'a> {
    /// The bytes spell a header.
    #[verifier::type_invariant]
    spec fn well_formed(self) -> bool {
        IpmiV1Header::parse(self.slice@) is Ok
    }

    /// The bytes that the view holds.
    pub closed spec fn bytes(self) -> Seq<u8> {
        self.slice@
    }

    /// The header that the bytes spell.
    pub open spec fn header(self) -> IpmiV1Header {
        IpmiV1Header::parse(self.bytes()).unwrap()
    }

    /// Views `slice` as a v1.5 header; it must hold exactly the header.
    pub fn from_slice(slice: &'a [u8]) -> (r: Result<IpmiV1HeaderSlice<'a>, IpmiHeaderError>)
        ensures
            r is Ok == IpmiV1Header::parse(slice@) is Ok,
            r matches Ok(view) ==> view.bytes() == slice@,
            r matches Err(e) ==> IpmiV1Header::parse(slice@) == Err::<IpmiV1Header, IpmiHeaderError>(
                e,
            ),
    {
        match IpmiV1Header::from_slice(slice) {
            Ok(_) => Ok(IpmiV1HeaderSlice { slice }),
            Err(e) => Err(e),
        }
    }

    /// The bytes of the header.
    pub fn slice(&self) -> (r: &'a [u8])
        ensures
            r@ == self.bytes(),
    {
        self.slice
    }

    /// The number of the authentication type.
    pub fn auth_type(&self) -> (r: u8)
        ensures
            r == self.header().auth_type.code(),
    {
        proof {
            use_type_invariant(self);
            AuthType::lemma_code_of_from_code(self.slice@[0]);
        }
        self.slice[0]
    }

    /// The session sequence number.
    pub fn session_seq_number(&self) -> (r: u32)
        ensures
            r == self.header().session_seq_number,
    {
        proof {
            use_type_invariant(self);
        }
        u32_from_be(self.slice, 1)
    }

    /// The session id.
    pub fn session_id(&self) -> (r: u32)
        ensures
            r == self.header().session_id,
    {
        proof {
            use_type_invariant(self);
        }
        u32_from_be(self.slice, 5)
    }

    /// The authentication code, where the header has one.
    pub fn auth_code(&self) -> (r: Option<u128>)
        ensures
            r == self.header().auth_code,
    {
        proof {
            use_type_invariant(self);
        }
        if self.slice.len() == 26 {
            Some(read_be(self.slice, 9, 16))
        } else {
            None
        }
    }

    /// The payload length: the last byte of the header.
    pub fn payload_length(&self) -> (r: u8)
        ensures
            r == self.header().payload_length,
    {
        proof {
            use_type_invariant(self);
        }
        self.slice[self.slice.len() - 1]
    }

    /// Copies the header out.
    pub fn to_header(&self) -> (r: IpmiV1Header)
        ensures
            r == self.header(),
    {
        proof {
            use_type_invariant(self);
        }
        match IpmiV1Header::from_slice(self.slice) {
            Ok(h) => h,
            Err(_) => unreached(),
        }
    }
}

} // verus!
