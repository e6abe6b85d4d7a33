//! A request given by its numbers, for a session that stands.
use crate::commands::command::Command;
use crate::parser::ipmi_header::{AuthType, IpmiHeader};
use crate::parser::ipmi_payload::{IpmiPayload, IpmiPayloadView, NetFn};
use crate::parser::ipmi_payload_request::{IpmiPayloadRequest, IpmiPayloadRequestView};
use crate::parser::ipmi_v2_header::{IpmiV2Header, PayloadType};
use crate::parser::packet::{Packet, PacketView, Payload, PayloadView};
use crate::helpers::views::optional_view;
use vstd::prelude::*;

verus! {

/// A network function, a command and its data.
#[derive(Clone, Debug, PartialEq, Eq, Hash)]
pub struct IpmiPayloadRawRequest {
    pub netfn: NetFn,
    pub command_code: Command,
    pub data: Option<Vec<u8>>,
}

/// What an `IpmiPayloadRawRequest` holds, with its data as a sequence.
pub struct IpmiPayloadRawRequestView {
    pub netfn: NetFn,
    pub command_code: Command,
    pub data: Option<Seq<u8>>,
}

impl View for IpmiPayloadRawRequest {
    type V = IpmiPayloadRawRequestView;

    open spec fn view(&self) -> IpmiPayloadRawRequestView {
        IpmiPayloadRawRequestView {
            netfn: self.netfn,
            command_code: self.command_code,
            data: optional_view(self.data),
        }
    }
}

impl IpmiPayloadRawRequestView {
    /// The request message that carries this request.
    pub open spec fn spec_request(self) -> IpmiPayloadRequestView {
        IpmiPayloadRequestView::outgoing(self.netfn, self.command_code, self.data)
    }

    /// The header of the packet that carries this request inside the
    /// session `rmcp_plus_session_id` under the sequence number
    /// `session_seq_number`: encrypted and authenticated, its length field
    /// the length of the message before padding and encryption.
    pub open spec fn spec_header(self, rmcp_plus_session_id: u32, session_seq_number: u32) -> IpmiV2Header {
        IpmiV2Header {
            auth_type: AuthType::RmcpPlus,
            payload_enc: true,
            payload_auth: true,
            payload_type: PayloadType::IPMI,
            oem_iana: None,
            oem_payload_id: None,
            rmcp_plus_session_id,
            session_seq_number,
            payload_length: self.spec_request().spec_len() as u16,
        }
    }

    /// The packet that carries this request.
    pub open spec fn spec_packet(self, rmcp_plus_session_id: u32, session_seq_number: u32) -> PacketView {
        PacketView::outgoing(
            IpmiHeader::V2_0(self.spec_header(rmcp_plus_session_id, session_seq_number)),
            PayloadView::Ipmi(IpmiPayloadView::Request(self.spec_request())),
        )
    }
}

impl IpmiPayloadRawRequest {
    /// Puts the fields together.
    pub fn new(netfn: NetFn, command_code: Command, data: Option<Vec<u8>>) -> (r:
        IpmiPayloadRawRequest)
        ensures
            r@ == (IpmiPayloadRawRequestView {
                netfn,
                command_code,
                data: optional_view(data),
            }),
    {
        IpmiPayloadRawRequest { netfn, command_code, data }
    }

    /// The packet that carries this request inside a session. The data
    /// must leave the message short enough for the sixteen-bit length
    /// field.
    pub fn create_packet(self, rmcp_plus_session_id: u32, session_seq_number: u32) -> (r: Packet)
        requires
            self@.spec_request().spec_len() <= 0xFFFF,
        ensures
            r@.wf(),
            r@ == self@.spec_packet(rmcp_plus_session_id, session_seq_number),
    {
        proof {
            IpmiPayloadRequestView::lemma_len(self@.spec_request());
        }
        let request: IpmiPayloadRequest = IpmiPayloadRequest::new(
            self.netfn,
            self.command_code,
            self.data,
        );
        let length: usize = request.payload_length();
        Packet::new(
            IpmiHeader::V2_0(
                IpmiV2Header {
                    auth_type: AuthType::RmcpPlus,
                    payload_enc: true,
                    payload_auth: true,
                    payload_type: PayloadType::IPMI,
                    oem_iana: None,
                    oem_payload_id: None,
                    rmcp_plus_session_id,
                    session_seq_number,
                    payload_length: length as u16,
                },
            ),
            Payload::Ipmi(IpmiPayload::Request(request)),
        )
    }
}

} // verus!
