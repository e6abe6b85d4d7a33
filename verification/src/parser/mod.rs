pub mod ipmi_header;
pub mod ipmi_payload;
pub mod ipmi_payload_request;
pub mod ipmi_payload_request_slice;
pub mod ipmi_payload_response;
pub mod ipmi_payload_response_slice;
pub mod ipmi_raw_request;
pub mod ipmi_v1_header;
pub mod ipmi_v1_header_slice;
pub mod ipmi_v2_header;
pub mod ipmi_v2_header_slice;
pub mod packet;
pub mod rakp;
pub mod rmcp_header;
pub mod rmcp_header_slice;
pub mod rmcp_open_session;
