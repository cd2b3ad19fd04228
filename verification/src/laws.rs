//! What holds of classification and extraction on every frame.

use crate::capture::DhcpPacket;
use crate::forwarder::{extraction, ExtractError};
use crate::frame::{
    be16, dhcp_port_pair, dst_port, ethertype, has_udp_header, ihl_bytes, ip_header_len,
    ip_protocol, is_dhcp_frame, lemma_ihl_bytes_bounds, payload, payload_start, src_port,
    udp_start,
};
use vstd::prelude::*;

verus! {

/// A frame put together from its four parts: the Ethernet header, the IPv4
/// header, the UDP header and the payload.
pub open spec fn assemble(link: Seq<u8>, ip: Seq<u8>, udp: Seq<u8>, data: Seq<u8>) -> Seq<u8> {
    link + ip + udp + data
}

/// The parts have the lengths of well-formed headers: 14 bytes of Ethernet, an
/// IPv4 header of at least 20 bytes that announces its own length, and 8 bytes
/// of UDP.
pub open spec fn well_formed_headers(link: Seq<u8>, ip: Seq<u8>, udp: Seq<u8>) -> bool {
    &&& link.len() == 14
    &&& ip.len() >= 20
    &&& ip.len() == ihl_bytes(ip[0])
    &&& udp.len() == 8
}

/// A frame of fewer than 42 bytes is never classified as DHCP, and extraction
/// refuses it as too short.
pub proof fn lemma_short_frame_rejected(frame: Seq<u8>)
    requires
        frame.len() < 42,
    ensures
        !is_dhcp_frame(frame),
        extraction(frame) == Err::<Seq<u8>, ExtractError>(ExtractError::TooShort),
{
}

/// A frame whose EtherType is not IPv4 is never classified as DHCP, whatever
/// else it holds.
pub proof fn lemma_not_ipv4_rejected(frame: Seq<u8>)
    requires
        ethertype(frame) != 0x0800,
    ensures
        !is_dhcp_frame(frame),
{
}

/// A frame whose IP protocol is not UDP is never classified as DHCP.
pub proof fn lemma_not_udp_rejected(frame: Seq<u8>)
    requires
        ip_protocol(frame) != 17,
    ensures
        !is_dhcp_frame(frame),
{
}

/// Among the IPv4 / UDP frames that are long enough for their headers, the
/// DHCP frames are those sent from port 68 to port 67 or from port 67 to
/// port 68, and no others: one DHCP port on one side is not enough.
pub proof fn lemma_ports_decide(frame: Seq<u8>)
    requires
        has_udp_header(frame),
        ethertype(frame) == 0x0800,
        ip_protocol(frame) == 17,
    ensures
        is_dhcp_frame(frame) <==> (src_port(frame) == 68 && dst_port(frame) == 67) || (src_port(
            frame,
        ) == 67 && dst_port(frame) == 68),
        src_port(frame) == dst_port(frame) ==> !is_dhcp_frame(frame),
        src_port(frame) != 67 && src_port(frame) != 68 ==> !is_dhcp_frame(frame),
        dst_port(frame) != 67 && dst_port(frame) != 68 ==> !is_dhcp_frame(frame),
{
}

/// The headers end where the frame says they do: the IPv4 header is as many
/// 32-bit words long as the low four bits of byte 14 say, so that the payload
/// starts between byte 22 and byte 82, at 22 plus a multiple of four.
pub proof fn lemma_header_length_is_read(frame: Seq<u8>)
    ensures
        ip_header_len(frame) == (frame[14] as int % 16) * 4,
        udp_start(frame) == 14 + ip_header_len(frame),
        payload_start(frame) == 22 + ip_header_len(frame),
        22 <= payload_start(frame) <= 82,
{
    lemma_ihl_bytes_bounds(frame[14]);
}

/// Extraction gives back exactly the payload that a frame was assembled
/// around, at whatever length the IPv4 header has.
pub proof fn lemma_assembled_payload_extracted(
    link: Seq<u8>,
    ip: Seq<u8>,
    udp: Seq<u8>,
    data: Seq<u8>,
)
    requires
        well_formed_headers(link, ip, udp),
        data.len() > 0,
    ensures
        extraction(assemble(link, ip, udp, data)) == Ok::<Seq<u8>, ExtractError>(data),
{
    let frame = assemble(link, ip, udp, data);
    assert(frame[14] == ip[0]);
    assert(payload_start(frame) == 14 + ip.len() + 8);
    assert(frame.subrange(payload_start(frame), frame.len() as int) =~= data);
}

/// A frame assembled from an IPv4 Ethernet header, a UDP IPv4 header and a UDP
/// header with the ports of a DHCP exchange is classified as DHCP, at whatever
/// length the IPv4 header has and whatever the payload.
pub proof fn lemma_assembled_frame_classified(
    link: Seq<u8>,
    ip: Seq<u8>,
    udp: Seq<u8>,
    data: Seq<u8>,
)
    requires
        well_formed_headers(link, ip, udp),
        be16(link[12], link[13]) == 0x0800,
        ip[9] == 17,
        dhcp_port_pair(be16(udp[0], udp[1]), be16(udp[2], udp[3])),
    ensures
        is_dhcp_frame(assemble(link, ip, udp, data)),
{
    let frame = assemble(link, ip, udp, data);
    assert(frame[14] == ip[0]);
    assert(udp_start(frame) == 14 + ip.len());
    assert(frame[12] == link[12] && frame[13] == link[13]);
    assert(frame[23] == ip[9]);
    let s = udp_start(frame);
    assert(frame[s] == udp[0] && frame[s + 1] == udp[1]);
    assert(frame[s + 2] == udp[2] && frame[s + 3] == udp[3]);
}

/// A frame of at least 42 bytes that ends exactly where its three headers end
/// is refused as having no payload; it is not an empty payload.
pub proof fn lemma_headers_only_is_no_payload(frame: Seq<u8>)
    requires
        frame.len() >= 42,
        frame.len() == payload_start(frame),
    ensures
        extraction(frame) == Err::<Seq<u8>, ExtractError>(ExtractError::NoPayload),
{
}

/// Extraction never succeeds with an empty payload, and what it gives is as
/// long as the frame without its headers.
pub proof fn lemma_extracted_payload_length(frame: Seq<u8>)
    ensures
        extraction(frame) matches Ok(bytes) ==> bytes.len() > 0 && bytes.len() == frame.len()
            - payload_start(frame),
{
}

/// A frame that is classified as DHCP is never too short for extraction: it
/// yields its payload, or has none.
pub proof fn lemma_dhcp_frame_not_too_short(frame: Seq<u8>)
    requires
        is_dhcp_frame(frame),
    ensures
        extraction(frame) != Err::<Seq<u8>, ExtractError>(ExtractError::TooShort),
{
}

/// Forwarding a packet that holds a DHCP frame never fails for want of
/// headers: either the frame ends with its UDP header, or its payload is what
/// is sent.
pub proof fn lemma_classified_packet_forwards(packet: DhcpPacket)
    requires
        packet.holds_dhcp(),
    ensures
        extraction(packet.data@) == Err::<Seq<u8>, ExtractError>(ExtractError::NoPayload)
            || extraction(packet.data@) == Ok::<Seq<u8>, ExtractError>(payload(packet.data@)),
        extraction(packet.data@) is Ok <==> packet.data@.len() > payload_start(packet.data@),
{
}

} // verus!
