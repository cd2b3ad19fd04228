//! The layout of an Ethernet / IPv4 / UDP frame, as far as the forwarder reads it.
//!
//! A frame is a sequence of bytes. The Ethernet header is 14 bytes long and
//! carries the EtherType in bytes 12 and 13. The IPv4 header follows; its
//! length is given by the low four bits of its first byte, counted in 32-bit
//! words, and its protocol field is its tenth byte. The UDP header follows the
//! IPv4 header; it is 8 bytes long and starts with the source and destination
//! ports. Everything after it is the payload.

use vstd::prelude::*;

verus! {

/// Length of the Ethernet header.
pub const LINK_HEADER_LEN: usize = 14;

/// Length of the UDP header.
pub const UDP_HEADER_LEN: usize = 8;

/// The shortest frame that can hold an Ethernet header, an IPv4 header
/// without options and a UDP header.
pub const MIN_FRAME_LEN: usize = 42;

/// The EtherType of IPv4.
pub const ETHERTYPE_IPV4: u16 = 0x0800;

/// The IPv4 protocol number of UDP.
pub const IP_PROTOCOL_UDP: u8 = 17;

/// The port on which DHCP servers listen.
pub const DHCP_SERVER_PORT: u16 = 67;

/// The port on which DHCP clients listen.
pub const DHCP_CLIENT_PORT: u16 = 68;

/// The big-endian 16-bit number made of two bytes.
pub open spec fn be16(hi: u8, lo: u8) -> int {
    hi as int * 256 + lo as int
}

/// The header length, in bytes, that the first byte of an IPv4 header announces:
/// four times its low four bits.
pub open spec fn ihl_bytes(first: u8) -> int {
    ((first & 0x0f) as int) * 4
}

/// The EtherType of a frame of at least 14 bytes.
pub open spec fn ethertype(frame: Seq<u8>) -> int
    recommends
        frame.len() >= 14,
{
    be16(frame[12], frame[13])
}

/// The length of the IPv4 header of a frame, as the frame itself announces it.
pub open spec fn ip_header_len(frame: Seq<u8>) -> int
    recommends
        frame.len() > 14,
{
    ihl_bytes(frame[14])
}

/// The protocol field of the IPv4 header.
pub open spec fn ip_protocol(frame: Seq<u8>) -> int
    recommends
        frame.len() > 23,
{
    frame[23] as int
}

/// Where the UDP header starts.
pub open spec fn udp_start(frame: Seq<u8>) -> int
    recommends
        frame.len() > 14,
{
    14 + ip_header_len(frame)
}

/// Where the UDP payload starts: the combined length of the three headers.
pub open spec fn payload_start(frame: Seq<u8>) -> int
    recommends
        frame.len() > 14,
{
    udp_start(frame) + 8
}

/// The frame is long enough to hold all three headers, the IPv4 header taken
/// at the length it announces.
pub open spec fn has_udp_header(frame: Seq<u8>) -> bool {
    frame.len() >= 42 && frame.len() >= payload_start(frame)
}

/// The UDP source port.
pub open spec fn src_port(frame: Seq<u8>) -> int
    recommends
        has_udp_header(frame),
{
    be16(frame[udp_start(frame)], frame[udp_start(frame) + 1])
}

/// The UDP destination port.
pub open spec fn dst_port(frame: Seq<u8>) -> int
    recommends
        has_udp_header(frame),
{
    be16(frame[udp_start(frame) + 2], frame[udp_start(frame) + 3])
}

/// A pair of ports is DHCP traffic when a client speaks to a server or a server
/// to a client. Two equal ports are not, nor is a pair with only one DHCP port.
pub open spec fn dhcp_port_pair(src: int, dst: int) -> bool {
    (src == 68 && dst == 67) || (src == 67 && dst == 68)
}

/// The frame carries DHCP over UDP over IPv4.
pub open spec fn is_dhcp_frame(frame: Seq<u8>) -> bool {
    &&& has_udp_header(frame)
    &&& ethertype(frame) == 0x0800
    &&& ip_protocol(frame) == 17
    &&& dhcp_port_pair(src_port(frame), dst_port(frame))
}

/// The bytes that follow the UDP header.
pub open spec fn payload(frame: Seq<u8>) -> Seq<u8>
    recommends
        has_udp_header(frame),
{
    frame.subrange(payload_start(frame), frame.len() as int)
}

/// The header length announced by any first byte is a multiple of four
/// between 0 and 60.
pub proof fn lemma_ihl_bytes_bounds(first: u8)
    ensures
        0 <= ihl_bytes(first) <= 60,
        ihl_bytes(first) % 4 == 0,
        ihl_bytes(first) == (first as int % 16) * 4,
{
    assert(first & 0x0f <= 15) by (bit_vector);
    assert(first & 0x0f == first % 16) by (bit_vector);
}

/// Reads two bytes as a big-endian 16-bit number.
pub fn read_be16(hi: u8, lo: u8) -> (r: u16)
    ensures
        r as int == be16(hi, lo),
{
    let h: u16 = hi as u16;
    let l: u16 = lo as u16;
    h * 256 + l
}

/// The length in bytes of an IPv4 header whose first byte is `first`.
pub fn ip_header_length(first: u8) -> (r: usize)
    ensures
        r as int == ihl_bytes(first),
        r <= 60,
{
    let words: u8 = first & 0x0f;
    proof {
        lemma_ihl_bytes_bounds(first);
    }
    let bytes: u8 = words * 4;
    bytes as usize
}

/// Finds the UDP header of a frame: its offset where the frame is long enough
/// to hold the three headers, and nothing where it is not.
pub fn locate_udp_header(frame: &[u8]) -> (r: Option<usize>)
    ensures
        r.is_some() <==> has_udp_header(frame@),
        r.is_some() ==> r.unwrap() as int == udp_start(frame@),
{
    if frame.len() < MIN_FRAME_LEN {
        return None;
    }
    let start: usize = LINK_HEADER_LEN + ip_header_length(frame[14]);
    if frame.len() < start + UDP_HEADER_LEN {
        return None;
    }
    Some(start)
}

/// Tells whether a pair of UDP ports is that of DHCP traffic.
pub fn is_dhcp_port_pair(src: u16, dst: u16) -> (r: bool)
    ensures
        r == dhcp_port_pair(src as int, dst as int),
{
    (src == DHCP_CLIENT_PORT && dst == DHCP_SERVER_PORT) || (src == DHCP_SERVER_PORT && dst
        == DHCP_CLIENT_PORT)
}

} // verus!
