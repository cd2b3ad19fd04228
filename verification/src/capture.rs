//! Recognising DHCP packets among captured frames.

use crate::frame::{
    is_dhcp_frame, is_dhcp_port_pair, locate_udp_header, read_be16, ETHERTYPE_IPV4,
    IP_PROTOCOL_UDP,
};
use std::time::SystemTime;
use vstd::prelude::*;
use vstd::slice::slice_to_vec;

verus! {

/// A point in time of the system clock. Nothing is known of its value.
#[verifier::external_type_specification]
#[verifier::external_body]
pub struct ExSystemTime(std::time::SystemTime);

/// A captured frame that carries DHCP, whole, with the time of its capture.
#[derive(Debug)]
pub struct DhcpPacket {
    /// The frame as it was captured, headers included.
    pub data: Vec<u8>,
    /// When the frame was captured.
    pub timestamp: SystemTime,
}

impl DhcpPacket {
    /// The packet holds what its name says: a frame that carries DHCP.
    /// Classification gives only such packets.
    pub open spec fn holds_dhcp(&self) -> bool {
        is_dhcp_frame(self.data@)
    }
}

/// Reads the system clock through `SystemTime::now`. Nothing is claimed of
/// the time that it returns.
#[verifier::external_body]
fn now() -> (t: SystemTime) {
    SystemTime::now()
}

/// Decides whether a captured frame carries DHCP.
///
/// A frame matches when it is long enough for its headers, its EtherType is
/// IPv4, its protocol is UDP and its ports are those of a DHCP client and a
/// DHCP server, one on each side. A matching frame is returned whole, with the
/// time given.
pub fn classify(frame: &[u8], captured_at: SystemTime) -> (r: Option<DhcpPacket>)
    ensures
        r.is_some() <==> is_dhcp_frame(frame@),
        r.is_some() ==> r.unwrap().data@ == frame@ && r.unwrap().timestamp == captured_at,
        r.is_some() ==> r.unwrap().holds_dhcp(),
{
    let udp_start: usize = match locate_udp_header(frame) {
        None => {
            return None;
        },
        Some(offset) => offset,
    };
    if read_be16(frame[12], frame[13]) != ETHERTYPE_IPV4 {
        return None;
    }
    if frame[23] != IP_PROTOCOL_UDP {
        return None;
    }
    let src: u16 = read_be16(frame[udp_start], frame[udp_start + 1]);
    let dst: u16 = read_be16(frame[udp_start + 2], frame[udp_start + 3]);
    if is_dhcp_port_pair(src, dst) {
        Some(DhcpPacket { data: slice_to_vec(frame), timestamp: captured_at })
    } else {
        None
    }
}

/// What the capture device reports when asked for the next frame.
pub enum CaptureEvent<'a> {
    /// A frame was captured.
    Frame(&'a [u8]),
    /// No frame arrived in time.
    Timeout,
    /// The device failed.
    Failure,
}

/// What the capture loop does with an event before it asks for the next one.
/// No step ends the loop.
#[derive(Debug)]
pub enum CaptureStep {
    /// Hand the packet to the consumer.
    Deliver(DhcpPacket),
    /// Do nothing.
    Skip,
    /// Report that the device failed.
    Warn,
}

/// Captures DHCP packets on one network interface.
pub struct PacketCapture {
    interface: String,
}

impl PacketCapture {
    /// The name of the interface.
    pub closed spec fn spec_interface(&self) -> Seq<char> {
        self.interface@
    }

    /// A capture on the interface named `interface`.
    pub fn new(interface: String) -> (r: Self)
        ensures
            r.spec_interface() == interface@,
    {
        PacketCapture { interface }
    }

    /// The name of the interface.
    pub fn interface(&self) -> (r: &str)
        ensures
            r@ == self.spec_interface(),
    {
        self.interface.as_str()
    }

    /// Picks the capture device among the names of those present: the first
    /// that bears the name of the interface.
    pub fn find_device(&self, names: &Vec<String>) -> (r: Option<usize>)
        ensures
            match r {
                Some(i) => {
                    &&& i < names.len()
                    &&& names[i as int]@ == self.spec_interface()
                    &&& forall|j: int| 0 <= j < i ==> names[j]@ != self.spec_interface()
                },
                None => forall|j: int| 0 <= j < names.len() ==> names[j]@ != self.spec_interface(),
            },
    {
        let mut i: usize = 0;
        while i < names.len()
            invariant
                i <= names.len(),
                forall|j: int| 0 <= j < i ==> names[j]@ != self.spec_interface(),
            decreases names.len() - i,
        {
            if names[i] == self.interface {
                return Some(i);
            }
            i += 1;
        }
        None
    }

    /// Decides whether a captured frame carries DHCP, as `classify` does, and
    /// stamps a matching frame with the current time.
    pub fn parse_packet(&self, data: &[u8]) -> (r: Option<DhcpPacket>)
        ensures
            r.is_some() <==> is_dhcp_frame(data@),
            r.is_some() ==> r.unwrap().data@ == data@ && r.unwrap().holds_dhcp(),
    {
        classify(data, now())
    }

    /// Decides what the capture loop does with an event: a DHCP frame is
    /// delivered, any other frame and a timeout are passed over, and a failure
    /// of the device is reported.
    pub fn next_step(&self, event: CaptureEvent<'_>) -> (r: CaptureStep)
        ensures
            match event {
                CaptureEvent::Frame(data) => if is_dhcp_frame(data@) {
                    r matches CaptureStep::Deliver(packet) && packet.data@ == data@
                        && packet.holds_dhcp()
                } else {
                    r is Skip
                },
                CaptureEvent::Timeout => r is Skip,
                CaptureEvent::Failure => r is Warn,
            },
    {
        match event {
            CaptureEvent::Frame(data) => match self.parse_packet(data) {
                Some(packet) => CaptureStep::Deliver(packet),
                None => CaptureStep::Skip,
            },
            CaptureEvent::Timeout => CaptureStep::Skip,
            CaptureEvent::Failure => CaptureStep::Warn,
        }
    }
}

} // verus!
