//! Cutting the DHCP message out of a captured frame and addressing it to the
//! collector.

use crate::capture::DhcpPacket;
use crate::config::{Config, IpAddress};
use crate::frame::{has_udp_header, locate_udp_header, payload, payload_start, UDP_HEADER_LEN};
use std::sync::Arc;
use std::time::SystemTime;
use vstd::prelude::*;
use vstd::slice::{slice_subrange, slice_to_vec};

verus! {

/// Why a frame yields no payload.
#[derive(Debug, Clone, Copy, PartialEq, Eq, Structural)]
pub enum ExtractError {
    /// The frame cannot hold the Ethernet, IPv4 and UDP headers.
    TooShort,
    /// The frame ends with the UDP header.
    NoPayload,
}

/// What extraction yields for a frame: the bytes after the UDP header where
/// there are any, and otherwise the reason why there are none.
pub open spec fn extraction(frame: Seq<u8>) -> Result<Seq<u8>, ExtractError> {
    if !has_udp_header(frame) {
        Err(ExtractError::TooShort)
    } else if frame.len() == payload_start(frame) {
        Err(ExtractError::NoPayload)
    } else {
        Ok(payload(frame))
    }
}

/// The view of an extraction result: the bytes of a payload, or the error.
pub open spec fn extracted(r: Result<Vec<u8>, ExtractError>) -> Result<Seq<u8>, ExtractError> {
    match r {
        Ok(bytes) => Ok(bytes@),
        Err(e) => Err(e),
    }
}

/// Copies the UDP payload out of a frame.
///
/// The headers are located anew, whatever the caller knows of the frame: a
/// frame too short for them is refused as `TooShort`, one that ends with the
/// UDP header as `NoPayload`.
pub fn extract_payload(frame: &[u8]) -> (r: Result<Vec<u8>, ExtractError>)
    ensures
        extracted(r) == extraction(frame@),
{
    match locate_udp_header(frame) {
        None => Err(ExtractError::TooShort),
        Some(udp_start) => {
            let start: usize = udp_start + UDP_HEADER_LEN;
            if frame.len() <= start {
                Err(ExtractError::NoPayload)
            } else {
                Ok(slice_to_vec(slice_subrange(frame, start, frame.len())))
            }
        },
    }
}

impl ExtractError {
    /// The error in words.
    pub fn message(&self) -> (r: &'static str)
        ensures
            r@ == (match *self {
                ExtractError::TooShort => "Packet too short to contain DHCP data"@,
                ExtractError::NoPayload => "No UDP payload found"@,
            }),
    {
        match self {
            ExtractError::TooShort => "Packet too short to contain DHCP data",
            ExtractError::NoPayload => "No UDP payload found",
        }
    }
}

/// A payload on its way to the collector.
#[derive(Debug)]
pub struct Datagram {
    /// The bytes to send.
    pub payload: Vec<u8>,
    /// Address of the collector.
    pub remote_ip: IpAddress,
    /// UDP port of the collector.
    pub remote_port: u16,
    /// When the frame that held the payload was captured.
    pub timestamp: SystemTime,
}

/// Turns captured DHCP frames into datagrams for the configured collector.
pub struct PacketForwarder {
    config: Arc<Config>,
}

impl PacketForwarder {
    /// The configuration that the forwarder was made with.
    pub closed spec fn spec_config(&self) -> Config {
        *self.config
    }

    /// A forwarder that sends to the collector of `config`.
    pub fn new(config: Arc<Config>) -> (r: Self)
        ensures
            r.spec_config() == *config,
    {
        PacketForwarder { config }
    }

    /// The configuration that the forwarder was made with.
    pub fn config(&self) -> (r: &Config)
        ensures
            *r == self.spec_config(),
    {
        &self.config
    }

    /// Copies the UDP payload out of a frame, as `extract_payload` does.
    pub fn extract_dhcp_payload(&self, data: &[u8]) -> (r: Result<Vec<u8>, ExtractError>)
        ensures
            extracted(r) == extraction(data@),
    {
        extract_payload(data)
    }

    /// Prepares the datagram that mirrors a captured packet: the packet's UDP
    /// payload, addressed to the configured collector. A packet without a
    /// payload gives the error of the extraction and nothing to send.
    pub fn forward_packet(&self, packet: DhcpPacket) -> (r: Result<Datagram, ExtractError>)
        ensures
            match r {
                Ok(datagram) => {
                    &&& extraction(packet.data@) == Ok::<Seq<u8>, ExtractError>(datagram.payload@)
                    &&& datagram.remote_ip == self.spec_config().remote_ip
                    &&& datagram.remote_port == self.spec_config().remote_port
                    &&& datagram.timestamp == packet.timestamp
                },
                Err(e) => extraction(packet.data@) == Err::<Seq<u8>, ExtractError>(e),
            },
    {
        match self.extract_dhcp_payload(packet.data.as_slice()) {
            Ok(payload) => Ok(
                Datagram {
                    payload,
                    remote_ip: self.config.remote_ip,
                    remote_port: self.config.remote_port,
                    timestamp: packet.timestamp,
                },
            ),
            Err(e) => Err(e),
        }
    }
}

} // verus!
