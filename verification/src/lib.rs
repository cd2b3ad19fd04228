//! Recognising DHCP traffic inside captured link-layer frames and cutting out
//! the UDP payload that is mirrored to a remote collector.
//!
//! The crate holds the decisions of a passive DHCP mirror: which captured
//! frames are DHCP, which bytes of such a frame are sent on, and where they
//! are sent. Capturing frames and sending datagrams is left to the caller.

pub mod capture;
pub mod config;
pub mod forwarder;
pub mod frame;
pub mod laws;
