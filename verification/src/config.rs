//! Where the mirrored payloads go and on which interface frames are captured.

use vstd::prelude::*;

verus! {

/// An IP address as a number, the first octet in the most significant byte.
#[derive(Debug, Clone, Copy, PartialEq, Eq, Structural)]
pub enum IpAddress {
    V4(u32),
    V6(u128),
}

/// The settings of the forwarder.
#[derive(Debug, Clone)]
pub struct Config {
    /// Address of the collector that receives the payloads.
    pub remote_ip: IpAddress,
    /// UDP port of the collector.
    pub remote_port: u16,
    /// Name of the interface on which frames are captured.
    pub interface: String,
}

/// The address 192.168.1.1, which a default configuration sends to.
pub const DEFAULT_REMOTE_IP: u32 = 0xC0A8_0101;

/// The collector's port where none is configured: the DHCP server port.
pub fn default_remote_port() -> (r: u16)
    ensures
        r == 67,
{
    67
}

/// The interface where none is configured.
pub fn default_interface() -> (r: String)
    ensures
        r@ == "eth0"@,
{
    "eth0".to_string()
}

impl Config {
    /// The configuration used where nothing is configured: collector
    /// 192.168.1.1, port 67, interface "eth0".
    pub fn default() -> (r: Self)
        ensures
            r.remote_ip == IpAddress::V4(DEFAULT_REMOTE_IP),
            r.remote_port == 67,
            r.interface@ == "eth0"@,
    {
        Config {
            remote_ip: IpAddress::V4(DEFAULT_REMOTE_IP),
            remote_port: default_remote_port(),
            interface: default_interface(),
        }
    }

    /// Replaces each setting for which an override is given and keeps the others.
    pub fn with_overrides(
        self,
        interface: Option<String>,
        remote_ip: Option<IpAddress>,
        remote_port: Option<u16>,
    ) -> (r: Self)
        ensures
            r.interface@ == (match interface {
                Some(name) => name@,
                None => self.interface@,
            }),
            r.remote_ip == (match remote_ip {
                Some(ip) => ip,
                None => self.remote_ip,
            }),
            r.remote_port == (match remote_port {
                Some(port) => port,
                None => self.remote_port,
            }),
    {
        let mut config = self;
        if let Some(name) = interface {
            config.interface = name;
        }
        if let Some(ip) = remote_ip {
            config.remote_ip = ip;
        }
        if let Some(port) = remote_port {
            config.remote_port = port;
        }
        config
    }
}

} // verus!
