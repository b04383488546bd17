//! The parameters of one benchmark run, as plain values.

use vstd::prelude::*;
use vstd::string::StringExecFns;
use crate::timing::Elapsed;

verus! {

/// A link-layer address, octet by octet.
#[derive(Clone, Copy, Debug, PartialEq, Eq, Structural)]
pub struct MacAddress(pub u8, pub u8, pub u8, pub u8, pub u8, pub u8);

/// An IPv4 address, octet by octet.
#[derive(Clone, Copy, Debug, PartialEq, Eq, Structural)]
pub struct Ipv4Address(pub u8, pub u8, pub u8, pub u8);

/// An IPv4 address with a port.
#[derive(Clone, Copy, Debug, PartialEq, Eq, Structural)]
pub struct SocketAddress {
    pub ip: Ipv4Address,
    pub port: u16,
}

/// An IPv4 address with the length of its network prefix in bits.
#[derive(Clone, Copy, Debug, PartialEq, Eq, Structural)]
pub struct Network {
    pub ip: Ipv4Address,
    pub prefix: u8,
}

/// A network interface: its name and its link-layer address.
#[derive(Clone, Debug)]
pub struct Interface {
    pub name: String,
    pub mac: MacAddress,
}

/// The parameters of a run. The engine reads the duration, the MTU and the
/// three size modes; the addresses are for whoever builds the transport.
#[derive(Clone, Debug)]
pub struct Config {
    /// How long each sweep point sends.
    pub duration: Elapsed,
    pub iface: Interface,
    /// The largest link-layer payload of the interface, in bytes.
    pub mtu: usize,
    pub src_mac: MacAddress,
    pub src: SocketAddress,
    pub src_net: Network,
    pub dst_mac: MacAddress,
    pub dst: SocketAddress,
    pub gw: Ipv4Address,
    /// Exercise the smallest payload.
    pub size_min: bool,
    /// Exercise the payload that fills one MTU.
    pub size_mtu: bool,
    /// Exercise the largest payload.
    pub size_max: bool,
}

impl Config {
    /// The defaults: ten seconds per sweep point, an MTU of 1500, no size
    /// mode chosen, and the addresses of a small test network.
    pub open spec fn is_default(self) -> bool {
        &&& self.duration.total_nanos() == 10_000_000_000
        &&& self.iface.name@ == "test0"@
        &&& self.iface.mac == MacAddress(11, 22, 33, 44, 55, 66)
        &&& self.mtu == 1500
        &&& self.src_mac == MacAddress(11, 22, 33, 44, 55, 66)
        &&& self.src == (SocketAddress { ip: Ipv4Address(10, 0, 0, 2), port: 0 })
        &&& self.src_net == (Network { ip: Ipv4Address(10, 0, 0, 2), prefix: 24 })
        &&& self.dst_mac == MacAddress(99, 88, 77, 66, 55, 44)
        &&& self.dst == (SocketAddress { ip: Ipv4Address(10, 0, 0, 15), port: 8080 })
        &&& self.gw == Ipv4Address(10, 0, 0, 1)
        &&& !self.size_min
        &&& !self.size_mtu
        &&& !self.size_max
    }

    /// The network prefix is no longer than an IPv4 address.
    pub open spec fn valid(self) -> bool {
        self.src_net.prefix <= 32
    }

    /// The default parameters.
    pub fn new() -> (config: Config)
        ensures
            config.is_default(),
            config.valid(),
    {
        let src_mac = MacAddress(11, 22, 33, 44, 55, 66);
        let src_ip = Ipv4Address(10, 0, 0, 2);
        Config {
            duration: Elapsed::new(10, 0),
            iface: Interface { name: String::from_str("test0"), mac: src_mac },
            mtu: 1500,
            src_mac,
            src: SocketAddress { ip: src_ip, port: 0 },
            src_net: Network { ip: src_ip, prefix: 24 },
            dst_mac: MacAddress(99, 88, 77, 66, 55, 44),
            dst: SocketAddress { ip: Ipv4Address(10, 0, 0, 15), port: 8080 },
            gw: Ipv4Address(10, 0, 0, 1),
            size_min: false,
            size_mtu: false,
            size_max: false,
        }
    }

    /// Whether the parameters are well formed.
    pub fn is_valid(&self) -> (b: bool)
        ensures
            b == self.valid(),
    {
        self.src_net.prefix <= 32
    }
}

} // verus!
