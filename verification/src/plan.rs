//! Which payload sizes a run exercises, and in which order.
//!
//! Sizes follow one convention for every backend. The smallest size is the
//! header floor: 28 bytes, an IPv4 header and a UDP header, for the
//! backends that go through the stack, and 42 bytes, the same below a
//! 14-byte Ethernet header, for a raw frame. The MTU-relative size is the
//! MTU less the headers that the backend puts in front of the payload
//! inside the link-layer payload: nothing on the link layer, 28 bytes for
//! UDP. The large size, 65000 bytes, is only for a backend that can split
//! one payload over several frames.

use vstd::prelude::*;
use crate::config::Config;

verus! {

/// The payload size that stands for the practical upper bound of one
/// logical payload.
pub const LARGE_PAYLOAD: usize = 65000;

/// A transmission path under test.
#[derive(Clone, Copy, Debug, PartialEq, Eq, Structural)]
pub enum Protocol {
    /// Raw link-layer injection: the caller supplies whole frames.
    Pnet,
    /// Ethernet framing done by the network stack.
    Ethernet,
    /// A UDP socket of the network stack.
    Udp,
}

impl Protocol {
    /// The smallest payload that the backend is exercised with.
    pub open spec fn spec_minimum_payload(self) -> usize {
        match self {
            Protocol::Pnet => 42,
            Protocol::Ethernet => 28,
            Protocol::Udp => 28,
        }
    }

    /// The bytes of headers that the backend takes out of one MTU.
    pub open spec fn spec_header_overhead(self) -> usize {
        match self {
            Protocol::Pnet => 0,
            Protocol::Ethernet => 0,
            Protocol::Udp => 28,
        }
    }

    /// Whether one payload may be larger than a frame.
    pub open spec fn spec_supports_large(self) -> bool {
        self == Protocol::Udp
    }

    /// Whether the backend can lose its transmit handle and get a new one.
    pub open spec fn spec_recovers(self) -> bool {
        self != Protocol::Pnet
    }

    /// The smallest payload that the backend is exercised with.
    #[verifier::when_used_as_spec(spec_minimum_payload)]
    pub fn minimum_payload(self) -> (size: usize)
        ensures
            size == self.spec_minimum_payload(),
    {
        match self {
            Protocol::Pnet => 42,
            Protocol::Ethernet => 28,
            Protocol::Udp => 28,
        }
    }

    /// The bytes of headers that the backend takes out of one MTU.
    #[verifier::when_used_as_spec(spec_header_overhead)]
    pub fn header_overhead(self) -> (size: usize)
        ensures
            size == self.spec_header_overhead(),
    {
        match self {
            Protocol::Pnet => 0,
            Protocol::Ethernet => 0,
            Protocol::Udp => 28,
        }
    }

    /// Whether one payload may be larger than a frame.
    #[verifier::when_used_as_spec(spec_supports_large)]
    pub fn supports_large(self) -> (b: bool)
        ensures
            b == self.spec_supports_large(),
    {
        match self {
            Protocol::Udp => true,
            _ => false,
        }
    }

    /// Whether the backend can lose its transmit handle and get a new one.
    #[verifier::when_used_as_spec(spec_recovers)]
    pub fn recovers(self) -> (b: bool)
        ensures
            b == self.spec_recovers(),
    {
        match self {
            Protocol::Pnet => false,
            _ => true,
        }
    }
}

/// The sizes planned for `protocol`: the minimum, the MTU-relative size and
/// the large size, in this order, each only if its mode is chosen and the
/// backend has it.
pub open spec fn planned_sizes(config: Config, protocol: Protocol) -> Seq<usize> {
    let minimum: Seq<usize> = if config.size_min {
        seq![protocol.minimum_payload()]
    } else {
        seq![]
    };
    let relative: Seq<usize> = if config.size_mtu {
        seq![(config.mtu - protocol.header_overhead()) as usize]
    } else {
        seq![]
    };
    let large: Seq<usize> = if config.size_max && protocol.supports_large() {
        seq![LARGE_PAYLOAD]
    } else {
        seq![]
    };
    minimum + relative + large
}

/// Whether the MTU-relative size of `protocol` exists: the MTU holds the
/// backend's headers, or that size is not asked for.
pub open spec fn plannable(config: Config, protocol: Protocol) -> bool {
    config.size_mtu ==> config.mtu >= protocol.header_overhead()
}

/// Tells whether `packet_sizes` may be called for `protocol`.
pub fn can_plan(config: &Config, protocol: Protocol) -> (b: bool)
    ensures
        b == plannable(*config, protocol),
{
    !config.size_mtu || config.mtu >= protocol.header_overhead()
}

/// The payload sizes to exercise for `protocol`, in the order minimum,
/// MTU-relative, large. No mode chosen gives no size, and so no sweep.
pub fn packet_sizes(config: &Config, protocol: Protocol) -> (sizes: Vec<usize>)
    requires
        plannable(*config, protocol),
    ensures
        sizes@ == planned_sizes(*config, protocol),
{
    let mut sizes: Vec<usize> = Vec::new();
    if config.size_min {
        sizes.push(protocol.minimum_payload());
    }
    if config.size_mtu {
        sizes.push(config.mtu - protocol.header_overhead());
    }
    if config.size_max && protocol.supports_large() {
        sizes.push(LARGE_PAYLOAD);
    }
    assert(sizes@ =~= planned_sizes(*config, protocol));
    sizes
}

} // verus!
