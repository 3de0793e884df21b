use vstd::prelude::*;
use vstd::string::*;

use crate::render::{decimal, decimal_text};

verus! {

/// The port on which the service endpoint takes notifications.
pub const SERVICE_PORT: u16 = 15151;

/// The port on which inbound datagrams are received.
pub const LISTEN_PORT: u16 = 11311;

/// The number of bytes kept of one inbound datagram.
pub const RECV_BUFFER_LEN: usize = 64;

/// An IPv4 socket address: four octets and a port.
#[derive(Clone, Copy, Debug, PartialEq, Eq)]
pub struct Address {
    pub ip: [u8; 4],
    pub port: u16,
}

/// The text of an address, `a.b.c.d:port`.
pub open spec fn address_text(a: Address) -> Seq<char> {
    decimal(a.ip@[0] as nat) + "."@ + decimal(a.ip@[1] as nat) + "."@ + decimal(a.ip@[2] as nat)
        + "."@ + decimal(a.ip@[3] as nat) + ":"@ + decimal(a.port as nat)
}

impl Address {
    /// Builds an address from its octets and port.
    pub fn new(ip: [u8; 4], port: u16) -> (r: Address)
        ensures
            r.ip@ == ip@,
            r.port == port,
    {
        Address { ip, port }
    }

    /// The unspecified address `0.0.0.0` with the given port.
    pub fn unspecified(port: u16) -> (r: Address)
        ensures
            r.ip@ == seq![0u8, 0u8, 0u8, 0u8],
            r.port == port,
    {
        let r = Address { ip: [0u8, 0u8, 0u8, 0u8], port };
        assert(r.ip@ =~= seq![0u8, 0u8, 0u8, 0u8]);
        r
    }

    /// Writes the address as `a.b.c.d:port`.
    pub fn to_text(&self) -> (r: String)
        ensures
            r@ == address_text(*self),
    {
        let mut s = decimal_text(self.ip[0] as u16);
        s.append(".");
        s.append(decimal_text(self.ip[1] as u16).as_str());
        s.append(".");
        s.append(decimal_text(self.ip[2] as u16).as_str());
        s.append(".");
        s.append(decimal_text(self.ip[3] as u16).as_str());
        s.append(":");
        s.append(decimal_text(self.port).as_str());
        s
    }
}

} // verus!
