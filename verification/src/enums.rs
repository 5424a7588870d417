//! The enum exercise: the two kinds of IP address, each with its
//! payload.

use vstd::prelude::*;

verus! {

/// An IP address: four octets, or the textual form of a v6 address.
pub enum IpAddrKind {
    V4(u8, u8, u8, u8),
    V6(String),
}

impl IpAddrKind {
    /// A method shared by every variant; the lesson leaves it empty.
    pub fn call(&self) {
    }
}

/// Route a packet towards an address; the lesson leaves it empty.
pub fn route(ip_kind: &IpAddrKind) {
}

} // verus!
