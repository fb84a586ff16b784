//! Where the nodes of a local network are found.

use vstd::prelude::*;

verus! {

/// The designated inbound TCP port to be used by the network.
pub const RBTC_PORT: u16 = 42069;

/// The first of the outbound TCP ports to be used by the network.
pub const RBTC_PORT_FIRST: u16 = 49152;

/// The last of the outbound TCP ports to be used by the network.
pub const RBTC_PORT_LAST: u16 = 64738;

/// The number of bytes that make up a message.
pub const MSG_SIZE: usize = 4;

/// The number of bootstrap nodes in the network.
pub const BOOTSTRAP_COUNT: usize = 2;

/// The number of seconds to wait before timing out of a TCP connection
/// attempt.
pub const CONNECT_TIMEOUT_SECS: u64 = 10;

/// Return the IPv4 address and the port of the node with the given number:
/// the loopback address with the node number as its last octet, and the
/// inbound port of the network.
pub fn addr_from_node_number(node_number: u8) -> (addr: ([u8; 4], u16))
    ensures
        addr.0@ == seq![127u8, 0u8, 0u8, node_number],
        addr.1 == RBTC_PORT,
{
    let octets = [127u8, 0u8, 0u8, node_number];
    assert(octets@ =~= seq![127u8, 0u8, 0u8, node_number]);
    (octets, RBTC_PORT)
}

/// Whether a message read from the wire has the length of a message.
pub fn is_message(bytes: &[u8]) -> (whole: bool)
    ensures
        whole == (bytes@.len() == MSG_SIZE),
{
    bytes.len() == MSG_SIZE
}

} // verus!
