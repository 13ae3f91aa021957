//! A deterministic, single-stepped simulator of a small layered network:
//! byte wires, Ethernet framing with a learning bridge, IPv4 with ARP and a
//! routing table, and a minimal stream transport on top.
//!
//! Every device owns its queues. A [`physl::network::Network`] moves one
//! byte per device and tick across the links and then runs every device.
//!
//! The modules `device` and `network` hold a second, simpler kind of
//! device, with byte queues for each port and a hub that stores and
//! forwards.
use vstd::prelude::*;

pub mod types;
pub mod utils;
pub mod output;
pub mod device;
pub mod network;
pub mod physl;
pub mod netwl;
pub mod linkl;
pub mod tranl;

verus! {

} // verus!
