//! What an IP device sends and receives: an IPv4 datagram or an ARP packet.
use vstd::prelude::*;
use super::arp::ARP;
use super::ip::{IP, IPView};

verus! {

#[derive(Debug, PartialEq, Eq)]
pub enum NetworkProtocol {
    IP(IP),
    ARP(ARP),
}

pub enum NetworkProtocolView {
    IP(IPView),
    ARP(ARP),
}

impl View for NetworkProtocol {
    type V = NetworkProtocolView;

    open spec fn view(&self) -> NetworkProtocolView {
        match *self {
            NetworkProtocol::IP(ip) => NetworkProtocolView::IP(ip@),
            NetworkProtocol::ARP(arp) => NetworkProtocolView::ARP(arp),
        }
    }
}

impl Clone for NetworkProtocol {
    fn clone(&self) -> (r: NetworkProtocol)
        ensures
            r@ == self@,
    {
        match self {
            NetworkProtocol::IP(ip) => NetworkProtocol::IP(ip.clone()),
            NetworkProtocol::ARP(arp) => NetworkProtocol::ARP(*arp),
        }
    }
}

impl NetworkProtocolView {
    /// The wire form of the datagram or packet.
    pub open spec fn encode(self) -> Seq<u8> {
        match self {
            NetworkProtocolView::IP(ip) => super::ip::spec_encode(ip),
            NetworkProtocolView::ARP(arp) => super::arp::spec_encode(arp),
        }
    }
}

impl NetworkProtocol {
    pub fn encode(&self) -> (xs: Vec<u8>)
        ensures
            xs@ == self@.encode(),
    {
        match self {
            NetworkProtocol::IP(ip) => ip.encode(),
            NetworkProtocol::ARP(arp) => arp.encode(),
        }
    }
}

} // verus!
