//! A router: an IP device with one interface for each of its addresses
//! that forwards the datagrams for other addresses.
use vstd::prelude::*;
use crate::linkl::ethernet_device::EthernetDeviceView;
use crate::physl::device::{BaseDeviceView, Device};
use crate::types::{Mac, Port, Res, UpdateContext};
use super::ip_addr::{IpAddr, NetworkPart, SubnetMask};
use super::arp::ARP;
use super::ip_device::{
    BaseIpDevice, IpDevice, IpDeviceView, IpRole, address_of_port, fresh_ip_device,
};
use super::network_protocol::NetworkProtocol;
use super::{NetworkLog, network_logs_view};

verus! {

pub struct Router {
    base: BaseIpDevice,
}

impl View for Router {
    type V = IpDeviceView;

    closed spec fn view(&self) -> IpDeviceView {
        self.base@
    }
}

impl Router {
    /// A router with an interface for each address of `ip_addr_list`, on
    /// the ports 0, 1, 2 and so on.
    pub fn build(mac: Mac, name: &str, ip_addr_list: Vec<IpAddr>, subnet_mask: SubnetMask) -> (r:
        Router)
        requires
            ip_addr_list@.len() <= u32::MAX,
        ensures
            r.wf(),
            r@ == fresh_ip_device(mac, name@, ip_addr_list@, subnet_mask),
    {
        Router { base: BaseIpDevice::new(mac, name, ip_addr_list, subnet_mask) }
    }

    /// Enters `mac` for `ip_addr` in the ARP table.
    pub fn add_arp_entry(&mut self, ip_addr: IpAddr, mac: Mac) -> (r: Res<()>)
        ensures
            r is Ok,
            final(self)@ == old(self)@.with_arp(ip_addr, mac),
            old(self).wf() ==> final(self).wf(),
    {
        self.base.add_arp_entry(ip_addr, mac)
    }

    /// Enters the next hop `ip_addr` for the network `nw_part` in the
    /// routing table.
    pub fn add_route_entry(&mut self, nw_part: NetworkPart, ip_addr: IpAddr) -> (r: Res<()>)
        ensures
            r is Ok,
            final(self)@ == old(self)@.with_route(nw_part, ip_addr),
            old(self).wf() ==> final(self).wf(),
    {
        self.base.add_route_entry(nw_part, ip_addr)
    }

    /// The address of the interface at `port`.
    pub fn get_ip_addr(&self, port: Port) -> (r: Option<IpAddr>)
        ensures
            r == address_of_port(self@.ifaces, port, self@.ifaces.len() as int),
    {
        self.base.get_ip_addr(port)
    }

    /// The ARP table: each IP address with its hardware address.
    pub fn get_arp_table(&self) -> (table: &Vec<(IpAddr, Mac)>)
        ensures
            table@ == self@.arp,
    {
        self.base.get_arp_table()
    }

    /// Every datagram and packet received so far.
    pub fn get_rlog(&self) -> (logs: &Vec<NetworkLog>)
        ensures
            network_logs_view(logs@) == self@.rlog,
    {
        self.base.get_rlog()
    }

    /// Every datagram and packet sent so far.
    pub fn get_slog(&self) -> (logs: &Vec<NetworkLog>)
        ensures
            network_logs_view(logs@) == self@.slog,
    {
        self.base.get_slog()
    }
}

impl Device for Router {
    closed spec fn base_view(&self) -> BaseDeviceView {
        self.base@.eth.base
    }

    open spec fn wf(&self) -> bool {
        self@.wf() && self.base_view() == self@.eth.base
    }

    proof fn lemma_queue_ports(&self) {
    }

    fn get_mac(&self) -> (mac: Mac) {
        self.base.get_mac()
    }

    fn get_name(&self) -> (name: &str) {
        self.base.get_name()
    }

    fn get_num_ports(&self) -> (n: usize) {
        self.base.get_num_ports()
    }

    fn push_recv(&mut self, port: Port, x: u8)
        ensures
            final(self)@ == (IpDeviceView {
                eth: EthernetDeviceView {
                    base: old(self)@.eth.base.push_recv(port, x),
                    ..old(self)@.eth
                },
                ..old(self)@
            }),
    {
        self.base.push_recv(port, x);
    }

    fn pop_send(&mut self) -> (r: Option<(Port, u8)>)
        ensures
            final(self)@ == (IpDeviceView {
                eth: EthernetDeviceView { base: final(self)@.eth.base, ..old(self)@.eth },
                ..old(self)@
            }),
    {
        self.base.pop_send()
    }

    fn update(&mut self, ctx: &UpdateContext) -> (r: Res<()>)
        ensures
            match old(self)@.update(IpRole::Router, ctx.t) {
                Ok(s) => r is Ok && final(self)@ == s,
                Err(e) => r matches Err(got) && got@ == e,
            },
    {
        self.base.base_update(IpRole::Router, ctx)
    }
}

impl IpDevice for Router {
    open spec fn ip_view(&self) -> IpDeviceView {
        self@
    }

    fn send(&mut self, p: NetworkProtocol, ctx: &UpdateContext) -> (r: Res<()>)
    {
        self.base.send(p, ctx)
    }

    fn recv(&mut self, ctx: &UpdateContext) -> (r: Res<Option<NetworkProtocol>>)
    {
        self.base.recv(ctx)
    }

    fn base_handle_arp(&mut self, arp: &ARP) -> (r: Res<Option<NetworkProtocol>>)
    {
        self.base.handle_arp(arp)
    }

    fn add_arp_entry(&mut self, ip_addr: IpAddr, mac: Mac) -> (r: Res<()>)
    {
        self.base.add_arp_entry(ip_addr, mac)
    }

    fn add_route_entry(&mut self, nw_part: NetworkPart, ip_addr: IpAddr) -> (r: Res<()>)
    {
        self.base.add_route_entry(nw_part, ip_addr)
    }

    fn get_ip_addr(&self, port: Port) -> (r: Option<IpAddr>) {
        self.base.get_ip_addr(port)
    }

    fn get_arp_table(&self) -> (table: &Vec<(IpAddr, Mac)>) {
        self.base.get_arp_table()
    }

    fn get_rlog(&self) -> (logs: &Vec<NetworkLog>) {
        self.base.get_rlog()
    }
}

} // verus!
