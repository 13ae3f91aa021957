//! An IP host with one interface. It sends the datagrams and packets of a
//! schedule and answers what is addressed to it.
use vstd::prelude::*;
use crate::linkl::ethernet_device::EthernetDeviceView;
use crate::physl::device::{BaseDeviceView, Device};
use crate::types::{ErrorView, Mac, Port, Res, UpdateContext};
use super::ip_addr::{IpAddr, NetworkPart, SubnetMask};
use super::arp::ARP;
use super::ip_device::{
    BaseIpDevice, IpDevice, IpDeviceView, IpHandler, IpRole, UNREACHABLE_RETRIES, address_of_port,
    fresh_ip_device, lemma_send_with_keeps, lemma_send_with_wf,
};
use super::network_protocol::NetworkProtocol;
use super::{NetworkLog, NetworkLogView, network_logs_view};

verus! {

/// The state of an [`IpHost`].
pub struct IpHostView {
    pub ip: IpDeviceView,
    pub schedules: Seq<NetworkLogView>,
    pub handler: IpHandler,
}

/// The state of the device after those of the first `k` entries of
/// `schedules` that are due at the tick `t` were sent, in order.
pub open spec fn send_scheduled(s: IpDeviceView, schedules: Seq<NetworkLogView>, t: usize, k: int) -> IpDeviceView
    decreases k,
{
    if k <= 0 {
        s
    } else {
        let before = send_scheduled(s, schedules, t, k - 1);
        if schedules[k - 1].t == t {
            before.send(schedules[k - 1].p, t)
        } else {
            before
        }
    }
}

/// The state of a host after the tick `t`: what the schedule holds for `t`
/// is sent, then the device reads, serves and refreshes its tables as an
/// endpoint.
pub open spec fn spec_update(s: IpHostView, t: usize) -> Result<IpHostView, ErrorView> {
    match send_scheduled(s.ip, s.schedules, t, s.schedules.len() as int).update(
        IpRole::Host(s.handler),
        t,
    ) {
        Ok(ip) => Ok(IpHostView { ip, ..s }),
        Err(e) => Err(e),
    }
}

/// Sending what is due keeps the device well formed and its identity
/// unchanged.
pub proof fn lemma_send_scheduled_wf(s: IpDeviceView, schedules: Seq<NetworkLogView>, t: usize, k: int)
    requires
        s.wf(),
        0 <= k <= schedules.len(),
    ensures
        send_scheduled(s, schedules, t, k).wf(),
        send_scheduled(s, schedules, t, k).eth.base.mac == s.eth.base.mac,
        send_scheduled(s, schedules, t, k).eth.base.name == s.eth.base.name,
        send_scheduled(s, schedules, t, k).eth.base.num_ports == s.eth.base.num_ports,
    decreases k,
{
    if k > 0 {
        lemma_send_scheduled_wf(s, schedules, t, k - 1);
        let before = send_scheduled(s, schedules, t, k - 1);
        if schedules[k - 1].t == t {
            lemma_send_with_wf(before, schedules[k - 1].p, t, UNREACHABLE_RETRIES as nat);
            lemma_send_with_keeps(before, schedules[k - 1].p, t, UNREACHABLE_RETRIES as nat);
        }
    }
}

/// A tick keeps the state of a host well formed and its identity
/// unchanged.
pub proof fn lemma_update_wf(s: IpHostView, t: usize)
    requires
        s.ip.wf(),
    ensures
        spec_update(s, t) matches Ok(s1) ==> s1.ip.wf() && s1.ip.eth.base.mac == s.ip.eth.base.mac
            && s1.ip.eth.base.name == s.ip.eth.base.name && s1.ip.eth.base.num_ports
            == s.ip.eth.base.num_ports,
{
    lemma_send_scheduled_wf(s.ip, s.schedules, t, s.schedules.len() as int);
    crate::netwl::ip_device::lemma_update_wf(
        send_scheduled(s.ip, s.schedules, t, s.schedules.len() as int),
        IpRole::Host(s.handler),
        t,
    );
}

pub struct IpHost {
    base: BaseIpDevice,
    schedules: Vec<NetworkLog>,
    handler: IpHandler,
}

impl View for IpHost {
    type V = IpHostView;

    closed spec fn view(&self) -> IpHostView {
        IpHostView {
            ip: self.base@,
            schedules: network_logs_view(self.schedules@),
            handler: self.handler,
        }
    }
}

impl IpHost {
    fn new(base: BaseIpDevice, handler: IpHandler) -> (h: IpHost)
        ensures
            h@ == (IpHostView { ip: base@, schedules: Seq::empty(), handler }),
    {
        let h = IpHost { base, schedules: Vec::new(), handler };
        proof {
            assert(h@.schedules =~= Seq::empty());
        }
        h
    }

    /// A host that sends the bytes of every datagram addressed to it back
    /// to the source.
    pub fn build_echo(mac: Mac, name: &str, ip_addr: IpAddr, subnet_mask: SubnetMask) -> (h: IpHost)
        ensures
            h.wf(),
            h@ == (IpHostView {
                ip: fresh_ip_device(mac, name@, seq![ip_addr], subnet_mask),
                schedules: Seq::empty(),
                handler: IpHandler::Echo,
            }),
    {
        let addrs: Vec<IpAddr> = vec![ip_addr];
        assert(addrs@ =~= seq![ip_addr]);
        IpHost::new(BaseIpDevice::new(mac, name, addrs, subnet_mask), IpHandler::Echo)
    }

    /// A host that takes the datagrams addressed to it and answers nothing.
    pub fn build_consumer(mac: Mac, name: &str, ip_addr: IpAddr, subnet_mask: SubnetMask) -> (h:
        IpHost)
        ensures
            h.wf(),
            h@ == (IpHostView {
                ip: fresh_ip_device(mac, name@, seq![ip_addr], subnet_mask),
                schedules: Seq::empty(),
                handler: IpHandler::Consume,
            }),
    {
        let addrs: Vec<IpAddr> = vec![ip_addr];
        assert(addrs@ =~= seq![ip_addr]);
        IpHost::new(BaseIpDevice::new(mac, name, addrs, subnet_mask), IpHandler::Consume)
    }

    /// Appends `p` to the schedule, to be sent at the tick `t`.
    pub fn add_schedule(&mut self, t: usize, p: NetworkProtocol)
        ensures
            final(self)@ == (IpHostView {
                schedules: old(self)@.schedules.push(NetworkLogView { t, p: p@ }),
                ..old(self)@
            }),
            old(self).wf() ==> final(self).wf(),
    {
        self.schedules.push(NetworkLog { t, p });
        proof {
            assert(network_logs_view(self.schedules@) =~= network_logs_view(
                old(self).schedules@,
            ).push(NetworkLogView { t, p: p@ }));
        }
    }

    /// Enters `mac` for `ip_addr` in the ARP table.
    pub fn add_arp_entry(&mut self, ip_addr: IpAddr, mac: Mac) -> (r: Res<()>)
        ensures
            r is Ok,
            final(self)@ == (IpHostView { ip: old(self)@.ip.with_arp(ip_addr, mac), ..old(self)@ }),
            old(self).wf() ==> final(self).wf(),
    {
        self.base.add_arp_entry(ip_addr, mac)
    }

    /// Enters the next hop `ip_addr` for the network `nw_part` in the
    /// routing table.
    pub fn add_route_entry(&mut self, nw_part: NetworkPart, ip_addr: IpAddr) -> (r: Res<()>)
        ensures
            r is Ok,
            final(self)@ == (IpHostView {
                ip: old(self)@.ip.with_route(nw_part, ip_addr),
                ..old(self)@
            }),
            old(self).wf() ==> final(self).wf(),
    {
        self.base.add_route_entry(nw_part, ip_addr)
    }

    /// The address of the interface at `port`.
    pub fn get_ip_addr(&self, port: Port) -> (r: Option<IpAddr>)
        ensures
            r == address_of_port(self@.ip.ifaces, port, self@.ip.ifaces.len() as int),
    {
        self.base.get_ip_addr(port)
    }

    /// The ARP table: each IP address with its hardware address.
    pub fn get_arp_table(&self) -> (table: &Vec<(IpAddr, Mac)>)
        ensures
            table@ == self@.ip.arp,
    {
        self.base.get_arp_table()
    }

    /// Every datagram and packet received so far.
    pub fn get_rlog(&self) -> (logs: &Vec<NetworkLog>)
        ensures
            network_logs_view(logs@) == self@.ip.rlog,
    {
        self.base.get_rlog()
    }

    /// Every datagram and packet sent so far.
    pub fn get_slog(&self) -> (logs: &Vec<NetworkLog>)
        ensures
            network_logs_view(logs@) == self@.ip.slog,
    {
        self.base.get_slog()
    }

    fn update_from_schedule(&mut self, ctx: &UpdateContext)
        requires
            old(self).wf(),
        ensures
            final(self).wf(),
            final(self)@ == (IpHostView {
                ip: send_scheduled(
                    old(self)@.ip,
                    old(self)@.schedules,
                    ctx.t,
                    old(self)@.schedules.len() as int,
                ),
                ..old(self)@
            }),
            final(self)@.ip.eth.base.mac == old(self)@.ip.eth.base.mac,
            final(self)@.ip.eth.base.name == old(self)@.ip.eth.base.name,
            final(self)@.ip.eth.base.num_ports == old(self)@.ip.eth.base.num_ports,
    {
        let mut idx: usize = 0;
        while idx < self.schedules.len()
            invariant
                idx <= self.schedules.len(),
                self.wf(),
                self@ == (IpHostView {
                    ip: send_scheduled(old(self)@.ip, old(self)@.schedules, ctx.t, idx as int),
                    ..old(self)@
                }),
                self@.ip.eth.base.mac == old(self)@.ip.eth.base.mac,
                self@.ip.eth.base.name == old(self)@.ip.eth.base.name,
                self@.ip.eth.base.num_ports == old(self)@.ip.eth.base.num_ports,
            decreases self.schedules.len() - idx,
        {
            if self.schedules[idx].t == ctx.t {
                let p = self.schedules[idx].p.clone();
                let _ = self.base.send(p, ctx);
            }
            idx = idx + 1;
        }
    }
}

impl Device for IpHost {
    closed spec fn base_view(&self) -> BaseDeviceView {
        self.base@.eth.base
    }

    open spec fn wf(&self) -> bool {
        self@.ip.wf() && self.base_view() == self@.ip.eth.base
    }

    proof fn lemma_queue_ports(&self) {
    }

    fn get_mac(&self) -> (mac: Mac) {
        self.base.get_mac()
    }

    fn get_name(&self) -> (name: &str) {
        self.base.get_name()
    }

    fn get_num_ports(&self) -> (n: usize) {
        self.base.get_num_ports()
    }

    fn push_recv(&mut self, port: Port, x: u8)
        ensures
            final(self)@ == (IpHostView {
                ip: IpDeviceView {
                    eth: EthernetDeviceView {
                        base: old(self)@.ip.eth.base.push_recv(port, x),
                        ..old(self)@.ip.eth
                    },
                    ..old(self)@.ip
                },
                ..old(self)@
            }),
    {
        self.base.push_recv(port, x);
    }

    fn pop_send(&mut self) -> (r: Option<(Port, u8)>)
        ensures
            final(self)@ == (IpHostView {
                ip: IpDeviceView {
                    eth: EthernetDeviceView {
                        base: final(self)@.ip.eth.base,
                        ..old(self)@.ip.eth
                    },
                    ..old(self)@.ip
                },
                ..old(self)@
            }),
    {
        self.base.pop_send()
    }

    fn update(&mut self, ctx: &UpdateContext) -> (r: Res<()>)
        ensures
            match spec_update(old(self)@, ctx.t) {
                Ok(s) => r is Ok && final(self)@ == s,
                Err(e) => r matches Err(got) && got@ == e,
            },
    {
        self.update_from_schedule(ctx);
        self.base.base_update(IpRole::Host(self.handler), ctx)
    }
}

impl IpDevice for IpHost {
    open spec fn ip_view(&self) -> IpDeviceView {
        self@.ip
    }

    fn send(&mut self, p: NetworkProtocol, ctx: &UpdateContext) -> (r: Res<()>)
        ensures
            final(self)@.schedules == old(self)@.schedules,
            final(self)@.handler == old(self)@.handler,
    {
        self.base.send(p, ctx)
    }

    fn recv(&mut self, ctx: &UpdateContext) -> (r: Res<Option<NetworkProtocol>>)
        ensures
            final(self)@.schedules == old(self)@.schedules,
            final(self)@.handler == old(self)@.handler,
    {
        self.base.recv(ctx)
    }

    fn base_handle_arp(&mut self, arp: &ARP) -> (r: Res<Option<NetworkProtocol>>)
        ensures
            final(self)@.schedules == old(self)@.schedules,
            final(self)@.handler == old(self)@.handler,
    {
        self.base.handle_arp(arp)
    }

    fn add_arp_entry(&mut self, ip_addr: IpAddr, mac: Mac) -> (r: Res<()>)
        ensures
            final(self)@.schedules == old(self)@.schedules,
            final(self)@.handler == old(self)@.handler,
    {
        self.base.add_arp_entry(ip_addr, mac)
    }

    fn add_route_entry(&mut self, nw_part: NetworkPart, ip_addr: IpAddr) -> (r: Res<()>)
        ensures
            final(self)@.schedules == old(self)@.schedules,
            final(self)@.handler == old(self)@.handler,
    {
        self.base.add_route_entry(nw_part, ip_addr)
    }

    fn get_ip_addr(&self, port: Port) -> (r: Option<IpAddr>) {
        self.base.get_ip_addr(port)
    }

    fn get_arp_table(&self) -> (table: &Vec<(IpAddr, Mac)>) {
        self.base.get_arp_table()
    }

    fn get_rlog(&self) -> (logs: &Vec<NetworkLog>) {
        self.base.get_rlog()
    }
}

} // verus!
