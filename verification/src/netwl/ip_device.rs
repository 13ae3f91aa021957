//! The IP device: an Ethernet framer with interfaces, an ARP table and a
//! routing table. It reads datagrams and ARP packets from frames, answers
//! or forwards them, and finds the next hop of what it sends.
use vstd::prelude::*;
use crate::linkl::ethernet_device::{
    BaseEthernetDevice, EthernetDeviceView, fresh_framer, lemma_absorb_wf, lemma_push_frame_wf,
};
use crate::linkl::ethernet_frame::{
    ETHERTYPE_ARP, ETHERTYPE_IPV4, EthernetFrame, EthernetFrameView, mac_broadcast,
    spec_mac_broadcast,
};
use crate::types::{Error, ErrorView, Mac, Port, Res, UpdateContext, invalid_bytes};
use super::arp::{ARP, ARP_REPLY, ARP_REQUEST};
use super::ip::{ICMP_UNREACHABLE, IP, IPView, IpPayload, IpPayloadView};
use super::ip_addr::{IpAddr, NetworkPart, SubnetMask, network_part};
use super::network_protocol::{NetworkProtocol, NetworkProtocolView};
use super::table::{arp_find, arp_put, assoc_find, assoc_put, route_find, route_put};
use super::{NetworkLog, NetworkLogView, network_logs_view};

verus! {

/// The ICMP code for a host that cannot be reached.
pub const ICMP_HOST_UNREACHABLE: u8 = 1;

/// How often a datagram without a next hop is replaced by a message to its
/// source before it is given up. After two replacements the message would
/// only repeat itself.
pub const UNREACHABLE_RETRIES: u8 = 2;

/// What a device makes of the bytes of a datagram that is addressed to it.
#[derive(Debug, Clone, Copy, PartialEq, Eq, Structural)]
pub enum IpHandler {
    /// The bytes are sent back to the source.
    Echo,
    /// The bytes are taken and nothing is sent back.
    Consume,
}

/// The part that a device plays at the network layer.
#[derive(Debug, Clone, Copy, PartialEq, Eq, Structural)]
pub enum IpRole {
    /// An endpoint. It answers the datagrams that are addressed to it and
    /// drops those for other addresses.
    Host(IpHandler),
    /// A router. It forwards the datagrams for other addresses and is never
    /// the endpoint of one that carries bytes.
    Router,
}

/// The state of a [`BaseIpDevice`].
pub struct IpDeviceView {
    pub eth: EthernetDeviceView,
    pub subnet_mask: SubnetMask,
    /// The address of each interface with its port, in the order of the ports.
    pub ifaces: Seq<(IpAddr, Port)>,
    /// The routing table: a next hop for a network.
    pub routes: Seq<(NetworkPart, IpAddr)>,
    /// The ARP table: a hardware address for an IP address.
    pub arp: Seq<(IpAddr, Mac)>,
    pub slog: Seq<NetworkLogView>,
    pub rlog: Seq<NetworkLogView>,
}

/// Whether `ip` is the address of one of the interfaces.
pub open spec fn is_own_address(ifaces: Seq<(IpAddr, Port)>, ip: IpAddr) -> bool {
    exists|i: int| 0 <= i < ifaces.len() && (#[trigger] ifaces[i]).0 == ip
}

/// The port of the first of the first `k` interfaces that lies in the
/// network `nw`.
pub open spec fn port_in_network(
    ifaces: Seq<(IpAddr, Port)>,
    mask: SubnetMask,
    nw: NetworkPart,
    k: int,
) -> Option<Port>
    decreases k,
{
    if k <= 0 {
        None
    } else {
        match port_in_network(ifaces, mask, nw, k - 1) {
            Some(p) => Some(p),
            None => if network_part(ifaces[k - 1].0, mask) == nw {
                Some(ifaces[k - 1].1)
            } else {
                None
            },
        }
    }
}

/// The address of the first of the first `k` interfaces that has the port
/// `port`.
pub open spec fn address_of_port(ifaces: Seq<(IpAddr, Port)>, port: Port, k: int) -> Option<IpAddr>
    decreases k,
{
    if k <= 0 {
        None
    } else {
        match address_of_port(ifaces, port, k - 1) {
            Some(a) => Some(a),
            None => if ifaces[k - 1].1 == port {
                Some(ifaces[k - 1].0)
            } else {
                None
            },
        }
    }
}

/// What a frame holds for the device with the address `mac`. A frame that is
/// neither for `mac` nor for every device holds nothing for it.
pub open spec fn ingress(mac: Mac, f: EthernetFrameView) -> Result<
    Option<NetworkProtocolView>,
    ErrorView,
> {
    if f.dst != mac && f.dst != spec_mac_broadcast() {
        Ok(None)
    } else if f.ethertype == ETHERTYPE_IPV4 {
        match super::ip::spec_decode(f.payload) {
            Ok(ip) => Ok(Some(NetworkProtocolView::IP(ip))),
            Err(e) => Err(e),
        }
    } else if f.ethertype == ETHERTYPE_ARP {
        match super::arp::spec_decode(f.payload) {
            Ok(arp) => Ok(Some(NetworkProtocolView::ARP(arp))),
            Err(e) => Err(e),
        }
    } else {
        Err(ErrorView::InvalidBytes { msg: "neither IPv4 nor ARP"@ })
    }
}

/// The message that tells the source of `ip` that its destination cannot be
/// reached, sent from `own`.
pub open spec fn unreachable_message(own: IpAddr, ip: IPView) -> IPView {
    super::ip::spec_new(
        own,
        ip.src,
        IpPayloadView::ICMP { ty: ICMP_UNREACHABLE, code: ICMP_HOST_UNREACHABLE },
    )
}

/// The answer of an endpoint to the bytes `xs` of the datagram `ip`.
pub open spec fn answer_datagram(ip: IPView, xs: Seq<u8>) -> IPView {
    super::ip::spec_new(ip.dst, ip.src, IpPayloadView::Bytes(xs))
}

impl IpHandler {
    /// The bytes of the answer to `xs`, if there is an answer.
    pub open spec fn spec_reply(self, xs: Seq<u8>) -> Option<Seq<u8>> {
        match self {
            IpHandler::Echo => Some(xs),
            IpHandler::Consume => None,
        }
    }

    /// The bytes of the answer to `xs`, if there is an answer.
    pub fn reply(&self, xs: &Vec<u8>) -> (r: Option<Vec<u8>>)
        ensures
            match self.spec_reply(xs@) {
                Some(bytes) => r matches Some(got) && got@ == bytes,
                None => r.is_none(),
            },
    {
        match self {
            IpHandler::Echo => Some(xs.clone()),
            IpHandler::Consume => None,
        }
    }
}

impl IpDeviceView {
    /// The framer is well formed and the interfaces are the ports in order.
    pub open spec fn wf(self) -> bool {
        &&& self.eth.wf()
        &&& self.ifaces.len() == self.eth.base.num_ports
        &&& forall|i: int| 0 <= i < self.ifaces.len() ==> (#[trigger] self.ifaces[i]).1.value == i
    }

    pub open spec fn mac(self) -> Mac {
        self.eth.base.mac
    }

    /// Whether `ip` is one of the device's own addresses.
    pub open spec fn is_for_me(self, ip: IpAddr) -> bool {
        is_own_address(self.ifaces, ip)
    }

    /// The port of the first interface that lies in the network `nw`.
    pub open spec fn find_port(self, nw: NetworkPart) -> Option<Port> {
        port_in_network(self.ifaces, self.subnet_mask, nw, self.ifaces.len() as int)
    }

    /// The hardware address of the next hop towards `dst`. A destination in
    /// the network of an interface is its own next hop. Any other goes by
    /// the routing table. The next hop must stand in the ARP table.
    pub open spec fn find_next_mac(self, dst: IpAddr) -> Option<Mac> {
        let nw = network_part(dst, self.subnet_mask);
        if self.find_port(nw) is Some {
            assoc_find(self.arp, dst)
        } else {
            match assoc_find(self.routes, nw) {
                Some(next) => assoc_find(self.arp, next),
                None => None,
            }
        }
    }

    /// The frame that carries `p`, if its next hop is known. An ARP request
    /// goes to every device and an ARP reply to the target that it names.
    pub open spec fn frame_for(self, p: NetworkProtocolView) -> Option<EthernetFrameView> {
        match p {
            NetworkProtocolView::IP(ip) => match self.find_next_mac(ip.dst) {
                Some(dst) => Some(
                    EthernetFrameView {
                        dst,
                        src: self.mac(),
                        ethertype: ETHERTYPE_IPV4,
                        payload: p.encode(),
                    },
                ),
                None => None,
            },
            NetworkProtocolView::ARP(arp) => Some(
                EthernetFrameView {
                    dst: if arp.opcode == ARP_REQUEST {
                        spec_mac_broadcast()
                    } else {
                        arp.target_mac
                    },
                    src: self.mac(),
                    ethertype: ETHERTYPE_ARP,
                    payload: p.encode(),
                },
            ),
        }
    }

    /// The state after `p` was logged as received during the tick `t`.
    pub open spec fn log_recv(self, p: NetworkProtocolView, t: usize) -> IpDeviceView {
        IpDeviceView { rlog: self.rlog.push(NetworkLogView { t, p }), ..self }
    }

    /// The state after `p` left in the frame `f` during the tick `t`.
    pub open spec fn emit(self, p: NetworkProtocolView, f: EthernetFrameView, t: usize) -> IpDeviceView {
        IpDeviceView {
            eth: self.eth.push_frame(f, t),
            slog: self.slog.push(NetworkLogView { t, p }),
            ..self
        }
    }

    /// The state after the attempt to send `p` during the tick `t`. If the
    /// next hop of a datagram is unknown, a destination-unreachable message
    /// to its source is sent in its place, by the same rule and at most
    /// `retries` times in a row. What still has no next hop then is dropped,
    /// and so is everything without a next hop on a device without
    /// interfaces.
    pub open spec fn send_with(self, p: NetworkProtocolView, t: usize, retries: nat) -> IpDeviceView
        decreases retries,
    {
        match self.frame_for(p) {
            Some(f) => self.emit(p, f, t),
            None => match p {
                NetworkProtocolView::IP(ip) => if retries > 0 && self.ifaces.len() > 0 {
                    self.send_with(
                        NetworkProtocolView::IP(unreachable_message(self.ifaces[0].0, ip)),
                        t,
                        (retries - 1) as nat,
                    )
                } else {
                    self
                },
                NetworkProtocolView::ARP(_) => self,
            },
        }
    }

    /// The state after `p` was sent during the tick `t`.
    pub open spec fn send(self, p: NetworkProtocolView, t: usize) -> IpDeviceView {
        self.send_with(p, t, UNREACHABLE_RETRIES as nat)
    }

    /// The state after `mac` was entered for `ip` in the ARP table.
    pub open spec fn with_arp(self, ip: IpAddr, mac: Mac) -> IpDeviceView {
        IpDeviceView { arp: assoc_put(self.arp, ip, mac), ..self }
    }

    /// The state after `next` was entered for `nw` in the routing table.
    pub open spec fn with_route(self, nw: NetworkPart, next: IpAddr) -> IpDeviceView {
        IpDeviceView { routes: assoc_put(self.routes, nw, next), ..self }
    }

    /// What the device does with a received ARP packet: the new state and
    /// the packet to send, if any. A request for an own address is answered
    /// with the device's hardware address. A reply for an own address puts
    /// its sender in the ARP table. A packet for another address is dropped.
    /// An opcode other than request and reply is an error.
    pub open spec fn handle_arp(self, arp: ARP) -> Result<
        (IpDeviceView, Option<NetworkProtocolView>),
        ErrorView,
    > {
        if arp.opcode != ARP_REQUEST && arp.opcode != ARP_REPLY {
            Err(ErrorView::InvalidBytes { msg: "unsupported opcode"@ })
        } else if !self.is_for_me(arp.target_ipaddr) {
            Ok((self, None))
        } else if arp.opcode == ARP_REQUEST {
            Ok((self, Some(NetworkProtocolView::ARP(super::arp::spec_reply(arp, self.mac())))))
        } else {
            Ok((self.with_arp(arp.sender_ipaddr, arp.sender_mac), None))
        }
    }

    /// What the device does with a received datagram: the datagram to send,
    /// if any. For a datagram to an own address: a destination-unreachable
    /// message is an error that carries its code; any other ICMP message is
    /// dropped; bytes are answered as the handler of a host says, and are an
    /// error at a router. For a datagram to another address: a router sends
    /// bytes on unchanged; everything else is dropped.
    pub open spec fn handle_ip(self, ip: IPView, role: IpRole) -> Result<
        Option<NetworkProtocolView>,
        ErrorView,
    > {
        if self.is_for_me(ip.dst) {
            match ip.payload {
                IpPayloadView::ICMP { ty, code } => if ty == ICMP_UNREACHABLE {
                    Err(ErrorView::IpUnreashcable { code, msg: ""@ })
                } else {
                    Ok(None)
                },
                IpPayloadView::Bytes(xs) => match role {
                    IpRole::Host(handler) => match handler.spec_reply(xs) {
                        Some(bytes) => Ok(Some(NetworkProtocolView::IP(answer_datagram(ip, bytes)))),
                        None => Ok(None),
                    },
                    IpRole::Router => Err(
                        ErrorView::InvalidBytes { msg: "a router is no endpoint"@ },
                    ),
                },
            }
        } else {
            match ip.payload {
                IpPayloadView::ICMP { .. } => Ok(None),
                IpPayloadView::Bytes(_) => match role {
                    IpRole::Router => Ok(Some(NetworkProtocolView::IP(ip))),
                    IpRole::Host(_) => Ok(None),
                },
            }
        }
    }

    /// What the device does with a received datagram or packet.
    pub open spec fn handle(self, p: NetworkProtocolView, role: IpRole) -> Result<
        (IpDeviceView, Option<NetworkProtocolView>),
        ErrorView,
    > {
        match p {
            NetworkProtocolView::IP(ip) => match self.handle_ip(ip, role) {
                Ok(q) => Ok((self, q)),
                Err(e) => Err(e),
            },
            NetworkProtocolView::ARP(arp) => self.handle_arp(arp),
        }
    }

    /// The state after the oldest received frame was taken during the tick
    /// `t`, and what the frame held for this device.
    pub open spec fn take(self, t: usize) -> (
        IpDeviceView,
        Result<Option<NetworkProtocolView>, ErrorView>,
    ) {
        if self.eth.rbuf.len() == 0 {
            (self, Ok(None))
        } else {
            let s = IpDeviceView { eth: self.eth.drop_frame(), ..self };
            match ingress(self.mac(), self.eth.rbuf[0]) {
                Ok(Some(p)) => (s.log_recv(p, t), Ok(Some(p))),
                r => (s, r),
            }
        }
    }

    /// The state with the received bytes read into frames.
    pub open spec fn absorb(self, t: usize) -> IpDeviceView {
        IpDeviceView { eth: self.eth.absorb(t), ..self }
    }

    /// The state after at most `n` received frames were served during the
    /// tick `t`: each is taken in turn, what it holds is handled, and what
    /// the handling gives is sent. The first frame that holds nothing for
    /// this device ends the turn, and the first error ends it with that
    /// error.
    pub open spec fn serve(self, role: IpRole, t: usize, n: nat) -> Result<IpDeviceView, ErrorView>
        decreases n,
    {
        if n == 0 || self.eth.rbuf.len() == 0 {
            Ok(self)
        } else {
            match self.take(t) {
                (_, Err(e)) => Err(e),
                (s, Ok(None)) => Ok(s),
                (s, Ok(Some(p))) => match s.handle(p, role) {
                    Err(e) => Err(e),
                    Ok((s1, None)) => s1.serve(role, t, (n - 1) as nat),
                    Ok((s1, Some(q))) => s1.send(q, t).serve(role, t, (n - 1) as nat),
                },
            }
        }
    }

    /// The state after the received frames were served during the tick `t`.
    pub open spec fn serve_all(self, role: IpRole, t: usize) -> Result<IpDeviceView, ErrorView> {
        self.serve(role, t, self.eth.rbuf.len())
    }

    /// The forwarding table after the first `k` entries of the ARP table
    /// were entered in it: each hardware address whose IP address lies in
    /// the network of an interface is known behind the port of that
    /// interface.
    pub open spec fn refreshed_table(self, k: int) -> Map<u64, Port>
        decreases k,
    {
        if k <= 0 {
            self.eth.table
        } else {
            let table = self.refreshed_table(k - 1);
            let entry = self.arp[k - 1];
            match self.find_port(network_part(entry.0, self.subnet_mask)) {
                Some(port) => table.insert(entry.1.value, port),
                None => table,
            }
        }
    }

    /// The state after the forwarding table was brought up to date with the
    /// ARP table.
    pub open spec fn update_table(self) -> IpDeviceView {
        IpDeviceView {
            eth: EthernetDeviceView {
                table: self.refreshed_table(self.arp.len() as int),
                ..self.eth
            },
            ..self
        }
    }

    /// The state after the device ran for the tick `t`.
    pub open spec fn update(self, role: IpRole, t: usize) -> Result<IpDeviceView, ErrorView> {
        match self.absorb(t).serve_all(role, t) {
            Ok(s) => Ok(s.update_table()),
            Err(e) => Err(e),
        }
    }
}

/// The state of an IP device that has seen nothing yet.
pub open spec fn fresh_ip_device(
    mac: Mac,
    name: Seq<char>,
    addrs: Seq<IpAddr>,
    subnet_mask: SubnetMask,
) -> IpDeviceView {
    IpDeviceView {
        eth: fresh_framer(mac, name, addrs.len()),
        subnet_mask,
        ifaces: Seq::new(addrs.len(), |i: int| (addrs[i], Port { value: i as u32 })),
        routes: Seq::empty(),
        arp: Seq::empty(),
        slog: Seq::empty(),
        rlog: Seq::empty(),
    }
}

/// A frame whose destination is neither the device's own address nor the
/// broadcast address holds nothing for the device, whatever its type and
/// payload: it never reaches the handling of datagrams and packets.
pub proof fn lemma_foreign_frame_not_delivered(mac: Mac, f: EthernetFrameView)
    requires
        f.dst != mac,
        f.dst != spec_mac_broadcast(),
    ensures
        ingress(mac, f) == Ok::<Option<NetworkProtocolView>, ErrorView>(None),
{
}

/// Taking a frame that is not for this device logs nothing and hands
/// nothing on.
pub proof fn lemma_foreign_frame_not_logged(s: IpDeviceView, t: usize)
    requires
        s.eth.rbuf.len() > 0,
        s.eth.rbuf[0].dst != s.mac(),
        s.eth.rbuf[0].dst != spec_mac_broadcast(),
    ensures
        s.take(t).1 == Ok::<Option<NetworkProtocolView>, ErrorView>(None),
        s.take(t).0.rlog == s.rlog,
        s.take(t).0.slog == s.slog,
        s.take(t).0.arp == s.arp,
{
}

/// Sending keeps the state well formed and touches neither the tables nor
/// the queue of received frames.
pub proof fn lemma_send_with_keeps(s: IpDeviceView, p: NetworkProtocolView, t: usize, retries: nat)
    requires
        s.wf(),
    ensures
        s.send_with(p, t, retries).eth.rbuf == s.eth.rbuf,
        s.send_with(p, t, retries).eth.base.recv == s.eth.base.recv,
        s.send_with(p, t, retries).eth.base.mac == s.eth.base.mac,
        s.send_with(p, t, retries).eth.base.name == s.eth.base.name,
        s.send_with(p, t, retries).eth.base.num_ports == s.eth.base.num_ports,
        s.send_with(p, t, retries).ifaces == s.ifaces,
        s.send_with(p, t, retries).arp == s.arp,
        s.send_with(p, t, retries).routes == s.routes,
        s.send_with(p, t, retries).rlog == s.rlog,
        s.send_with(p, t, retries).subnet_mask == s.subnet_mask,
    decreases retries,
{
    match s.frame_for(p) {
        Some(f) => {},
        None => match p {
            NetworkProtocolView::IP(ip) => {
                if retries > 0 && s.ifaces.len() > 0 {
                    lemma_send_with_keeps(
                        s,
                        NetworkProtocolView::IP(unreachable_message(s.ifaces[0].0, ip)),
                        t,
                        (retries - 1) as nat,
                    );
                }
            },
            NetworkProtocolView::ARP(_) => {},
        },
    }
}

/// Sending keeps the state well formed.
pub proof fn lemma_send_with_wf(s: IpDeviceView, p: NetworkProtocolView, t: usize, retries: nat)
    requires
        s.wf(),
    ensures
        s.send_with(p, t, retries).wf(),
    decreases retries,
{
    match s.frame_for(p) {
        Some(f) => {
            lemma_push_frame_wf(s.eth, f, t);
        },
        None => match p {
            NetworkProtocolView::IP(ip) => {
                if retries > 0 && s.ifaces.len() > 0 {
                    lemma_send_with_wf(
                        s,
                        NetworkProtocolView::IP(unreachable_message(s.ifaces[0].0, ip)),
                        t,
                        (retries - 1) as nat,
                    );
                }
            },
            NetworkProtocolView::ARP(_) => {},
        },
    }
}

/// Serving received frames keeps the state well formed and the identity of
/// the device unchanged.
pub proof fn lemma_serve_wf(s: IpDeviceView, role: IpRole, t: usize, n: nat)
    requires
        s.wf(),
    ensures
        s.serve(role, t, n) matches Ok(s1) ==> s1.wf() && s1.eth.base.mac == s.eth.base.mac
            && s1.eth.base.name == s.eth.base.name && s1.eth.base.num_ports == s.eth.base.num_ports,
    decreases n,
{
    if n == 0 || s.eth.rbuf.len() == 0 {
    } else {
        match s.take(t) {
            (_, Err(e)) => {},
            (s0, Ok(None)) => {},
            (s0, Ok(Some(p))) => match s0.handle(p, role) {
                Err(e) => {},
                Ok((s1, None)) => {
                    lemma_serve_wf(s1, role, t, (n - 1) as nat);
                },
                Ok((s1, Some(q))) => {
                    lemma_send_with_wf(s1, q, t, UNREACHABLE_RETRIES as nat);
                    lemma_send_with_keeps(s1, q, t, UNREACHABLE_RETRIES as nat);
                    lemma_serve_wf(s1.send(q, t), role, t, (n - 1) as nat);
                },
            },
        }
    }
}

/// Every port that the refreshed forwarding table names is a port of the
/// device.
pub proof fn lemma_refreshed_table_ports(s: IpDeviceView, k: int)
    requires
        s.wf(),
        0 <= k <= s.arp.len(),
    ensures
        forall|m: u64| #[trigger]
            s.refreshed_table(k).contains_key(m) ==> s.refreshed_table(k)[m].value
                < s.eth.base.num_ports,
    decreases k,
{
    if k > 0 {
        lemma_refreshed_table_ports(s, k - 1);
        let table = s.refreshed_table(k - 1);
        let entry = s.arp[k - 1];
        let nw = network_part(entry.0, s.subnet_mask);
        lemma_found_port_is_own(s.ifaces, s.subnet_mask, nw, s.ifaces.len() as int);
        match s.find_port(nw) {
            Some(port) => {
                assert forall|m: u64| #[trigger]
                    s.refreshed_table(k).contains_key(m) implies s.refreshed_table(k)[m].value
                    < s.eth.base.num_ports by {
                    if m != entry.1.value {
                        assert(table.contains_key(m));
                    }
                }
            },
            None => {},
        }
    }
}

/// A tick keeps the state well formed and the identity of the device
/// unchanged.
pub proof fn lemma_update_wf(s: IpDeviceView, role: IpRole, t: usize)
    requires
        s.wf(),
    ensures
        s.update(role, t) matches Ok(s1) ==> s1.wf() && s1.eth.base.mac == s.eth.base.mac
            && s1.eth.base.name == s.eth.base.name && s1.eth.base.num_ports == s.eth.base.num_ports,
{
    lemma_absorb_wf(s.eth, t);
    let s0 = s.absorb(t);
    lemma_serve_wf(s0, role, t, s0.eth.rbuf.len());
    match s0.serve_all(role, t) {
        Ok(s1) => {
            lemma_refreshed_table_ports(s1, s1.arp.len() as int);
        },
        Err(_) => {},
    }
}

/// A device at the network layer.
pub struct BaseIpDevice {
    base: BaseEthernetDevice,
    subnet_mask: SubnetMask,
    ip_addr_ports: Vec<(IpAddr, Port)>,
    routing_table: Vec<(NetworkPart, IpAddr)>,
    arp_table: Vec<(IpAddr, Mac)>,
    slog: Vec<NetworkLog>,
    rlog: Vec<NetworkLog>,
}

impl View for BaseIpDevice {
    type V = IpDeviceView;

    closed spec fn view(&self) -> IpDeviceView {
        IpDeviceView {
            eth: self.base@,
            subnet_mask: self.subnet_mask,
            ifaces: self.ip_addr_ports@,
            routes: self.routing_table@,
            arp: self.arp_table@,
            slog: network_logs_view(self.slog@),
            rlog: network_logs_view(self.rlog@),
        }
    }
}

impl BaseIpDevice {
    /// A device with one interface for each address of `ip_addr_list`, on
    /// the ports 0, 1, 2 and so on.
    pub fn new(mac: Mac, name: &str, ip_addr_list: Vec<IpAddr>, subnet_mask: SubnetMask) -> (d:
        BaseIpDevice)
        requires
            ip_addr_list@.len() <= u32::MAX,
        ensures
            d@.wf(),
            d@ == fresh_ip_device(mac, name@, ip_addr_list@, subnet_mask),
    {
        let mut ip_addr_ports: Vec<(IpAddr, Port)> = Vec::new();
        let mut i: usize = 0;
        while i < ip_addr_list.len()
            invariant
                i <= ip_addr_list.len(),
                ip_addr_list@.len() <= u32::MAX,
                ip_addr_ports@.len() == i,
                forall|j: int|
                    0 <= j < i ==> (#[trigger] ip_addr_ports@[j]) == (
                        ip_addr_list@[j],
                        Port { value: j as u32 },
                    ),
            decreases ip_addr_list.len() - i,
        {
            ip_addr_ports.push((ip_addr_list[i], Port::new(i as u32)));
            i = i + 1;
        }
        let base = BaseEthernetDevice::new(mac, name, ip_addr_ports.len());
        let d = BaseIpDevice {
            base,
            subnet_mask,
            ip_addr_ports,
            routing_table: Vec::new(),
            arp_table: Vec::new(),
            slog: Vec::new(),
            rlog: Vec::new(),
        };
        proof {
            let want = fresh_ip_device(mac, name@, ip_addr_list@, subnet_mask);
            assert(d@.ifaces =~= want.ifaces);
            assert(d@.slog =~= want.slog);
            assert(d@.rlog =~= want.rlog);
        }
        d
    }

    pub fn get_mac(&self) -> (mac: Mac)
        ensures
            mac == self@.mac(),
    {
        self.base.get_mac()
    }

    pub fn get_name(&self) -> (name: &str)
        ensures
            name@ == self@.eth.base.name,
    {
        self.base.get_name()
    }

    pub fn get_num_ports(&self) -> (n: usize)
        ensures
            n == self@.eth.base.num_ports,
    {
        self.base.get_num_ports()
    }

    /// The number of frames that were received and not yet taken.
    pub fn get_rbuf_len(&self) -> (n: usize)
        ensures
            n == self@.eth.rbuf.len(),
    {
        self.base.get_rbuf_len()
    }

    /// Delivers the byte `x` at `port`.
    pub fn push_recv(&mut self, port: Port, x: u8)
        requires
            old(self)@.wf(),
            port.value < old(self)@.eth.base.num_ports,
        ensures
            final(self)@.wf(),
            final(self)@ == (IpDeviceView {
                eth: EthernetDeviceView {
                    base: old(self)@.eth.base.push_recv(port, x),
                    ..old(self)@.eth
                },
                ..old(self)@
            }),
    {
        self.base.push_recv(port, x);
    }

    /// Takes the next byte for the wire.
    pub fn pop_send(&mut self) -> (r: Option<(Port, u8)>)
        requires
            old(self)@.wf(),
        ensures
            final(self)@.wf(),
            old(self)@.eth.base.send.len() == 0 ==> r.is_none() && final(self)@ == old(self)@,
            old(self)@.eth.base.send.len() > 0 ==> r == Some(old(self)@.eth.base.send[0]) && final(self)@ == (IpDeviceView {
                eth: EthernetDeviceView {
                    base: old(self)@.eth.base.drop_send(),
                    ..old(self)@.eth
                },
                ..old(self)@
            }),
            r matches Some(x) ==> x.0.value < old(self)@.eth.base.num_ports,
    {
        self.base.pop_send()
    }

    /// Whether `ip_addr` is one of the device's own addresses.
    pub fn is_for_me(&self, ip_addr: &IpAddr) -> (b: bool)
        ensures
            b == self@.is_for_me(*ip_addr),
    {
        let mut i: usize = 0;
        while i < self.ip_addr_ports.len()
            invariant
                i <= self.ip_addr_ports.len(),
                forall|j: int| 0 <= j < i ==> (#[trigger] self.ip_addr_ports@[j]).0 != *ip_addr,
            decreases self.ip_addr_ports.len() - i,
        {
            if self.ip_addr_ports[i].0 == *ip_addr {
                return true;
            }
            i = i + 1;
        }
        false
    }

    /// The port of the first interface that lies in the network `nw_part`.
    pub fn find_port(&self, nw_part: &NetworkPart) -> (r: Option<Port>)
        ensures
            r == self@.find_port(*nw_part),
    {
        let mut i: usize = 0;
        while i < self.ip_addr_ports.len()
            invariant
                i <= self.ip_addr_ports.len(),
                port_in_network(self@.ifaces, self@.subnet_mask, *nw_part, i as int).is_none(),
            decreases self.ip_addr_ports.len() - i,
        {
            if NetworkPart::new(self.ip_addr_ports[i].0, self.subnet_mask) == *nw_part {
                proof {
                    lemma_port_found(
                        self@.ifaces,
                        self@.subnet_mask,
                        *nw_part,
                        i as int + 1,
                        self@.ifaces.len() as int,
                    );
                }
                return Some(self.ip_addr_ports[i].1);
            }
            i = i + 1;
        }
        None
    }

    /// The address of the interface at `port`.
    pub fn get_ip_addr(&self, port: Port) -> (r: Option<IpAddr>)
        ensures
            r == address_of_port(self@.ifaces, port, self@.ifaces.len() as int),
    {
        let mut i: usize = 0;
        while i < self.ip_addr_ports.len()
            invariant
                i <= self.ip_addr_ports.len(),
                address_of_port(self@.ifaces, port, i as int).is_none(),
            decreases self.ip_addr_ports.len() - i,
        {
            if self.ip_addr_ports[i].1 == port {
                proof {
                    lemma_address_found(
                        self@.ifaces,
                        port,
                        i as int + 1,
                        self@.ifaces.len() as int,
                    );
                }
                return Some(self.ip_addr_ports[i].0);
            }
            i = i + 1;
        }
        None
    }

    /// The ARP table: each IP address with its hardware address, in the
    /// order in which the addresses were first entered.
    pub fn get_arp_table(&self) -> (table: &Vec<(IpAddr, Mac)>)
        ensures
            table@ == self@.arp,
    {
        &self.arp_table
    }

    /// Enters `mac` for `ip_addr` in the ARP table.
    pub fn add_arp_entry(&mut self, ip_addr: IpAddr, mac: Mac) -> (r: Res<()>)
        ensures
            r is Ok,
            final(self)@ == old(self)@.with_arp(ip_addr, mac),
            old(self)@.wf() ==> final(self)@.wf(),
    {
        arp_put(&mut self.arp_table, ip_addr, mac);
        Ok(())
    }

    /// Enters the next hop `ip_addr` for the network `nw_part` in the
    /// routing table.
    pub fn add_route_entry(&mut self, nw_part: NetworkPart, ip_addr: IpAddr) -> (r: Res<()>)
        ensures
            r is Ok,
            final(self)@ == old(self)@.with_route(nw_part, ip_addr),
            old(self)@.wf() ==> final(self)@.wf(),
    {
        route_put(&mut self.routing_table, nw_part, ip_addr);
        Ok(())
    }

    /// Every datagram and packet received so far.
    pub fn get_rlog(&self) -> (logs: &Vec<NetworkLog>)
        ensures
            network_logs_view(logs@) == self@.rlog,
    {
        &self.rlog
    }

    /// Every datagram and packet sent so far.
    pub fn get_slog(&self) -> (logs: &Vec<NetworkLog>)
        ensures
            network_logs_view(logs@) == self@.slog,
    {
        &self.slog
    }

    /// The hardware address of the next hop towards `ip_addr`.
    pub fn find_next_mac(&self, ip_addr: IpAddr) -> (r: Res<Mac>)
        ensures
            match self@.find_next_mac(ip_addr) {
                Some(mac) => r == Ok::<Mac, Error>(mac),
                None => r matches Err(e) && e@ == ErrorView::MacNotFailed,
            },
    {
        let nw_part = NetworkPart::new(ip_addr, self.subnet_mask);
        let next: Option<IpAddr> = match self.find_port(&nw_part) {
            Some(_port) => Some(ip_addr),
            None => route_find(&self.routing_table, nw_part),
        };
        match next {
            Some(hop) => match arp_find(&self.arp_table, hop) {
                Some(mac) => Ok(mac),
                None => Err(Error::MacNotFailed),
            },
            None => Err(Error::MacNotFailed),
        }
    }

    /// What `frame` holds for this device.
    pub fn decode(&self, frame: &EthernetFrame) -> (r: Res<Option<NetworkProtocol>>)
        ensures
            match ingress(self@.mac(), frame@) {
                Ok(Some(p)) => r matches Ok(Some(got)) && got@ == p,
                Ok(None) => r matches Ok(None),
                Err(e) => r matches Err(got) && got@ == e,
            },
    {
        if frame.dst.value != self.base.get_mac().value && !frame.is_bloadcast() {
            return Ok(None);
        }
        if frame.ethertype == ETHERTYPE_IPV4 {
            match IP::decode(&frame.payload) {
                Ok(ip) => Ok(Some(NetworkProtocol::IP(ip))),
                Err(e) => Err(e),
            }
        } else if frame.ethertype == ETHERTYPE_ARP {
            match ARP::decode(&frame.payload) {
                Ok(arp) => Ok(Some(NetworkProtocol::ARP(arp))),
                Err(e) => Err(e),
            }
        } else {
            Err(invalid_bytes("neither IPv4 nor ARP"))
        }
    }

    /// The frame that carries `p` to its next hop.
    pub fn encode(&self, p: &NetworkProtocol) -> (r: Res<EthernetFrame>)
        ensures
            match self@.frame_for(p@) {
                Some(f) => r matches Ok(got) && got@ == f,
                None => r matches Err(e) && e@ == ErrorView::MacNotFailed,
            },
    {
        let src_mac = self.base.get_mac();
        match p {
            NetworkProtocol::IP(ip) => {
                match self.find_next_mac(ip.dst) {
                    Ok(dst_mac) => Ok(
                        EthernetFrame::new(dst_mac, src_mac, ETHERTYPE_IPV4, p.encode()),
                    ),
                    Err(e) => Err(e),
                }
            },
            NetworkProtocol::ARP(arp) => {
                let dst_mac = if arp.opcode == ARP_REQUEST {
                    mac_broadcast()
                } else {
                    arp.target_mac
                };
                Ok(EthernetFrame::new(dst_mac, src_mac, ETHERTYPE_ARP, p.encode()))
            },
        }
    }

    /// Handles a received ARP packet and gives the packet to send, if any.
    pub fn handle_arp(&mut self, arp: &ARP) -> (r: Res<Option<NetworkProtocol>>)
        requires
            old(self)@.wf(),
        ensures
            final(self)@.wf(),
            match old(self)@.handle_arp(*arp) {
                Ok((s, Some(q))) => final(self)@ == s && (r matches Ok(Some(got)) && got@ == q),
                Ok((s, None)) => final(self)@ == s && r matches Ok(None),
                Err(e) => final(self)@ == old(self)@ && (r matches Err(got) && got@ == e),
            },
    {
        if arp.opcode != ARP_REQUEST && arp.opcode != ARP_REPLY {
            return Err(invalid_bytes("unsupported opcode"));
        }
        if !self.is_for_me(&arp.target_ipaddr) {
            return Ok(None);
        }
        if arp.opcode == ARP_REQUEST {
            Ok(Some(NetworkProtocol::ARP(arp.reply(self.base.get_mac()))))
        } else {
            arp_put(&mut self.arp_table, arp.sender_ipaddr, arp.sender_mac);
            Ok(None)
        }
    }

    /// Handles a received datagram and gives the datagram to send, if any.
    pub fn handle_ip(&self, ip: &IP, role: IpRole) -> (r: Res<Option<NetworkProtocol>>)
        ensures
            match self@.handle_ip(ip@, role) {
                Ok(Some(q)) => r matches Ok(Some(got)) && got@ == q,
                Ok(None) => r matches Ok(None),
                Err(e) => r matches Err(got) && got@ == e,
            },
    {
        if self.is_for_me(&ip.dst) {
            match &ip.payload {
                IpPayload::ICMP { ty, code } => {
                    if *ty == ICMP_UNREACHABLE {
                        Err(Error::IpUnreashcable { code: *code, msg: "".to_string() })
                    } else {
                        Ok(None)
                    }
                },
                IpPayload::Bytes(xs) => match role {
                    IpRole::Host(handler) => match handler.reply(xs) {
                        Some(bytes) => Ok(
                            Some(NetworkProtocol::IP(IP::new_byte(ip.dst, ip.src, bytes))),
                        ),
                        None => Ok(None),
                    },
                    IpRole::Router => Err(invalid_bytes("a router is no endpoint")),
                },
            }
        } else {
            match &ip.payload {
                IpPayload::ICMP { ty: _, code: _ } => Ok(None),
                IpPayload::Bytes(_) => match role {
                    IpRole::Router => Ok(Some(NetworkProtocol::IP(ip.clone()))),
                    IpRole::Host(_) => Ok(None),
                },
            }
        }
    }

    /// Handles a received datagram or packet and gives what to send, if
    /// anything.
    pub fn handle(&mut self, p: &NetworkProtocol, role: IpRole) -> (r: Res<Option<NetworkProtocol>>)
        requires
            old(self)@.wf(),
        ensures
            final(self)@.wf(),
            match old(self)@.handle(p@, role) {
                Ok((s, Some(q))) => final(self)@ == s && (r matches Ok(Some(got)) && got@ == q),
                Ok((s, None)) => final(self)@ == s && r matches Ok(None),
                Err(e) => final(self)@ == old(self)@ && (r matches Err(got) && got@ == e),
            },
    {
        match p {
            NetworkProtocol::IP(ip) => self.handle_ip(ip, role),
            NetworkProtocol::ARP(arp) => self.handle_arp(arp),
        }
    }

    fn add_slog(&mut self, p: &NetworkProtocol, ctx: &UpdateContext)
        ensures
            final(self)@ == (IpDeviceView {
                slog: old(self)@.slog.push(NetworkLogView { t: ctx.t, p: p@ }),
                ..old(self)@
            }),
    {
        self.slog.push(NetworkLog { t: ctx.t, p: p.clone() });
        proof {
            assert(network_logs_view(self.slog@) =~= network_logs_view(old(self).slog@).push(
                NetworkLogView { t: ctx.t, p: p@ },
            ));
        }
    }

    fn add_rlog(&mut self, p: &NetworkProtocol, ctx: &UpdateContext)
        ensures
            final(self)@ == old(self)@.log_recv(p@, ctx.t),
    {
        self.rlog.push(NetworkLog { t: ctx.t, p: p.clone() });
        proof {
            assert(network_logs_view(self.rlog@) =~= network_logs_view(old(self).rlog@).push(
                NetworkLogView { t: ctx.t, p: p@ },
            ));
        }
    }

    /// Reads the received bytes into frames.
    pub fn absorb(&mut self, ctx: &UpdateContext)
        requires
            old(self)@.wf(),
        ensures
            final(self)@.wf(),
            final(self)@ == old(self)@.absorb(ctx.t),
            final(self)@.eth.base == old(self)@.eth.base.clear_recv(),
    {
        self.base.absorb(ctx);
    }

    /// Takes the oldest received frame and gives what it holds for this
    /// device, after logging it.
    pub fn take(&mut self, ctx: &UpdateContext) -> (r: Res<Option<NetworkProtocol>>)
        requires
            old(self)@.wf(),
        ensures
            final(self)@.wf(),
            final(self)@ == old(self)@.take(ctx.t).0,
            match old(self)@.take(ctx.t).1 {
                Ok(Some(p)) => r matches Ok(Some(got)) && got@ == p,
                Ok(None) => r matches Ok(None),
                Err(e) => r matches Err(got) && got@ == e,
            },
    {
        match self.base.pop_frame() {
            None => Ok(None),
            Some(frame) => {
                match self.decode(&frame) {
                    Ok(Some(p)) => {
                        self.add_rlog(&p, ctx);
                        Ok(Some(p))
                    },
                    Ok(None) => Ok(None),
                    Err(e) => Err(e),
                }
            },
        }
    }

    /// Reads the received bytes, takes the oldest received frame and gives
    /// what it holds for this device.
    pub fn recv(&mut self, ctx: &UpdateContext) -> (r: Res<Option<NetworkProtocol>>)
        requires
            old(self)@.wf(),
        ensures
            final(self)@.wf(),
            final(self)@ == old(self)@.absorb(ctx.t).take(ctx.t).0,
            match old(self)@.absorb(ctx.t).take(ctx.t).1 {
                Ok(Some(p)) => r matches Ok(Some(got)) && got@ == p,
                Ok(None) => r matches Ok(None),
                Err(e) => r matches Err(got) && got@ == e,
            },
    {
        self.absorb(ctx);
        self.take(ctx)
    }

    /// The destination-unreachable message for the source of `ip`, if the
    /// device has an interface to send it from.
    pub fn unreachable(&self, ip: &IP) -> (r: Option<IP>)
        ensures
            self@.ifaces.len() == 0 ==> r.is_none(),
            self@.ifaces.len() > 0 ==> (r matches Some(notice) && notice@ == unreachable_message(
                self@.ifaces[0].0,
                ip@,
            )),
    {
        if self.ip_addr_ports.len() == 0 {
            None
        } else {
            Some(
                IP::new_icmp(
                    self.ip_addr_ports[0].0,
                    ip.src,
                    ICMP_UNREACHABLE,
                    ICMP_HOST_UNREACHABLE,
                ),
            )
        }
    }

    fn send_with(&mut self, p: NetworkProtocol, ctx: &UpdateContext, retries: u8)
        requires
            old(self)@.wf(),
        ensures
            final(self)@.wf(),
            final(self)@ == old(self)@.send_with(p@, ctx.t, retries as nat),
            final(self)@.eth.base.mac == old(self)@.eth.base.mac,
            final(self)@.eth.base.name == old(self)@.eth.base.name,
            final(self)@.eth.base.num_ports == old(self)@.eth.base.num_ports,
            final(self)@.eth.rbuf == old(self)@.eth.rbuf,
        decreases retries,
    {
        proof {
            lemma_send_with_keeps(old(self)@, p@, ctx.t, retries as nat);
        }
        match self.encode(&p) {
            Ok(frame) => {
                self.add_slog(&p, ctx);
                self.base.push_sbuf(frame, ctx);
            },
            Err(_) => {
                match p {
                    NetworkProtocol::IP(ip) => {
                        if retries > 0 {
                            match self.unreachable(&ip) {
                                Some(notice) => {
                                    self.send_with(NetworkProtocol::IP(notice), ctx, retries - 1);
                                },
                                None => {},
                            }
                        }
                    },
                    NetworkProtocol::ARP(_) => {},
                }
            },
        }
    }

    /// Sends `p` to its next hop, or a destination-unreachable message to
    /// its source if it has no next hop.
    pub fn send(&mut self, p: NetworkProtocol, ctx: &UpdateContext) -> (r: Res<()>)
        requires
            old(self)@.wf(),
        ensures
            r is Ok,
            final(self)@.wf(),
            final(self)@ == old(self)@.send(p@, ctx.t),
            final(self)@.eth.base.mac == old(self)@.eth.base.mac,
            final(self)@.eth.base.name == old(self)@.eth.base.name,
            final(self)@.eth.base.num_ports == old(self)@.eth.base.num_ports,
    {
        self.send_with(p, ctx, UNREACHABLE_RETRIES);
        Ok(())
    }

    /// Brings the forwarding table up to date with the ARP table.
    pub fn update_table(&mut self) -> (r: Res<()>)
        requires
            old(self)@.wf(),
        ensures
            r is Ok,
            final(self)@.wf(),
            final(self)@ == old(self)@.update_table(),
    {
        let mut i: usize = 0;
        while i < self.arp_table.len()
            invariant
                i <= self.arp_table.len(),
                self@.wf(),
                self@ == (IpDeviceView {
                    eth: EthernetDeviceView {
                        table: old(self)@.refreshed_table(i as int),
                        ..old(self)@.eth
                    },
                    ..old(self)@
                }),
            decreases self.arp_table.len() - i,
        {
            let (ip_addr, mac) = self.arp_table[i];
            let nw_part = NetworkPart::new(ip_addr, self.subnet_mask);
            match self.find_port(&nw_part) {
                Some(port) => {
                    proof {
                        lemma_found_port_is_own(
                            self@.ifaces,
                            self@.subnet_mask,
                            nw_part,
                            self@.ifaces.len() as int,
                        );
                    }
                    self.base.add_forwarding_table(mac, port);
                },
                None => {},
            }
            i = i + 1;
        }
        Ok(())
    }

    /// Serves every received frame in turn, up to the first that holds
    /// nothing for this device.
    pub fn serve_all(&mut self, role: IpRole, ctx: &UpdateContext) -> (r: Res<()>)
        requires
            old(self)@.wf(),
        ensures
            final(self)@.wf(),
            final(self)@.eth.base.mac == old(self)@.eth.base.mac,
            final(self)@.eth.base.name == old(self)@.eth.base.name,
            final(self)@.eth.base.num_ports == old(self)@.eth.base.num_ports,
            match old(self)@.serve_all(role, ctx.t) {
                Ok(s) => r is Ok && final(self)@ == s,
                Err(e) => r matches Err(got) && got@ == e,
            },
    {
        loop
            invariant
                self@.wf(),
                self@.serve_all(role, ctx.t) == old(self)@.serve_all(role, ctx.t),
                self@.eth.rbuf.len() <= old(self)@.eth.rbuf.len(),
                self@.eth.base.mac == old(self)@.eth.base.mac,
                self@.eth.base.name == old(self)@.eth.base.name,
                self@.eth.base.num_ports == old(self)@.eth.base.num_ports,
            decreases self@.eth.rbuf.len(),
        {
            let ghost before = self@;
            if self.base.get_rbuf_len() == 0 {
                return Ok(());
            }
            let p = match self.take(ctx) {
                Ok(Some(p)) => p,
                Ok(None) => {
                    return Ok(());
                },
                Err(e) => {
                    return Err(e);
                },
            };
            let ghost taken = self@;
            let q = match self.handle(&p, role) {
                Ok(q) => q,
                Err(e) => {
                    return Err(e);
                },
            };
            match q {
                Some(q) => {
                    self.send_with(q, ctx, UNREACHABLE_RETRIES);
                },
                None => {},
            }
        }
    }

    /// Runs the device for one tick: reads the received bytes, serves the
    /// frames and brings the forwarding table up to date.
    pub fn base_update(&mut self, role: IpRole, ctx: &UpdateContext) -> (r: Res<()>)
        requires
            old(self)@.wf(),
        ensures
            final(self)@.wf(),
            final(self)@.eth.base.mac == old(self)@.eth.base.mac,
            final(self)@.eth.base.name == old(self)@.eth.base.name,
            final(self)@.eth.base.num_ports == old(self)@.eth.base.num_ports,
            match old(self)@.update(role, ctx.t) {
                Ok(s) => r is Ok && final(self)@ == s,
                Err(e) => r matches Err(got) && got@ == e,
            },
    {
        self.absorb(ctx);
        match self.serve_all(role, ctx) {
            Ok(()) => self.update_table(),
            Err(e) => Err(e),
        }
    }
}

/// Once an interface in the network was found among the first `k`, the
/// result stays with more interfaces.
proof fn lemma_port_found(ifaces: Seq<(IpAddr, Port)>, mask: SubnetMask, nw: NetworkPart, k: int, m: int)
    requires
        0 <= k <= m,
        port_in_network(ifaces, mask, nw, k) is Some,
    ensures
        port_in_network(ifaces, mask, nw, m) == port_in_network(ifaces, mask, nw, k),
    decreases m - k,
{
    if k < m {
        lemma_port_found(ifaces, mask, nw, k, m - 1);
    }
}

/// Once an interface with the port was found among the first `k`, the
/// result stays with more interfaces.
proof fn lemma_address_found(ifaces: Seq<(IpAddr, Port)>, port: Port, k: int, m: int)
    requires
        0 <= k <= m,
        address_of_port(ifaces, port, k) is Some,
    ensures
        address_of_port(ifaces, port, m) == address_of_port(ifaces, port, k),
    decreases m - k,
{
    if k < m {
        lemma_address_found(ifaces, port, k, m - 1);
    }
}

/// The port found for a network is that of the first interface in the
/// network, and none is found only if no interface lies in it.
pub proof fn lemma_port_in_network_first(
    ifaces: Seq<(IpAddr, Port)>,
    mask: SubnetMask,
    nw: NetworkPart,
    k: int,
)
    requires
        0 <= k <= ifaces.len(),
    ensures
        match port_in_network(ifaces, mask, nw, k) {
            Some(p) => exists|i: int|
                0 <= i < k && network_part((#[trigger] ifaces[i]).0, mask) == nw && ifaces[i].1 == p
                    && forall|j: int|
                    0 <= j < i ==> network_part((#[trigger] ifaces[j]).0, mask) != nw,
            None => forall|j: int| 0 <= j < k ==> network_part((#[trigger] ifaces[j]).0, mask) != nw,
        },
    decreases k,
{
    if k > 0 {
        lemma_port_in_network_first(ifaces, mask, nw, k - 1);
        if port_in_network(ifaces, mask, nw, k - 1) is None && network_part(ifaces[k - 1].0, mask)
            == nw {
            assert(ifaces[k - 1].1 == port_in_network(ifaces, mask, nw, k)->Some_0);
        }
    }
}

/// A port that was found for a network is the port of one of the
/// interfaces.
pub proof fn lemma_found_port_is_own(
    ifaces: Seq<(IpAddr, Port)>,
    mask: SubnetMask,
    nw: NetworkPart,
    k: int,
)
    requires
        0 <= k <= ifaces.len(),
    ensures
        port_in_network(ifaces, mask, nw, k) matches Some(p) ==> exists|i: int|
            0 <= i < k && (#[trigger] ifaces[i]).1 == p,
    decreases k,
{
    if k > 0 {
        lemma_found_port_is_own(ifaces, mask, nw, k - 1);
    }
}

/// What every device with an IP layer offers: datagrams and packets in
/// and out, and the tables that sending goes by.
pub trait IpDevice {
    /// The state of the IP layer of the device.
    spec fn ip_view(&self) -> IpDeviceView;

    /// Sends `p` to its next hop, or a destination-unreachable message to
    /// its source if it has no next hop.
    fn send(&mut self, p: NetworkProtocol, ctx: &UpdateContext) -> (r: Res<()>)
        requires
            old(self).ip_view().wf(),
        ensures
            r is Ok,
            final(self).ip_view().wf(),
            final(self).ip_view() == old(self).ip_view().send(p@, ctx.t),
    ;

    /// Reads the received bytes, takes the oldest received frame and gives
    /// what it holds for this device.
    fn recv(&mut self, ctx: &UpdateContext) -> (r: Res<Option<NetworkProtocol>>)
        requires
            old(self).ip_view().wf(),
        ensures
            final(self).ip_view().wf(),
            final(self).ip_view() == old(self).ip_view().absorb(ctx.t).take(ctx.t).0,
            match old(self).ip_view().absorb(ctx.t).take(ctx.t).1 {
                Ok(Some(p)) => r matches Ok(Some(got)) && got@ == p,
                Ok(None) => r matches Ok(None),
                Err(e) => r matches Err(got) && got@ == e,
            },
    ;

    /// Handles a received ARP packet and gives the packet to send, if any.
    fn base_handle_arp(&mut self, arp: &ARP) -> (r: Res<Option<NetworkProtocol>>)
        requires
            old(self).ip_view().wf(),
        ensures
            final(self).ip_view().wf(),
            match old(self).ip_view().handle_arp(*arp) {
                Ok((s, Some(q))) => final(self).ip_view() == s && (r matches Ok(Some(got)) && got@
                    == q),
                Ok((s, None)) => final(self).ip_view() == s && r matches Ok(None),
                Err(e) => final(self).ip_view() == old(self).ip_view() && (r matches Err(got)
                    && got@ == e),
            },
    ;

    /// Enters `mac` for `ip_addr` in the ARP table.
    fn add_arp_entry(&mut self, ip_addr: IpAddr, mac: Mac) -> (r: Res<()>)
        ensures
            r is Ok,
            final(self).ip_view() == old(self).ip_view().with_arp(ip_addr, mac),
    ;

    /// Enters the next hop `ip_addr` for the network `nw_part` in the
    /// routing table.
    fn add_route_entry(&mut self, nw_part: NetworkPart, ip_addr: IpAddr) -> (r: Res<()>)
        ensures
            r is Ok,
            final(self).ip_view() == old(self).ip_view().with_route(nw_part, ip_addr),
    ;

    /// The address of the interface at `port`.
    fn get_ip_addr(&self, port: Port) -> (r: Option<IpAddr>)
        ensures
            r == address_of_port(self.ip_view().ifaces, port, self.ip_view().ifaces.len() as int),
    ;

    /// The ARP table: each IP address with its hardware address.
    fn get_arp_table(&self) -> (table: &Vec<(IpAddr, Mac)>)
        ensures
            table@ == self.ip_view().arp,
    ;

    /// Every datagram and packet received so far.
    fn get_rlog(&self) -> (logs: &Vec<NetworkLog>)
        ensures
            network_logs_view(logs@) == self.ip_view().rlog,
    ;
}

impl IpDevice for BaseIpDevice {
    open spec fn ip_view(&self) -> IpDeviceView {
        self@
    }

    fn send(&mut self, p: NetworkProtocol, ctx: &UpdateContext) -> (r: Res<()>) {
        BaseIpDevice::send(self, p, ctx)
    }

    fn recv(&mut self, ctx: &UpdateContext) -> (r: Res<Option<NetworkProtocol>>) {
        BaseIpDevice::recv(self, ctx)
    }

    fn base_handle_arp(&mut self, arp: &ARP) -> (r: Res<Option<NetworkProtocol>>) {
        BaseIpDevice::handle_arp(self, arp)
    }

    fn add_arp_entry(&mut self, ip_addr: IpAddr, mac: Mac) -> (r: Res<()>) {
        BaseIpDevice::add_arp_entry(self, ip_addr, mac)
    }

    fn add_route_entry(&mut self, nw_part: NetworkPart, ip_addr: IpAddr) -> (r: Res<()>) {
        BaseIpDevice::add_route_entry(self, nw_part, ip_addr)
    }

    fn get_ip_addr(&self, port: Port) -> (r: Option<IpAddr>) {
        BaseIpDevice::get_ip_addr(self, port)
    }

    fn get_arp_table(&self) -> (table: &Vec<(IpAddr, Mac)>) {
        BaseIpDevice::get_arp_table(self)
    }

    fn get_rlog(&self) -> (logs: &Vec<NetworkLog>) {
        BaseIpDevice::get_rlog(self)
    }
}

} // verus!
