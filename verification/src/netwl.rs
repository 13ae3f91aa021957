//! The network layer: addresses, the IPv4 and ARP formats, and the devices
//! that route datagrams.
use vstd::prelude::*;
use crate::linkl::sample_switch;
use crate::linkl::ethernet_switch::EthernetSwitch;
use crate::physl::device::Device;
use crate::physl::network::{Connection, Network, NetworkView, linked, nodes_view};
use crate::physl::node::{Node, NodeView};
use crate::physl::{link, spec_link};
use crate::types::{ErrorView, Mac, Res};
use self::ip::{IpPayloadView, spec_new};
use self::ip_addr::{mask_of, network_part};
use self::ip_device::{IpDeviceView, IpHandler, fresh_ip_device};
use self::ip_host::IpHostView;
use self::network_protocol::NetworkProtocolView;
pub use self::network_protocol::NetworkProtocol;

pub mod ip_addr;
pub mod ip;
pub mod arp;
pub mod network_protocol;
pub mod table;
pub mod ip_device;
pub mod ip_host;
pub mod router;

pub use arp::ARP;
pub use ip::{IP, IpPayload};
pub use ip_addr::{IpAddr, NetworkPart, SubnetMask};
pub use ip_device::{BaseIpDevice, IpDevice};
pub use ip_host::IpHost;
pub use router::Router;

verus! {

/// A datagram or packet with the tick at which a device saw it, sent it or
/// is to send it.
#[derive(Debug)]
pub struct NetworkLog {
    pub t: usize,
    pub p: NetworkProtocol,
}

pub struct NetworkLogView {
    pub t: usize,
    pub p: NetworkProtocolView,
}

impl View for NetworkLog {
    type V = NetworkLogView;

    open spec fn view(&self) -> NetworkLogView {
        NetworkLogView { t: self.t, p: self.p@ }
    }
}

impl Clone for NetworkLog {
    fn clone(&self) -> (r: NetworkLog)
        ensures
            r@ == self@,
    {
        NetworkLog { t: self.t, p: self.p.clone() }
    }
}

/// The entries of a log, each by its view.
pub open spec fn network_logs_view(logs: Seq<NetworkLog>) -> Seq<NetworkLogView> {
    logs.map_values(|l: NetworkLog| l@)
}

/// A copy of a log of datagrams and packets.
pub fn copy_network_logs(logs: &Vec<NetworkLog>) -> (r: Vec<NetworkLog>)
    ensures
        network_logs_view(r@) == network_logs_view(logs@),
{
    let mut r: Vec<NetworkLog> = Vec::new();
    let mut i: usize = 0;
    while i < logs.len()
        invariant
            i <= logs.len(),
            network_logs_view(r@) == network_logs_view(logs@).subrange(0, i as int),
        decreases logs.len() - i,
    {
        let entry = logs[i].clone();
        let ghost before = r@;
        r.push(entry);
        proof {
            assert(network_logs_view(logs@)[i as int] == logs@[i as int]@);
            assert(network_logs_view(r@) =~= network_logs_view(before).push(entry@));
            assert(network_logs_view(before).push(entry@) =~= network_logs_view(logs@).subrange(
                0,
                i + 1,
            ));
        }
        i = i + 1;
    }
    assert(network_logs_view(logs@).subrange(0, logs@.len() as int) =~= network_logs_view(logs@));
    r
}

/// A copy of an ARP table.
pub fn copy_arp_table(table: &Vec<(IpAddr, Mac)>) -> (r: Vec<(IpAddr, Mac)>)
    ensures
        r@ == table@,
{
    let mut r: Vec<(IpAddr, Mac)> = Vec::new();
    let mut i: usize = 0;
    while i < table.len()
        invariant
            i <= table.len(),
            r@ == table@.subrange(0, i as int),
        decreases table.len() - i,
    {
        r.push(table[i]);
        i = i + 1;
        assert(r@ =~= table@.subrange(0, i as int));
    }
    assert(table@.subrange(0, table@.len() as int) =~= table@);
    r
}

/// The state of the IP host `mac` after the network of `devices` and
/// `links` ran for `ticks` ticks.
#[verifier::opaque]
pub open spec fn ip_host_after(
    devices: Seq<NodeView>,
    links: Seq<Connection>,
    ticks: nat,
    mac: Mac,
) -> Result<IpHostView, ErrorView> {
    match linked(NetworkView { devices, connections: Seq::empty() }, links, links.len() as int) {
        Err(e) => Err(e),
        Ok(s) => match s.run(ticks) {
            Err(e) => Err(e),
            Ok(s1) => match s1.device_at(mac) {
                Some(NodeView::IpHost(h)) => Ok(h),
                _ => Err(ErrorView::DeviceNotFound { mac }),
            },
        },
    }
}

/// Runs `devices` with both directions of `links` for `ticks` ticks and
/// gives what the IP host `mac` has received.
pub fn run_ip_network(devices: Vec<Node>, links: &Vec<Connection>, ticks: usize, mac: Mac) -> (r: Res<
    Vec<NetworkLog>,
>)
    requires
        forall|i: int| 0 <= i < devices@.len() ==> (#[trigger] devices@[i]).wf(),
    ensures
        match ip_host_after(nodes_view(devices@), links@, ticks as nat, mac) {
            Ok(h) => r matches Ok(got) && network_logs_view(got@) == h.ip.rlog,
            Err(e) => r matches Err(got) && got@ == e,
        },
{
    reveal(ip_host_after);
    let mut nw = Network::new(devices, Vec::new());
    match nw.connect_all(links) {
        Ok(()) => {},
        Err(e) => {
            return Err(e);
        },
    }
    match nw.run(ticks) {
        Ok(()) => {},
        Err(e) => {
            return Err(e);
        },
    }
    match nw.get_ip_host(mac) {
        Ok(d) => Ok(copy_network_logs(d.get_rlog())),
        Err(e) => Err(e),
    }
}

/// Runs `devices` with both directions of `links` for `ticks` ticks and
/// gives the ARP table of the IP host `mac`.
pub fn run_arp_network(devices: Vec<Node>, links: &Vec<Connection>, ticks: usize, mac: Mac) -> (r:
    Res<Vec<(IpAddr, Mac)>>)
    requires
        forall|i: int| 0 <= i < devices@.len() ==> (#[trigger] devices@[i]).wf(),
    ensures
        match ip_host_after(nodes_view(devices@), links@, ticks as nat, mac) {
            Ok(h) => r matches Ok(got) && got@ == h.ip.arp,
            Err(e) => r matches Err(got) && got@ == e,
        },
{
    reveal(ip_host_after);
    let mut nw = Network::new(devices, Vec::new());
    match nw.connect_all(links) {
        Ok(()) => {},
        Err(e) => {
            return Err(e);
        },
    }
    match nw.run(ticks) {
        Ok(()) => {},
        Err(e) => {
            return Err(e);
        },
    }
    match nw.get_ip_host(mac) {
        Ok(d) => Ok(copy_arp_table(d.get_arp_table())),
        Err(e) => Err(e),
    }
}

/// The mask of the samples: the 24 most significant bits.
pub open spec fn sample_mask() -> SubnetMask {
    SubnetMask { prefix: 24, value: mask_of(24) }
}

/// The datagram of the samples: two bytes from `src` to `dst`.
pub open spec fn sample_datagram(src: u32, dst: u32) -> NetworkProtocolView {
    NetworkProtocolView::IP(
        spec_new(
            IpAddr { value: src },
            IpAddr { value: dst },
            IpPayloadView::Bytes(seq![0x01u8, 0x02u8]),
        ),
    )
}

/// An echoing host of the samples with the tables of `ip` and the entries
/// `schedules` to send.
pub open spec fn sample_host(ip: IpDeviceView, schedules: Seq<NetworkLogView>) -> NodeView {
    NodeView::IpHost(IpHostView { ip, schedules, handler: IpHandler::Echo })
}

/// The device of the samples with the address `mac` and one interface for
/// each of `addrs`.
pub open spec fn sample_device(mac: u64, name: Seq<char>, addrs: Seq<IpAddr>) -> IpDeviceView {
    fresh_ip_device(Mac { value: mac }, name, addrs, sample_mask())
}

fn sample_payload() -> (payload: Vec<u8>)
    ensures
        payload@ == seq![0x01u8, 0x02u8],
{
    let payload: Vec<u8> = vec![0x01, 0x02];
    assert(payload@ =~= seq![0x01u8, 0x02u8]);
    payload
}

fn sample_ip_host(mac: u64, name: &str, addr: u32) -> (h: IpHost)
    ensures
        h.wf(),
        h@ == (IpHostView {
            ip: sample_device(mac, name@, seq![IpAddr { value: addr }]),
            schedules: Seq::empty(),
            handler: IpHandler::Echo,
        }),
{
    IpHost::build_echo(Mac::new(mac), name, IpAddr::new(addr), SubnetMask::new(24))
}

fn sample_router(mac: u64, name: &str, addr0: u32, addr1: u32) -> (r: Router)
    ensures
        r.wf(),
        r@ == sample_device(mac, name@, seq![IpAddr { value: addr0 }, IpAddr { value: addr1 }]),
{
    let addrs: Vec<IpAddr> = vec![IpAddr::new(addr0), IpAddr::new(addr1)];
    assert(addrs@ =~= seq![IpAddr { value: addr0 }, IpAddr { value: addr1 }]);
    Router::build(Mac::new(mac), name, addrs, SubnetMask::new(24))
}

/// The sample of two hosts on one wire before its first tick. Each knows
/// the hardware address of the other, and the first sends a datagram to the
/// second at the tick 0.
pub open spec fn host_host_devices() -> Seq<NodeView> {
    seq![
        sample_host(
            sample_device(761, "host1"@, seq![IpAddr { value: 0x0a00_0001 }]).with_arp(
                IpAddr { value: 0x0a00_0002 },
                Mac { value: 762 },
            ),
            seq![NetworkLogView { t: 0, p: sample_datagram(0x0a00_0001, 0x0a00_0002) }],
        ),
        sample_host(
            sample_device(762, "host2"@, seq![IpAddr { value: 0x0a00_0002 }]).with_arp(
                IpAddr { value: 0x0a00_0001 },
                Mac { value: 761 },
            ),
            Seq::empty(),
        ),
    ]
}

/// Runs the sample of two hosts on one wire for 100 ticks and gives what
/// the first host has received.
pub fn run_host_host() -> (r: Res<Vec<NetworkLog>>)
    ensures
        match ip_host_after(host_host_devices(), seq![spec_link(761, 0, 762, 0)], 100, Mac { value: 761 }) {
            Ok(h) => r matches Ok(got) && network_logs_view(got@) == h.ip.rlog,
            Err(e) => r matches Err(got) && got@ == e,
        },
{
    let addr0 = IpAddr::new(0x0a00_0001);
    let addr1 = IpAddr::new(0x0a00_0002);
    let mut host0 = sample_ip_host(761, "host1", 0x0a00_0001);
    let mut host1 = sample_ip_host(762, "host2", 0x0a00_0002);
    host0.add_schedule(0, NetworkProtocol::IP(IP::new_byte(addr0, addr1, sample_payload())));
    let _ = host0.add_arp_entry(addr1, Mac::new(762));
    let _ = host1.add_arp_entry(addr0, Mac::new(761));
    assert(host0@.schedules =~= seq![
        NetworkLogView { t: 0, p: sample_datagram(0x0a00_0001, 0x0a00_0002) },
    ]);
    let devices = vec![Node::IpHost(host0), Node::IpHost(host1)];
    assert(nodes_view(devices@) =~= host_host_devices());
    let links = vec![link(761, 0, 762, 0)];
    assert(links@ =~= seq![spec_link(761, 0, 762, 0)]);
    run_ip_network(devices, &links, 100, Mac::new(761))
}

/// The links of the samples of two hosts and a router at a switch.
pub open spec fn one_router_links() -> Seq<Connection> {
    seq![spec_link(763, 0, 761, 0), spec_link(763, 1, 762, 0), spec_link(763, 2, 764, 0)]
}

fn one_router_links_vec() -> (links: Vec<Connection>)
    ensures
        links@ == one_router_links(),
{
    let links = vec![link(763, 0, 761, 0), link(763, 1, 762, 0), link(763, 2, 764, 0)];
    assert(links@ =~= one_router_links());
    links
}

/// The sample of two hosts and a router at a switch before its first tick.
/// The hosts know the hardware address of each other, and the first sends a
/// datagram to the second at the tick 0.
pub open spec fn one_router_devices() -> Seq<NodeView> {
    seq![
        sample_host(
            sample_device(761, "hostA"@, seq![IpAddr { value: 0x0a00_0001 }]).with_arp(
                IpAddr { value: 0x0a00_0002 },
                Mac { value: 762 },
            ),
            seq![NetworkLogView { t: 0, p: sample_datagram(0x0a00_0001, 0x0a00_0002) }],
        ),
        sample_host(
            sample_device(762, "hostB"@, seq![IpAddr { value: 0x0a00_0002 }]).with_arp(
                IpAddr { value: 0x0a00_0001 },
                Mac { value: 761 },
            ),
            Seq::empty(),
        ),
        sample_switch(763, "switch"@, 3),
        NodeView::Router(sample_device(764, "router"@, seq![IpAddr { value: 0x0a00_0003 }])),
    ]
}

/// Runs the sample of two hosts and a router at a switch for 200 ticks and
/// gives what the first host has received.
pub fn run_2host_1router() -> (r: Res<Vec<NetworkLog>>)
    ensures
        match ip_host_after(one_router_devices(), one_router_links(), 200, Mac { value: 761 }) {
            Ok(h) => r matches Ok(got) && network_logs_view(got@) == h.ip.rlog,
            Err(e) => r matches Err(got) && got@ == e,
        },
{
    let addr_a = IpAddr::new(0x0a00_0001);
    let addr_b = IpAddr::new(0x0a00_0002);
    let mut host_a = sample_ip_host(761, "hostA", 0x0a00_0001);
    host_a.add_schedule(0, NetworkProtocol::IP(IP::new_byte(addr_a, addr_b, sample_payload())));
    let _ = host_a.add_arp_entry(addr_b, Mac::new(762));
    let mut host_b = sample_ip_host(762, "hostB", 0x0a00_0002);
    let _ = host_b.add_arp_entry(addr_a, Mac::new(761));
    let switch = EthernetSwitch::build_switch(Mac::new(763), "switch", 3);
    let addrs: Vec<IpAddr> = vec![IpAddr::new(0x0a00_0003)];
    assert(addrs@ =~= seq![IpAddr { value: 0x0a00_0003 }]);
    let router = Router::build(Mac::new(764), "router", addrs, SubnetMask::new(24));
    assert(host_a@.schedules =~= seq![
        NetworkLogView { t: 0, p: sample_datagram(0x0a00_0001, 0x0a00_0002) },
    ]);
    let devices = vec![
        Node::IpHost(host_a),
        Node::IpHost(host_b),
        Node::EthernetSwitch(switch),
        Node::Router(router),
    ];
    assert(nodes_view(devices@) =~= one_router_devices());
    let links = one_router_links_vec();
    run_ip_network(devices, &links, 200, Mac::new(761))
}

/// The sample of a host that asks for the hardware address of a router
/// before its first tick: the first host knows no hardware address and
/// sends an ARP request for the router at the tick 0.
pub open spec fn router_arp_devices() -> Seq<NodeView> {
    seq![
        sample_host(
            sample_device(761, "hostA"@, seq![IpAddr { value: 0x0a00_0001 }]),
            seq![
                NetworkLogView {
                    t: 0,
                    p: NetworkProtocolView::ARP(
                        arp::spec_new_request(
                            Mac { value: 761 },
                            IpAddr { value: 0x0a00_0001 },
                            IpAddr { value: 0x0a00_0003 },
                        ),
                    ),
                },
            ],
        ),
        sample_host(sample_device(762, "hostB"@, seq![IpAddr { value: 0x0a00_0002 }]), Seq::empty()),
        sample_switch(763, "switch"@, 3),
        NodeView::Router(sample_device(764, "router"@, seq![IpAddr { value: 0x0a00_0003 }])),
    ]
}

/// Runs the sample of a host that asks for the hardware address of a
/// router for 250 ticks and gives the ARP table of the host.
pub fn run_test_router_arp() -> (r: Res<Vec<(IpAddr, Mac)>>)
    ensures
        match ip_host_after(router_arp_devices(), one_router_links(), 250, Mac { value: 761 }) {
            Ok(h) => r matches Ok(got) && got@ == h.ip.arp,
            Err(e) => r matches Err(got) && got@ == e,
        },
{
    let mut host_a = sample_ip_host(761, "hostA", 0x0a00_0001);
    let arp0 = ARP::new_request(Mac::new(761), IpAddr::new(0x0a00_0001), IpAddr::new(0x0a00_0003));
    host_a.add_schedule(0, NetworkProtocol::ARP(arp0));
    let host_b = sample_ip_host(762, "hostB", 0x0a00_0002);
    let switch = EthernetSwitch::build_switch(Mac::new(763), "switch", 3);
    let addrs: Vec<IpAddr> = vec![IpAddr::new(0x0a00_0003)];
    assert(addrs@ =~= seq![IpAddr { value: 0x0a00_0003 }]);
    let router = Router::build(Mac::new(764), "router", addrs, SubnetMask::new(24));
    assert(host_a@.schedules =~= router_arp_devices()[0]->IpHost_0.schedules);
    let devices = vec![
        Node::IpHost(host_a),
        Node::IpHost(host_b),
        Node::EthernetSwitch(switch),
        Node::Router(router),
    ];
    assert(nodes_view(devices@) =~= router_arp_devices());
    let links = one_router_links_vec();
    run_arp_network(devices, &links, 250, Mac::new(761))
}

/// The network of the third subnet, that of the hosts 3c and 3d.
pub open spec fn far_network() -> NetworkPart {
    network_part(IpAddr { value: 0x0a03_0003 }, sample_mask())
}

/// The network of the first subnet, that of the hosts 1a and 1b.
pub open spec fn near_network() -> NetworkPart {
    network_part(IpAddr { value: 0x0a01_0003 }, sample_mask())
}

/// The first host of the sample of two routers: it reaches the far network
/// through the router R and sends a datagram to the host 3d at the tick 0.
pub open spec fn two_router_host_a() -> NodeView {
    sample_host(
        sample_device(761, "host1a"@, seq![IpAddr { value: 0x0a01_0001 }]).with_arp(
            IpAddr { value: 0x0a01_0003 },
            Mac { value: 765 },
        ).with_route(far_network(), IpAddr { value: 0x0a01_0003 }),
        seq![NetworkLogView { t: 0, p: sample_datagram(0x0a01_0001, 0x0a03_0002) }],
    )
}

/// The host 3d of the sample of two routers: it reaches the near network
/// through the router S.
pub open spec fn two_router_host_d() -> NodeView {
    sample_host(
        sample_device(764, "host3d"@, seq![IpAddr { value: 0x0a03_0002 }]).with_arp(
            IpAddr { value: 0x0a03_0003 },
            Mac { value: 766 },
        ).with_route(near_network(), IpAddr { value: 0x0a03_0003 }),
        Seq::empty(),
    )
}

/// The router R of the sample of two routers, between the first and the
/// second subnet. With `with_route` it reaches the far network through the
/// router S.
pub open spec fn two_router_r(with_route: bool) -> NodeView {
    let d = sample_device(
        765,
        "routeR"@,
        seq![IpAddr { value: 0x0a01_0003 }, IpAddr { value: 0x0a02_0001 }],
    ).with_arp(IpAddr { value: 0x0a01_0001 }, Mac { value: 761 }).with_arp(
        IpAddr { value: 0x0a02_0002 },
        Mac { value: 766 },
    );
    NodeView::Router(
        if with_route {
            d.with_route(far_network(), IpAddr { value: 0x0a02_0002 })
        } else {
            d
        },
    )
}

/// The router S of the sample of two routers, between the third and the
/// second subnet.
pub open spec fn two_router_s() -> NodeView {
    NodeView::Router(
        sample_device(
            766,
            "routeS"@,
            seq![IpAddr { value: 0x0a03_0003 }, IpAddr { value: 0x0a02_0002 }],
        ).with_arp(IpAddr { value: 0x0a03_0002 }, Mac { value: 764 }).with_arp(
            IpAddr { value: 0x0a02_0001 },
            Mac { value: 765 },
        ).with_route(far_network(), IpAddr { value: 0x0a03_0002 }).with_route(
            near_network(),
            IpAddr { value: 0x0a02_0001 },
        ),
    )
}

/// The sample of two routers before its first tick: two hosts at a switch
/// in the first subnet, two in the third, and a router of each to the
/// second subnet between them.
pub open spec fn two_router_devices(with_route: bool) -> Seq<NodeView> {
    seq![
        two_router_host_a(),
        sample_host(sample_device(762, "host1b"@, seq![IpAddr { value: 0x0a01_0002 }]), Seq::empty()),
        sample_host(sample_device(763, "host3c"@, seq![IpAddr { value: 0x0a03_0001 }]), Seq::empty()),
        two_router_host_d(),
        two_router_r(with_route),
        two_router_s(),
        sample_switch(767, "switch1"@, 3),
        sample_switch(768, "switch3"@, 3),
    ]
}

/// The links of the sample of two routers.
pub open spec fn two_router_links() -> Seq<Connection> {
    seq![
        spec_link(767, 0, 761, 0),
        spec_link(767, 1, 762, 0),
        spec_link(767, 2, 765, 0),
        spec_link(765, 1, 766, 1),
        spec_link(768, 0, 763, 0),
        spec_link(768, 1, 764, 0),
        spec_link(768, 2, 766, 0),
    ]
}

fn build_host_a() -> (h: IpHost)
    ensures
        h.wf(),
        NodeView::IpHost(h@) == two_router_host_a(),
{
    let mask = SubnetMask::new(24);
    let mut h = sample_ip_host(761, "host1a", 0x0a01_0001);
    h.add_schedule(
        0,
        NetworkProtocol::IP(
            IP::new_byte(IpAddr::new(0x0a01_0001), IpAddr::new(0x0a03_0002), sample_payload()),
        ),
    );
    let _ = h.add_arp_entry(IpAddr::new(0x0a01_0003), Mac::new(765));
    let _ = h.add_route_entry(IpAddr::new(0x0a03_0003).nw(mask), IpAddr::new(0x0a01_0003));
    assert(h@.schedules =~= seq![
        NetworkLogView { t: 0, p: sample_datagram(0x0a01_0001, 0x0a03_0002) },
    ]);
    h
}

fn build_host_d() -> (h: IpHost)
    ensures
        h.wf(),
        NodeView::IpHost(h@) == two_router_host_d(),
{
    let mask = SubnetMask::new(24);
    let mut h = sample_ip_host(764, "host3d", 0x0a03_0002);
    let _ = h.add_arp_entry(IpAddr::new(0x0a03_0003), Mac::new(766));
    let _ = h.add_route_entry(IpAddr::new(0x0a01_0003).nw(mask), IpAddr::new(0x0a03_0003));
    h
}

fn build_router_r(with_route: bool) -> (r: Router)
    ensures
        r.wf(),
        NodeView::Router(r@) == two_router_r(with_route),
{
    let mask = SubnetMask::new(24);
    let mut r = sample_router(765, "routeR", 0x0a01_0003, 0x0a02_0001);
    let _ = r.add_arp_entry(IpAddr::new(0x0a01_0001), Mac::new(761));
    let _ = r.add_arp_entry(IpAddr::new(0x0a02_0002), Mac::new(766));
    if with_route {
        let _ = r.add_route_entry(IpAddr::new(0x0a03_0003).nw(mask), IpAddr::new(0x0a02_0002));
    }
    r
}

fn build_router_s() -> (r: Router)
    ensures
        r.wf(),
        NodeView::Router(r@) == two_router_s(),
{
    let mask = SubnetMask::new(24);
    let mut r = sample_router(766, "routeS", 0x0a03_0003, 0x0a02_0002);
    let _ = r.add_arp_entry(IpAddr::new(0x0a03_0002), Mac::new(764));
    let _ = r.add_arp_entry(IpAddr::new(0x0a02_0001), Mac::new(765));
    let _ = r.add_route_entry(IpAddr::new(0x0a03_0003).nw(mask), IpAddr::new(0x0a03_0002));
    let _ = r.add_route_entry(IpAddr::new(0x0a01_0003).nw(mask), IpAddr::new(0x0a02_0001));
    r
}

fn two_router_network(with_route: bool) -> (r: (Vec<Node>, Vec<Connection>))
    ensures
        forall|i: int| 0 <= i < r.0@.len() ==> (#[trigger] r.0@[i]).wf(),
        nodes_view(r.0@) == two_router_devices(with_route),
        r.1@ == two_router_links(),
{
    let host_a = build_host_a();
    let host_b = sample_ip_host(762, "host1b", 0x0a01_0002);
    let host_c = sample_ip_host(763, "host3c", 0x0a03_0001);
    let host_d = build_host_d();
    let router_r = build_router_r(with_route);
    let router_s = build_router_s();
    let switch_1 = EthernetSwitch::build_switch(Mac::new(767), "switch1", 3);
    let switch_3 = EthernetSwitch::build_switch(Mac::new(768), "switch3", 3);
    let devices = vec![
        Node::IpHost(host_a),
        Node::IpHost(host_b),
        Node::IpHost(host_c),
        Node::IpHost(host_d),
        Node::Router(router_r),
        Node::Router(router_s),
        Node::EthernetSwitch(switch_1),
        Node::EthernetSwitch(switch_3),
    ];
    assert(nodes_view(devices@) =~= two_router_devices(with_route));
    let links = vec![
        link(767, 0, 761, 0),
        link(767, 1, 762, 0),
        link(767, 2, 765, 0),
        link(765, 1, 766, 1),
        link(768, 0, 763, 0),
        link(768, 1, 764, 0),
        link(768, 2, 766, 0),
    ];
    assert(links@ =~= two_router_links());
    (devices, links)
}

/// Runs the sample of two routers for 550 ticks and gives what the first
/// host has received.
pub fn run_2router() -> (r: Res<Vec<NetworkLog>>)
    ensures
        match ip_host_after(two_router_devices(true), two_router_links(), 550, Mac { value: 761 }) {
            Ok(h) => r matches Ok(got) && network_logs_view(got@) == h.ip.rlog,
            Err(e) => r matches Err(got) && got@ == e,
        },
{
    let (devices, links) = two_router_network(true);
    run_ip_network(devices, &links, 550, Mac::new(761))
}

/// Runs the sample of two routers, with the router R lacking its route to
/// the far network, for 400 ticks and gives what the first host has
/// received.
pub fn run_unreachable() -> (r: Res<Vec<NetworkLog>>)
    ensures
        match ip_host_after(two_router_devices(false), two_router_links(), 400, Mac { value: 761 }) {
            Ok(h) => r matches Ok(got) && network_logs_view(got@) == h.ip.rlog,
            Err(e) => r matches Err(got) && got@ == e,
        },
{
    let (devices, links) = two_router_network(false);
    run_ip_network(devices, &links, 400, Mac::new(761))
}

} // verus!
