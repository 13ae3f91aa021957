//! The transport layer: the segment format, the socket and the host that
//! runs the connection state machine.
use vstd::prelude::*;
use crate::netwl::ip_addr::{IpAddr, SubnetMask};
use crate::netwl::sample_device;
use crate::physl::device::Device;
use crate::physl::network::{Connection, Network, NetworkView, linked, nodes_view};
use crate::physl::node::{Node, NodeView};
use crate::physl::{link, spec_link};
use crate::types::{ErrorView, Mac, Res, TPort};

pub mod types;
pub mod tcp;
pub mod tcp_host;

pub use tcp::{TCP, TcpContent};
pub use tcp_host::TcpHost;
pub use types::{Inst, Socket, State};

use tcp::TCPView;
use tcp_host::{TcpHostView, segments_view};
use types::InstView;

verus! {

/// What the TCP host `mac` has received after the network of `devices` and
/// `links` ran for `ticks` ticks.
#[verifier::opaque]
pub open spec fn segment_log_after(
    devices: Seq<NodeView>,
    links: Seq<Connection>,
    ticks: nat,
    mac: Mac,
) -> Result<Seq<TCPView>, ErrorView> {
    match linked(NetworkView { devices, connections: Seq::empty() }, links, links.len() as int) {
        Err(e) => Err(e),
        Ok(s) => match s.run(ticks) {
            Err(e) => Err(e),
            Ok(s1) => match s1.device_at(mac) {
                Some(NodeView::TcpHost(h)) => Ok(h.recv_log),
                _ => Err(ErrorView::DeviceNotFound { mac }),
            },
        },
    }
}

/// A copy of a log of segments.
pub fn copy_segments(log: &Vec<TCP>) -> (r: Vec<TCP>)
    ensures
        segments_view(r@) == segments_view(log@),
{
    let mut r: Vec<TCP> = Vec::new();
    let mut i: usize = 0;
    while i < log.len()
        invariant
            i <= log.len(),
            segments_view(r@) == segments_view(log@).subrange(0, i as int),
        decreases log.len() - i,
    {
        let entry = log[i].clone();
        let ghost before = r@;
        r.push(entry);
        proof {
            assert(segments_view(log@)[i as int] == log@[i as int]@);
            assert(segments_view(r@) =~= segments_view(before).push(entry@));
            assert(segments_view(before).push(entry@) =~= segments_view(log@).subrange(0, i + 1));
        }
        i = i + 1;
    }
    assert(segments_view(log@).subrange(0, log@.len() as int) =~= segments_view(log@));
    r
}

/// Runs `devices` with both directions of `links` for `ticks` ticks and
/// gives what the TCP host `mac` has received.
pub fn run_tcp_network(devices: Vec<Node>, links: &Vec<Connection>, ticks: usize, mac: Mac) -> (r:
    Res<Vec<TCP>>)
    requires
        forall|i: int| 0 <= i < devices@.len() ==> (#[trigger] devices@[i]).wf(),
    ensures
        match segment_log_after(nodes_view(devices@), links@, ticks as nat, mac) {
            Ok(log) => r matches Ok(got) && segments_view(got@) == log,
            Err(e) => r matches Err(got) && got@ == e,
        },
{
    reveal(segment_log_after);
    let mut nw = Network::new(devices, Vec::new());
    match nw.connect_all(links) {
        Ok(()) => {},
        Err(e) => {
            return Err(e);
        },
    }
    match nw.run(ticks) {
        Ok(()) => {},
        Err(e) => {
            return Err(e);
        },
    }
    match nw.get_tcp_host(mac) {
        Ok(d) => Ok(copy_segments(d.get_recv_log())),
        Err(e) => Err(e),
    }
}

/// A host of the sample that knows the hardware address of its peer and
/// has the instructions `insts` to carry out.
pub open spec fn sample_host(
    mac: u64,
    name: Seq<char>,
    addr: u32,
    peer: u32,
    peer_mac: u64,
    insts: Seq<InstView>,
) -> NodeView {
    NodeView::TcpHost(
        TcpHostView {
            ip: sample_device(mac, name, seq![IpAddr { value: addr }]).with_arp(
                IpAddr { value: peer },
                Mac { value: peer_mac },
            ),
            insts,
            socket: None,
            recv_log: Seq::empty(),
            send_log: Seq::empty(),
        },
    )
}

/// The sample of two hosts before its first tick: the first connects,
/// sends "hello" and closes; the second listens and receives.
pub open spec fn sample_devices() -> Seq<NodeView> {
    seq![
        sample_host(
            721,
            "host_a"@,
            7621,
            7622,
            722,
            seq![
                InstView::Socket(0),
                InstView::Connect(0, IpAddr { value: 7622 }, TPort { value: 0 }),
                InstView::Send(0, "hello"@),
                InstView::Close(0),
            ],
        ),
        sample_host(
            722,
            "host_b"@,
            7622,
            7621,
            721,
            seq![InstView::Socket(0), InstView::Listen(0, TPort { value: 0 }), InstView::Recv(0)],
        ),
    ]
}

fn build_host_a() -> (h: TcpHost)
    ensures
        h.wf(),
        NodeView::TcpHost(h@) == sample_devices()[0],
{
    let ip1 = IpAddr::new(7622);
    let mut h = TcpHost::build(Mac::new(721), "host_a", IpAddr::new(7621), SubnetMask::new(24));
    let _ = h.add_arp_entry(ip1, Mac::new(722));
    h.add_inst(Inst::Socket(0));
    h.add_inst(Inst::Connect(0, ip1, TPort::new(0)));
    h.add_inst(Inst::Send(0, "hello".to_string()));
    h.add_inst(Inst::Close(0));
    assert(h@.insts =~= sample_devices()[0]->TcpHost_0.insts);
    h
}

fn build_host_b() -> (h: TcpHost)
    ensures
        h.wf(),
        NodeView::TcpHost(h@) == sample_devices()[1],
{
    let mut h = TcpHost::build(Mac::new(722), "host_b", IpAddr::new(7622), SubnetMask::new(24));
    let _ = h.add_arp_entry(IpAddr::new(7621), Mac::new(721));
    h.add_inst(Inst::Socket(0));
    h.add_inst(Inst::Listen(0, TPort::new(0)));
    h.add_inst(Inst::Recv(0));
    assert(h@.insts =~= sample_devices()[1]->TcpHost_0.insts);
    h
}

/// Runs the sample of two hosts for 750 ticks and gives what the first
/// host has received.
pub fn run_test_tcp_nw() -> (r: Res<Vec<TCP>>)
    ensures
        match segment_log_after(
            sample_devices(),
            seq![spec_link(721, 0, 722, 0)],
            750,
            Mac { value: 721 },
        ) {
            Ok(log) => r matches Ok(got) && segments_view(got@) == log,
            Err(e) => r matches Err(got) && got@ == e,
        },
{
    let host_a = build_host_a();
    let host_b = build_host_b();
    let devices = vec![Node::TcpHost(host_a), Node::TcpHost(host_b)];
    assert(nodes_view(devices@) =~= sample_devices());
    let links = vec![link(721, 0, 722, 0)];
    assert(links@ =~= seq![spec_link(721, 0, 722, 0)]);
    run_tcp_network(devices, &links, 750, Mac::new(721))
}

} // verus!
