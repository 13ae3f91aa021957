//! The link layer: the Ethernet frame format, the framer with its
//! forwarding table, and the hosts and switches built on it.
use vstd::prelude::*;
use crate::physl::network::{Connection, Network, NetworkView, linked, nodes_view};
use crate::physl::node::{Node, NodeView};
use crate::physl::device::Device;
use crate::physl::{link, spec_link};
use crate::types::{ErrorView, Mac, Res};

pub mod ethernet_frame;
pub mod ethernet_log;
pub mod ethernet_device;
pub mod ethernet_host;
pub mod ethernet_switch;

pub use ethernet_device::{BaseEthernetDevice, EthernetDevice};
pub use ethernet_frame::EthernetFrame;
pub use ethernet_host::EthernetHost;
pub use ethernet_log::EthernetLog;
pub use ethernet_switch::EthernetSwitch;

use ethernet_device::fresh_framer;
use ethernet_frame::EthernetFrameView;
use ethernet_host::{EthernetNodeView, FrameHandler};
use ethernet_log::{EthernetLogView, logs_view};
use ethernet_switch::DeviceType;

verus! {

/// What the Ethernet host `mac` has received after the network of
/// `devices` and `links` ran for `ticks` ticks.
#[verifier::opaque]
pub open spec fn frame_log_after(
    devices: Seq<NodeView>,
    links: Seq<Connection>,
    ticks: nat,
    mac: Mac,
) -> Result<Seq<EthernetLogView>, ErrorView> {
    match linked(NetworkView { devices, connections: Seq::empty() }, links, links.len() as int) {
        Err(e) => Err(e),
        Ok(s) => match s.run(ticks) {
            Err(e) => Err(e),
            Ok(s1) => match s1.device_at(mac) {
                Some(NodeView::EthernetHost(h, _)) => Ok(h.eth.rlog),
                _ => Err(ErrorView::DeviceNotFound { mac }),
            },
        },
    }
}

/// A copy of a log of frames.
pub fn copy_frame_logs(logs: &Vec<EthernetLog>) -> (r: Vec<EthernetLog>)
    ensures
        logs_view(r@) == logs_view(logs@),
{
    let mut r: Vec<EthernetLog> = Vec::new();
    let mut i: usize = 0;
    while i < logs.len()
        invariant
            i <= logs.len(),
            logs_view(r@) == logs_view(logs@).subrange(0, i as int),
        decreases logs.len() - i,
    {
        let entry = logs[i].clone();
        let ghost before = r@;
        r.push(entry);
        proof {
            assert(logs_view(logs@)[i as int] == logs@[i as int]@);
            assert(logs_view(r@) =~= logs_view(before).push(entry@));
            assert(logs_view(before).push(entry@) =~= logs_view(logs@).subrange(0, i + 1));
        }
        i = i + 1;
    }
    assert(logs_view(logs@).subrange(0, logs@.len() as int) =~= logs_view(logs@));
    r
}

/// Runs `devices` with both directions of `links` for `ticks` ticks and
/// gives what the Ethernet host `mac` has received.
pub fn run_frame_network(devices: Vec<Node>, links: &Vec<Connection>, ticks: usize, mac: Mac) -> (r:
    Res<Vec<EthernetLog>>)
    requires
        forall|i: int| 0 <= i < devices@.len() ==> (#[trigger] devices@[i]).wf(),
    ensures
        match frame_log_after(nodes_view(devices@), links@, ticks as nat, mac) {
            Ok(log) => r matches Ok(got) && logs_view(got@) == log,
            Err(e) => r matches Err(got) && got@ == e,
        },
{
    reveal(frame_log_after);
    let mut nw = Network::new(devices, Vec::new());
    match nw.connect_all(links) {
        Ok(()) => {},
        Err(e) => {
            return Err(e);
        },
    }
    match nw.run(ticks) {
        Ok(()) => {},
        Err(e) => {
            return Err(e);
        },
    }
    match nw.get_ethernet_host(mac) {
        Ok(d) => Ok(copy_frame_logs(d.get_rlog())),
        Err(e) => Err(e),
    }
}

/// The frame that the first host of the samples sends: three bytes from
/// `src` to `dst`.
pub open spec fn sample_frame(dst: u64, src: u64) -> EthernetFrameView {
    EthernetFrameView {
        dst: Mac { value: dst },
        src: Mac { value: src },
        ethertype: 3,
        payload: seq![11u8, 12u8, 13u8],
    }
}

/// A host of the samples with the frames `schedules` to send.
pub open spec fn sample_host(
    mac: u64,
    name: Seq<char>,
    handler: FrameHandler,
    schedules: Seq<EthernetLogView>,
) -> NodeView {
    NodeView::EthernetHost(
        EthernetNodeView { eth: fresh_framer(Mac { value: mac }, name, 1), schedules },
        handler,
    )
}

/// A switch of the samples with `num_ports` ports.
pub open spec fn sample_switch(mac: u64, name: Seq<char>, num_ports: nat) -> NodeView {
    NodeView::EthernetSwitch(
        EthernetNodeView {
            eth: fresh_framer(Mac { value: mac }, name, num_ports),
            schedules: Seq::empty(),
        },
        DeviceType::Hub,
    )
}

/// The sample of two hosts and a bridge before its first tick: the host 23
/// sends a frame to the host 24 at the tick 0, and both echo what they get.
pub open spec fn sample_devices() -> Seq<NodeView> {
    seq![
        sample_host(
            23,
            "host_a"@,
            FrameHandler::Echo,
            seq![EthernetLogView { t: 0, frame: sample_frame(24, 23) }],
        ),
        sample_host(24, "host_b"@, FrameHandler::Echo, Seq::empty()),
        sample_switch(25, "bridge"@, 2),
    ]
}

/// The links of the sample of two hosts and a bridge.
pub open spec fn sample_links() -> Seq<Connection> {
    seq![spec_link(23, 0, 25, 0), spec_link(24, 0, 25, 1)]
}

fn sample_payload() -> (payload: Vec<u8>)
    ensures
        payload@ == seq![11u8, 12u8, 13u8],
{
    let payload: Vec<u8> = vec![11, 12, 13];
    assert(payload@ =~= seq![11u8, 12u8, 13u8]);
    payload
}

/// Runs the sample of two hosts and a bridge for 60 ticks and gives what
/// the host 24 has received.
pub fn run_sample() -> (r: Res<Vec<EthernetLog>>)
    ensures
        match frame_log_after(sample_devices(), sample_links(), 60, Mac { value: 24 }) {
            Ok(log) => r matches Ok(got) && logs_view(got@) == log,
            Err(e) => r matches Err(got) && got@ == e,
        },
{
    let mac0 = Mac::new(23);
    let mac1 = Mac::new(24);
    let mac2 = Mac::new(25);
    let mut host_a = EthernetHost::build_echo(mac0, "host_a");
    let host_b = EthernetHost::build_echo(mac1, "host_b");
    let bridge = EthernetSwitch::build_bridge(mac2, "bridge");
    let frame = EthernetFrame::new(mac1, mac0, 3, sample_payload());
    host_a.add_schedule(0, frame);
    assert(host_a@.schedules =~= seq![EthernetLogView { t: 0, frame: sample_frame(24, 23) }]);
    let devices = vec![
        Node::EthernetHost(host_a),
        Node::EthernetHost(host_b),
        Node::EthernetSwitch(bridge),
    ];
    assert(nodes_view(devices@) =~= sample_devices());
    let links = vec![link(23, 0, 25, 0), link(24, 0, 25, 1)];
    assert(links@ =~= sample_links());
    run_frame_network(devices, &links, 60, mac1)
}

/// The sample of four hosts at a switch before its first tick: the host 21,
/// which answers nothing, sends a frame to the host 22 at the tick 0, and
/// the other hosts echo what they get.
pub open spec fn sample_3host_devices() -> Seq<NodeView> {
    seq![
        sample_host(
            21,
            "host_a"@,
            FrameHandler::Consume,
            seq![EthernetLogView { t: 0, frame: sample_frame(22, 21) }],
        ),
        sample_host(22, "host_b"@, FrameHandler::Echo, Seq::empty()),
        sample_host(23, "host_c"@, FrameHandler::Echo, Seq::empty()),
        sample_host(24, "host_d"@, FrameHandler::Echo, Seq::empty()),
        sample_switch(30, "switch"@, 4),
    ]
}

/// The links of the sample of four hosts at a switch.
pub open spec fn sample_3host_links() -> Seq<Connection> {
    seq![
        spec_link(30, 0, 21, 0),
        spec_link(30, 1, 22, 0),
        spec_link(30, 2, 23, 0),
        spec_link(30, 3, 24, 0),
    ]
}

/// Runs the sample of four hosts at a switch for 200 ticks and gives what
/// the host 21 has received.
pub fn run_sample_3host() -> (r: Res<Vec<EthernetLog>>)
    ensures
        match frame_log_after(sample_3host_devices(), sample_3host_links(), 200, Mac { value: 21 }) {
            Ok(log) => r matches Ok(got) && logs_view(got@) == log,
            Err(e) => r matches Err(got) && got@ == e,
        },
{
    let mac0 = Mac::new(21);
    let mac1 = Mac::new(22);
    let mut host_0 = EthernetHost::build_consumer(mac0, "host_a");
    let host_1 = EthernetHost::build_echo(mac1, "host_b");
    let host_2 = EthernetHost::build_echo(Mac::new(23), "host_c");
    let host_3 = EthernetHost::build_echo(Mac::new(24), "host_d");
    let switch = EthernetSwitch::build_switch(Mac::new(30), "switch", 4);
    let frame = EthernetFrame::new(mac1, mac0, 3, sample_payload());
    host_0.add_schedule(0, frame);
    assert(host_0@.schedules =~= seq![EthernetLogView { t: 0, frame: sample_frame(22, 21) }]);
    let devices = vec![
        Node::EthernetHost(host_0),
        Node::EthernetHost(host_1),
        Node::EthernetHost(host_2),
        Node::EthernetHost(host_3),
        Node::EthernetSwitch(switch),
    ];
    assert(nodes_view(devices@) =~= sample_3host_devices());
    let links = vec![link(30, 0, 21, 0), link(30, 1, 22, 0), link(30, 2, 23, 0), link(30, 3, 24, 0)];
    assert(links@ =~= sample_3host_links());
    run_frame_network(devices, &links, 200, mac0)
}

} // verus!
