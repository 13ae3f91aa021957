//! The physical layer: devices that exchange single bytes through their
//! ports, and the fabric that links them.
use vstd::prelude::*;
use crate::types::{ErrorView, Mac, Port, Res};

pub mod device;
pub mod repeater;
pub mod byte_host;
pub mod node;
pub mod network;

pub use byte_host::{ByteHost, ByteLog};
pub use device::{BaseDevice, Device};
pub use network::{Connection, Network};
pub use node::Node;
pub use repeater::Repeater;

use byte_host::ByteHostView;
use device::BaseDeviceView;
use network::{NetworkView, linked, nodes_view};
use node::NodeView;

verus! {

/// The address of the repeater of the sample network.
pub const SAMPLE_REPEATER: u64 = 23;

/// The address of the host that sends in the sample network.
pub const SAMPLE_SENDER: u64 = 24;

/// The address of the host that receives in the sample network.
pub const SAMPLE_RECEIVER: u64 = 25;

/// The number of ticks that the sample network runs.
pub const SAMPLE_TICKS: usize = 10;

/// The state of a byte device that has seen nothing yet.
pub open spec fn fresh_base(mac: u64, name: Seq<char>, num_ports: nat) -> BaseDeviceView {
    BaseDeviceView { mac: Mac { value: mac }, name, num_ports, recv: Seq::empty(), send: Seq::empty() }
}

/// A link from the port `port0` of `mac0` to the port `port1` of `mac1`.
pub open spec fn spec_link(mac0: u64, port0: u32, mac1: u64, port1: u32) -> Connection {
    Connection {
        mac0: Mac { value: mac0 },
        port0: Port { value: port0 },
        mac1: Mac { value: mac1 },
        port1: Port { value: port1 },
    }
}

/// A link from the port `port0` of `mac0` to the port `port1` of `mac1`.
pub fn link(mac0: u64, port0: u32, mac1: u64, port1: u32) -> (c: Connection)
    ensures
        c == spec_link(mac0, port0, mac1, port1),
{
    Connection {
        mac0: Mac::new(mac0),
        port0: Port::new(port0),
        mac1: Mac::new(mac1),
        port1: Port::new(port1),
    }
}

/// The bytes that the sender of the sample network sends: 1 to 4 at the
/// ticks 0 to 3.
pub open spec fn sample_schedule() -> Seq<ByteLog> {
    seq![
        ByteLog { t: 0, port: Port { value: 0 }, x: 0x01 },
        ByteLog { t: 1, port: Port { value: 0 }, x: 0x02 },
        ByteLog { t: 2, port: Port { value: 0 }, x: 0x03 },
        ByteLog { t: 3, port: Port { value: 0 }, x: 0x04 },
    ]
}

/// The sample network before its first tick: a repeater, a host that sends
/// four bytes, and a host that only receives.
pub open spec fn sample_devices() -> Seq<NodeView> {
    seq![
        NodeView::Repeater(fresh_base(SAMPLE_REPEATER, "repeater0"@, 2)),
        NodeView::ByteHost(
            ByteHostView {
                base: fresh_base(SAMPLE_SENDER, "host1"@, 1),
                schedules: sample_schedule(),
                rlogs: Seq::empty(),
            },
        ),
        NodeView::ByteHost(
            ByteHostView {
                base: fresh_base(SAMPLE_RECEIVER, "host2"@, 1),
                schedules: Seq::empty(),
                rlogs: Seq::empty(),
            },
        ),
    ]
}

/// The links of the sample network: each host at one port of the repeater.
pub open spec fn sample_links() -> Seq<Connection> {
    seq![
        spec_link(SAMPLE_REPEATER, 0, SAMPLE_SENDER, 0),
        spec_link(SAMPLE_REPEATER, 1, SAMPLE_RECEIVER, 0),
    ]
}

/// What the byte host `mac` has logged after the network of `devices` and
/// `links` ran for `ticks` ticks.
#[verifier::opaque]
pub open spec fn byte_log_after(
    devices: Seq<NodeView>,
    links: Seq<Connection>,
    ticks: nat,
    mac: Mac,
) -> Result<Seq<ByteLog>, ErrorView> {
    match linked(NetworkView { devices, connections: Seq::empty() }, links, links.len() as int) {
        Err(e) => Err(e),
        Ok(s) => match s.run(ticks) {
            Err(e) => Err(e),
            Ok(s1) => match s1.device_at(mac) {
                Some(NodeView::ByteHost(h)) => Ok(h.rlogs),
                _ => Err(ErrorView::DeviceNotFound { mac }),
            },
        },
    }
}

/// The fabric accepts the links of the sample network.
pub proof fn lemma_sample_links_accepted()
    ensures
        linked(
            NetworkView { devices: sample_devices(), connections: Seq::empty() },
            sample_links(),
            2,
        ) is Ok,
{
    let s0 = NetworkView { devices: sample_devices(), connections: Seq::empty() };
    let links = sample_links();
    reveal_with_fuel(network::find_device, 4);
    reveal_with_fuel(network::find_link, 4);
    reveal_with_fuel(linked, 3);
    let r = Mac { value: SAMPLE_REPEATER };
    let a = Mac { value: SAMPLE_SENDER };
    let b = Mac { value: SAMPLE_RECEIVER };
    let p0 = Port { value: 0 };
    let p1 = Port { value: 1 };
    assert(s0.connect(r, p0, a, p0) is Ok);
    let s1 = s0.connect(r, p0, a, p0)->Ok_0;
    assert(s1.connect(a, p0, r, p0) is Ok);
    let s2 = s1.connect(a, p0, r, p0)->Ok_0;
    assert(s0.connect_both(r, p0, a, p0) == Ok::<NetworkView, ErrorView>(s2));
    assert(s2.connect(r, p1, b, p0) is Ok);
    let s3 = s2.connect(r, p1, b, p0)->Ok_0;
    assert(s3.connect(b, p0, r, p1) is Ok);
    assert(links[0] == spec_link(SAMPLE_REPEATER, 0, SAMPLE_SENDER, 0));
    assert(links[1] == spec_link(SAMPLE_REPEATER, 1, SAMPLE_RECEIVER, 0));
    assert(linked(s0, links, 1) == Ok::<NetworkView, ErrorView>(s2));
}

fn copy_byte_logs(logs: &Vec<ByteLog>) -> (r: Vec<ByteLog>)
    ensures
        r@ == logs@,
{
    let mut r: Vec<ByteLog> = Vec::new();
    let mut i: usize = 0;
    while i < logs.len()
        invariant
            i <= logs.len(),
            r@ == logs@.subrange(0, i as int),
        decreases logs.len() - i,
    {
        r.push(logs[i]);
        i = i + 1;
        assert(r@ =~= logs@.subrange(0, i as int));
    }
    assert(logs@.subrange(0, logs@.len() as int) =~= logs@);
    r
}

/// Runs `devices` with both directions of `links` for `ticks` ticks and
/// gives what the byte host `mac` has logged.
pub fn run_byte_network(devices: Vec<Node>, links: &Vec<Connection>, ticks: usize, mac: Mac) -> (r:
    Res<Vec<ByteLog>>)
    requires
        forall|i: int| 0 <= i < devices@.len() ==> (#[trigger] devices@[i]).wf(),
    ensures
        match byte_log_after(nodes_view(devices@), links@, ticks as nat, mac) {
            Ok(log) => r matches Ok(got) && got@ == log,
            Err(e) => r matches Err(got) && got@ == e,
        },
{
    reveal(byte_log_after);
    let mut nw = Network::new(devices, Vec::new());
    match nw.connect_all(links) {
        Ok(()) => {},
        Err(e) => {
            return Err(e);
        },
    }
    match nw.run(ticks) {
        Ok(()) => {},
        Err(e) => {
            return Err(e);
        },
    }
    match nw.get_byte_host(mac) {
        Ok(d) => Ok(copy_byte_logs(d.get_rlogs())),
        Err(e) => Err(e),
    }
}

/// Runs the sample network for ten ticks and gives what the receiver has
/// logged.
pub fn run_sample() -> (r: Res<Vec<ByteLog>>)
    ensures
        match byte_log_after(
            sample_devices(),
            sample_links(),
            SAMPLE_TICKS as nat,
            Mac { value: SAMPLE_RECEIVER },
        ) {
            Ok(log) => r matches Ok(got) && got@ == log,
            Err(e) => r matches Err(got) && got@ == e,
        },
{
    let repeater = Repeater::new(Mac::new(SAMPLE_REPEATER), "repeater0");
    let schedules = vec![
        ByteLog::new(0, Port::new(0), 0x01),
        ByteLog::new(1, Port::new(0), 0x02),
        ByteLog::new(2, Port::new(0), 0x03),
        ByteLog::new(3, Port::new(0), 0x04),
    ];
    assert(schedules@ =~= sample_schedule());
    let host1 = ByteHost::new(Mac::new(SAMPLE_SENDER), "host1", schedules);
    let host2 = ByteHost::new(Mac::new(SAMPLE_RECEIVER), "host2", Vec::new());
    let devices = vec![Node::Repeater(repeater), Node::ByteHost(host1), Node::ByteHost(host2)];
    assert(nodes_view(devices@) =~= sample_devices());
    let links = vec![
        link(SAMPLE_REPEATER, 0, SAMPLE_SENDER, 0),
        link(SAMPLE_REPEATER, 1, SAMPLE_RECEIVER, 0),
    ];
    assert(links@ =~= sample_links());
    run_byte_network(devices, &links, SAMPLE_TICKS, Mac::new(SAMPLE_RECEIVER))
}

} // verus!
