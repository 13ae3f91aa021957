//! The fabric: the devices of a network and the directed links between
//! their ports. Each tick it moves one byte from every device that has one
//! to send, and then runs every device.
use vstd::prelude::*;
use crate::linkl::ethernet_host::EthernetHost;
use crate::linkl::ethernet_switch::EthernetSwitch;
use crate::netwl::ip_host::IpHost;
use crate::netwl::router::Router;
use crate::tranl::tcp_host::TcpHost;
use crate::types::{Error, ErrorView, Mac, Port, Res, UpdateContext};
use super::byte_host::ByteHost;
use super::device::Device;
use super::node::{
    Node, NodeView, lemma_node_drop_send_wf, lemma_node_push_recv_wf, lemma_node_queue_ports,
    lemma_node_update_wf, lemma_node_wf,
};

verus! {

/// A directed link: what leaves `port0` of the device `mac0` arrives at
/// `port1` of the device `mac1`.
#[derive(Debug, Clone, Copy, PartialEq, Eq, Structural)]
pub struct Connection {
    pub mac0: Mac,
    pub port0: Port,
    pub mac1: Mac,
    pub port1: Port,
}

/// The state of a [`Network`]: the devices in the order of registration and
/// the links in the order of installation.
pub struct NetworkView {
    pub devices: Seq<NodeView>,
    pub connections: Seq<Connection>,
}

/// The devices of a registry, each by its view.
pub open spec fn nodes_view(devices: Seq<Node>) -> Seq<NodeView> {
    devices.map_values(|n: Node| n@)
}

/// The index of the first of the first `k` devices that has the address
/// `mac`.
pub open spec fn find_device(devices: Seq<NodeView>, mac: Mac, k: int) -> Option<int>
    decreases k,
{
    if k <= 0 {
        None
    } else {
        match find_device(devices, mac, k - 1) {
            Some(i) => Some(i),
            None => if devices[k - 1].base().mac == mac {
                Some(k - 1)
            } else {
                None
            },
        }
    }
}

/// The far end of the first of the first `k` links that start at `port` of
/// the device `mac`.
pub open spec fn find_link(links: Seq<Connection>, mac: Mac, port: Port, k: int) -> Option<
    (Mac, Port),
>
    decreases k,
{
    if k <= 0 {
        None
    } else {
        match find_link(links, mac, port, k - 1) {
            Some(end) => Some(end),
            None => if links[k - 1].mac0 == mac && links[k - 1].port0 == port {
                Some((links[k - 1].mac1, links[k - 1].port1))
            } else {
                None
            },
        }
    }
}

/// Whether `links` holds the directed link from `port0` of `mac0` to
/// `port1` of `mac1`.
pub open spec fn has_link(links: Seq<Connection>, mac0: Mac, port0: Port, mac1: Mac, port1: Port) -> bool {
    links.contains(Connection { mac0, port0, mac1, port1 })
}

/// Whether at most one of `links` starts at any port of any device.
pub open spec fn single_source(links: Seq<Connection>) -> bool {
    forall|i: int, j: int|
        0 <= i < j < links.len() ==> !((#[trigger] links[i]).mac0 == (#[trigger] links[j]).mac0
            && links[i].port0 == links[j].port0)
}

/// The devices after the device `i` put its next byte on the wire: the byte
/// leaves its send queue and joins the receive queue at the far end of the
/// link. It is an error if no link starts at the port, if no device has the
/// address at the far end, or if the device there lacks the port.
pub open spec fn deliver_one(devices: Seq<NodeView>, links: Seq<Connection>, i: int) -> Result<
    Seq<NodeView>,
    ErrorView,
> {
    let d = devices[i];
    if d.base().send.len() == 0 {
        Ok(devices)
    } else {
        let (port, x) = d.base().send[0];
        let taken = devices.update(i, d.drop_send());
        match find_link(links, d.base().mac, port, links.len() as int) {
            None => Err(ErrorView::ConnectionNotFound { mac: d.base().mac, port }),
            Some((mac1, port1)) => match find_device(taken, mac1, taken.len() as int) {
                None => Err(ErrorView::DeviceNotFound { mac: mac1 }),
                Some(j) => if port1.value >= taken[j].base().num_ports {
                    Err(ErrorView::ConnectionNotFound { mac: mac1, port: port1 })
                } else {
                    Ok(taken.update(j, taken[j].push_recv(port1, x)))
                },
            },
        }
    }
}

/// The devices after the first `k` of them, in the order of registration,
/// each put one byte on the wire.
pub open spec fn deliver(devices: Seq<NodeView>, links: Seq<Connection>, k: int) -> Result<
    Seq<NodeView>,
    ErrorView,
>
    decreases k,
{
    if k <= 0 {
        Ok(devices)
    } else {
        match deliver(devices, links, k - 1) {
            Err(e) => Err(e),
            Ok(ds) => deliver_one(ds, links, k - 1),
        }
    }
}

/// The devices after the first `k` of them, in the order of registration,
/// ran for the tick `t`.
pub open spec fn update_devices(devices: Seq<NodeView>, t: usize, k: int) -> Result<
    Seq<NodeView>,
    ErrorView,
>
    decreases k,
{
    if k <= 0 {
        Ok(devices)
    } else {
        match update_devices(devices, t, k - 1) {
            Err(e) => Err(e),
            Ok(ds) => match ds[k - 1].update(t) {
                Err(e) => Err(e),
                Ok(d) => Ok(ds.update(k - 1, d)),
            },
        }
    }
}

/// The network after both directions of the first `k` of `links` were
/// installed in order, or the first refusal.
pub open spec fn linked(s: NetworkView, links: Seq<Connection>, k: int) -> Result<
    NetworkView,
    ErrorView,
>
    decreases k,
{
    if k <= 0 {
        Ok(s)
    } else {
        match linked(s, links, k - 1) {
            Err(e) => Err(e),
            Ok(s1) => s1.connect_both(
                links[k - 1].mac0,
                links[k - 1].port0,
                links[k - 1].mac1,
                links[k - 1].port1,
            ),
        }
    }
}

impl NetworkView {
    /// The first device with the address `mac`.
    pub open spec fn device_at(self, mac: Mac) -> Option<NodeView> {
        match find_device(self.devices, mac, self.devices.len() as int) {
            Some(i) => Some(self.devices[i]),
            None => None,
        }
    }

    /// Every device meets its invariant.
    pub open spec fn wf(self) -> bool {
        forall|i: int| 0 <= i < self.devices.len() ==> (#[trigger] self.devices[i]).wf()
    }

    /// The network with one more directed link, or the reason why the link
    /// is refused: the device `mac0` is unknown or lacks `port0`, a link
    /// starts at that port already, or both ends are the same device.
    pub open spec fn connect(self, mac0: Mac, port0: Port, mac1: Mac, port1: Port) -> Result<
        NetworkView,
        ErrorView,
    > {
        match find_device(self.devices, mac0, self.devices.len() as int) {
            None => Err(ErrorView::DeviceNotFound { mac: mac0 }),
            Some(i) => if port0.value >= self.devices[i].base().num_ports {
                Err(
                    ErrorView::NetworkConnectFailed {
                        mac0,
                        mac1,
                        msg: "port exceeds the number of ports"@,
                    },
                )
            } else if find_link(self.connections, mac0, port0, self.connections.len() as int)
                is Some {
                Err(ErrorView::NetworkConnectFailed { mac0, mac1, msg: "port already connected"@ })
            } else if mac0 == mac1 {
                Err(ErrorView::NetworkConnectFailed { mac0, mac1, msg: "same mac address"@ })
            } else {
                Ok(
                    NetworkView {
                        connections: self.connections.push(Connection { mac0, port0, mac1, port1 }),
                        ..self
                    },
                )
            },
        }
    }

    /// The network with the links of both directions between two ports, or
    /// the reason why one of them is refused.
    pub open spec fn connect_both(self, mac0: Mac, port0: Port, mac1: Mac, port1: Port) -> Result<
        NetworkView,
        ErrorView,
    > {
        match self.connect(mac0, port0, mac1, port1) {
            Err(e) => Err(e),
            Ok(s) => s.connect(mac1, port1, mac0, port0),
        }
    }

    /// The network after the tick `t`: first every device in turn puts one
    /// byte on the wire, then every device in turn runs for the tick.
    pub open spec fn tick(self, t: usize) -> Result<NetworkView, ErrorView> {
        match deliver(self.devices, self.connections, self.devices.len() as int) {
            Err(e) => Err(e),
            Ok(ds) => match update_devices(ds, t, ds.len() as int) {
                Err(e) => Err(e),
                Ok(ds1) => Ok(NetworkView { devices: ds1, ..self }),
            },
        }
    }

    /// The network after the ticks `0` to `n - 1`, or the first error.
    pub open spec fn run(self, n: nat) -> Result<NetworkView, ErrorView>
        decreases n,
    {
        if n == 0 {
            Ok(self)
        } else {
            match self.run((n - 1) as nat) {
                Err(e) => Err(e),
                Ok(s) => s.tick((n - 1) as usize),
            }
        }
    }
}

pub struct Network {
    devices: Vec<Node>,
    connections: Vec<Connection>,
}

impl View for Network {
    type V = NetworkView;

    closed spec fn view(&self) -> NetworkView {
        NetworkView { devices: nodes_view(self.devices@), connections: self.connections@ }
    }
}

impl Network {
    /// Every device of the network meets its invariant.
    pub closed spec fn wf(&self) -> bool {
        forall|i: int| 0 <= i < self.devices@.len() ==> (#[trigger] self.devices@[i]).wf()
    }

    /// In a network that meets its invariant, every device has a
    /// well-formed state.
    pub proof fn lemma_wf(&self)
        requires
            self.wf(),
        ensures
            self@.wf(),
    {
        assert forall|i: int| 0 <= i < self@.devices.len() implies (#[trigger] self@.devices[i]).wf() by {
            lemma_node_wf(&self.devices@[i]);
        }
    }

    /// A network of `devices` with the links `medias`.
    pub fn new(devices: Vec<Node>, medias: Vec<Connection>) -> (nw: Network)
        requires
            forall|i: int| 0 <= i < devices@.len() ==> (#[trigger] devices@[i]).wf(),
        ensures
            nw.wf(),
            nw@ == (NetworkView { devices: nodes_view(devices@), connections: medias@ }),
    {
        Network { devices, connections: medias }
    }

    /// The number of devices.
    pub fn len(&self) -> (n: usize)
        ensures
            n == self@.devices.len(),
    {
        self.devices.len()
    }

    fn find_index(&self, mac: Mac) -> (r: Option<usize>)
        requires
            self.wf(),
        ensures
            match find_device(self@.devices, mac, self@.devices.len() as int) {
                Some(i) => (r matches Some(j) && j == i) && 0 <= i < self.devices@.len(),
                None => r.is_none(),
            },
    {
        let mut i: usize = 0;
        while i < self.devices.len()
            invariant
                i <= self.devices.len(),
                self.wf(),
                find_device(self@.devices, mac, i as int).is_none(),
            decreases self.devices.len() - i,
        {
            proof {
                lemma_node_wf(&self.devices@[i as int]);
            }
            if self.devices[i].get_mac() == mac {
                proof {
                    lemma_device_found(self@.devices, mac, i as int + 1, self@.devices.len() as int);
                }
                return Some(i);
            }
            i = i + 1;
        }
        None
    }

    /// The first device with the address `mac`.
    pub fn get_device(&self, mac: Mac) -> (r: Res<&Node>)
        requires
            self.wf(),
        ensures
            match find_device(self@.devices, mac, self@.devices.len() as int) {
                Some(i) => r matches Ok(d) && d@ == self@.devices[i] && d.wf(),
                None => r matches Err(e) && e@ == (ErrorView::DeviceNotFound { mac }),
            },
    {
        match self.find_index(mac) {
            Some(i) => {
                assert(self@.devices[i as int] == self.devices@[i as int]@);
                Ok(&self.devices[i])
            },
            None => Err(Error::DeviceNotFound { mac }),
        }
    }

    /// The byte host with the address `mac`. It is an error if the first
    /// device with this address is of another kind.
    pub fn get_byte_host(&self, mac: Mac) -> (r: Res<&ByteHost>)
        requires
            self.wf(),
        ensures
            match self@.device_at(mac) {
                Some(NodeView::ByteHost(h)) => r matches Ok(d) && d@ == h,
                _ => r matches Err(e) && e@ == (ErrorView::DeviceNotFound { mac }),
            },
    {
        match self.get_device(mac) {
            Ok(Node::ByteHost(d)) => Ok(d),
            _ => Err(Error::DeviceNotFound { mac }),
        }
    }

    /// The Ethernet host with the address `mac`. It is an error if the
    /// first device with this address is of another kind.
    pub fn get_ethernet_host(&self, mac: Mac) -> (r: Res<&EthernetHost>)
        requires
            self.wf(),
        ensures
            match self@.device_at(mac) {
                Some(NodeView::EthernetHost(h, handler)) => r matches Ok(d) && d@ == h && d.handler()
                    == handler,
                _ => r matches Err(e) && e@ == (ErrorView::DeviceNotFound { mac }),
            },
    {
        match self.get_device(mac) {
            Ok(Node::EthernetHost(d)) => Ok(d),
            _ => Err(Error::DeviceNotFound { mac }),
        }
    }

    /// The Ethernet switch with the address `mac`. It is an error if the
    /// first device with this address is of another kind.
    pub fn get_ethernet_switch(&self, mac: Mac) -> (r: Res<&EthernetSwitch>)
        requires
            self.wf(),
        ensures
            match self@.device_at(mac) {
                Some(NodeView::EthernetSwitch(h, device_type)) => r matches Ok(d) && d@ == h
                    && d.device_type() == device_type,
                _ => r matches Err(e) && e@ == (ErrorView::DeviceNotFound { mac }),
            },
    {
        match self.get_device(mac) {
            Ok(Node::EthernetSwitch(d)) => Ok(d),
            _ => Err(Error::DeviceNotFound { mac }),
        }
    }

    /// The IP host with the address `mac`. It is an error if the first
    /// device with this address is of another kind.
    pub fn get_ip_host(&self, mac: Mac) -> (r: Res<&IpHost>)
        requires
            self.wf(),
        ensures
            match self@.device_at(mac) {
                Some(NodeView::IpHost(h)) => r matches Ok(d) && d@ == h,
                _ => r matches Err(e) && e@ == (ErrorView::DeviceNotFound { mac }),
            },
    {
        match self.get_device(mac) {
            Ok(Node::IpHost(d)) => Ok(d),
            _ => Err(Error::DeviceNotFound { mac }),
        }
    }

    /// The router with the address `mac`. It is an error if the first
    /// device with this address is of another kind.
    pub fn get_router(&self, mac: Mac) -> (r: Res<&Router>)
        requires
            self.wf(),
        ensures
            match self@.device_at(mac) {
                Some(NodeView::Router(h)) => r matches Ok(d) && d@ == h,
                _ => r matches Err(e) && e@ == (ErrorView::DeviceNotFound { mac }),
            },
    {
        match self.get_device(mac) {
            Ok(Node::Router(d)) => Ok(d),
            _ => Err(Error::DeviceNotFound { mac }),
        }
    }

    /// The TCP host with the address `mac`. It is an error if the first
    /// device with this address is of another kind.
    pub fn get_tcp_host(&self, mac: Mac) -> (r: Res<&TcpHost>)
        requires
            self.wf(),
        ensures
            match self@.device_at(mac) {
                Some(NodeView::TcpHost(h)) => r matches Ok(d) && d@ == h,
                _ => r matches Err(e) && e@ == (ErrorView::DeviceNotFound { mac }),
            },
    {
        match self.get_device(mac) {
            Ok(Node::TcpHost(d)) => Ok(d),
            _ => Err(Error::DeviceNotFound { mac }),
        }
    }

    /// Installs both directions of every link of `links`, in order, and
    /// stops at the first that is refused.
    pub fn connect_all(&mut self, links: &Vec<Connection>) -> (r: Res<()>)
        requires
            old(self).wf(),
        ensures
            final(self).wf(),
            match linked(old(self)@, links@, links@.len() as int) {
                Ok(s) => r is Ok && final(self)@ == s,
                Err(e) => r matches Err(got) && got@ == e,
            },
    {
        let mut k: usize = 0;
        while k < links.len()
            invariant
                k <= links.len(),
                self.wf(),
                linked(old(self)@, links@, k as int) == Ok::<NetworkView, ErrorView>(self@),
            decreases links.len() - k,
        {
            let c = links[k];
            match self.connect_both(c.mac0, c.port0, c.mac1, c.port1) {
                Ok(()) => {},
                Err(e) => {
                    proof {
                        lemma_linked_failed(old(self)@, links@, k as int + 1, links@.len() as int);
                    }
                    return Err(e);
                },
            }
            k = k + 1;
        }
        Ok(())
    }

    /// The far end of the link that starts at `port` of the device `mac`.
    pub fn find_connection(&self, mac: Mac, port: Port) -> (r: Res<(Mac, Port)>)
        ensures
            match find_link(self@.connections, mac, port, self@.connections.len() as int) {
                Some(end) => r == Ok::<(Mac, Port), Error>(end),
                None => r matches Err(e) && e@ == (ErrorView::ConnectionNotFound { mac, port }),
            },
    {
        let mut i: usize = 0;
        while i < self.connections.len()
            invariant
                i <= self.connections.len(),
                find_link(self@.connections, mac, port, i as int).is_none(),
            decreases self.connections.len() - i,
        {
            let c = self.connections[i];
            if c.mac0 == mac && c.port0 == port {
                proof {
                    lemma_link_found(
                        self@.connections,
                        mac,
                        port,
                        i as int + 1,
                        self@.connections.len() as int,
                    );
                }
                return Ok((c.mac1, c.port1));
            }
            i = i + 1;
        }
        Err(Error::ConnectionNotFound { mac, port })
    }

    /// Installs the directed link from `port0` of `mac0` to `port1` of
    /// `mac1`. A refused link leaves the network as it was.
    pub fn connect(&mut self, mac0: Mac, port0: Port, mac1: Mac, port1: Port) -> (r: Res<()>)
        requires
            old(self).wf(),
        ensures
            final(self).wf(),
            match old(self)@.connect(mac0, port0, mac1, port1) {
                Ok(s) => r is Ok && final(self)@ == s,
                Err(e) => (r matches Err(got) && got@ == e) && final(self)@ == old(self)@,
            },
            single_source(old(self)@.connections) ==> single_source(final(self)@.connections),
    {
        let i = match self.find_index(mac0) {
            Some(i) => i,
            None => {
                return Err(Error::DeviceNotFound { mac: mac0 });
            },
        };
        proof {
            lemma_node_wf(&self.devices@[i as int]);
            assert(self@.devices[i as int] == self.devices@[i as int]@);
        }
        if port0.value as usize >= self.devices[i].get_num_ports() {
            return Err(
                Error::NetworkConnectFailed {
                    mac0,
                    mac1,
                    msg: "port exceeds the number of ports".to_string(),
                },
            );
        }
        match self.find_connection(mac0, port0) {
            Ok(_) => {
                return Err(
                    Error::NetworkConnectFailed {
                        mac0,
                        mac1,
                        msg: "port already connected".to_string(),
                    },
                );
            },
            Err(_) => {},
        }
        if mac0 == mac1 {
            return Err(
                Error::NetworkConnectFailed { mac0, mac1, msg: "same mac address".to_string() },
            );
        }
        proof {
            lemma_no_link_from(old(self)@.connections, mac0, port0, old(self)@.connections.len() as int);
        }
        self.connections.push(Connection { mac0, port0, mac1, port1 });
        Ok(())
    }

    /// Installs the links of both directions between `port0` of `mac0` and
    /// `port1` of `mac1`. If either is refused the network stays as it was.
    pub fn connect_both(&mut self, mac0: Mac, port0: Port, mac1: Mac, port1: Port) -> (r: Res<()>)
        requires
            old(self).wf(),
        ensures
            final(self).wf(),
            match old(self)@.connect_both(mac0, port0, mac1, port1) {
                Ok(s) => r is Ok && final(self)@ == s,
                Err(e) => (r matches Err(got) && got@ == e) && final(self)@ == old(self)@,
            },
            r is Ok ==> has_link(final(self)@.connections, mac0, port0, mac1, port1) && has_link(
                final(self)@.connections,
                mac1,
                port1,
                mac0,
                port0,
            ),
            single_source(old(self)@.connections) ==> single_source(final(self)@.connections),
    {
        match self.connect(mac0, port0, mac1, port1) {
            Ok(()) => {},
            Err(e) => {
                return Err(e);
            },
        }
        match self.connect(mac1, port1, mac0, port0) {
            Ok(()) => {
                proof {
                    lemma_connect_both_links(old(self)@, mac0, port0, mac1, port1);
                }
                Ok(())
            },
            Err(e) => {
                self.connections.pop();
                proof {
                    assert(self@.connections =~= old(self)@.connections);
                }
                Err(e)
            },
        }
    }

    /// The first phase of a tick: every device in turn puts one byte on
    /// the wire.
    pub fn deliver(&mut self) -> (r: Res<()>)
        requires
            old(self).wf(),
        ensures
            final(self).wf(),
            final(self)@.connections == old(self)@.connections,
            final(self)@.devices.len() == old(self)@.devices.len(),
            match deliver(old(self)@.devices, old(self)@.connections, old(self)@.devices.len() as int) {
                Ok(ds) => r is Ok && final(self)@.devices == ds,
                Err(e) => r matches Err(got) && got@ == e,
            },
    {
        let n = self.devices.len();
        let mut idx: usize = 0;
        while idx < n
            invariant
                idx <= n,
                n == self.devices@.len(),
                n == old(self)@.devices.len(),
                self.wf(),
                self@.connections == old(self)@.connections,
                deliver(old(self)@.devices, old(self)@.connections, idx as int) == Ok::<
                    Seq<NodeView>,
                    ErrorView,
                >(self@.devices),
            decreases n - idx,
        {
            let ghost before = self@.devices;
            proof {
                lemma_node_wf(&self.devices@[idx as int]);
            }
            let src_mac = self.devices[idx].get_mac();
            let sent = self.devices[idx].pop_send();
            proof {
                assert(self@.devices =~= (if before[idx as int].base().send.len() == 0 {
                    before
                } else {
                    before.update(idx as int, before[idx as int].drop_send())
                }));
            }
            match sent {
                None => {},
                Some((src_port, x)) => {
                    let ghost taken = self@.devices;
                    let (dst_mac, dst_port) = match self.find_connection(src_mac, src_port) {
                        Ok(end) => end,
                        Err(e) => {
                            proof {
                                lemma_deliver_failed(
                                    old(self)@.devices,
                                    old(self)@.connections,
                                    idx as int + 1,
                                    n as int,
                                );
                            }
                            return Err(e);
                        },
                    };
                    let j = match self.find_index(dst_mac) {
                        Some(j) => j,
                        None => {
                            proof {
                                lemma_deliver_failed(
                                    old(self)@.devices,
                                    old(self)@.connections,
                                    idx as int + 1,
                                    n as int,
                                );
                            }
                            return Err(Error::DeviceNotFound { mac: dst_mac });
                        },
                    };
                    proof {
                        lemma_node_wf(&self.devices@[j as int]);
                    }
                    if dst_port.value as usize >= self.devices[j].get_num_ports() {
                        proof {
                            lemma_deliver_failed(
                                old(self)@.devices,
                                old(self)@.connections,
                                idx as int + 1,
                                n as int,
                            );
                        }
                        return Err(Error::ConnectionNotFound { mac: dst_mac, port: dst_port });
                    }
                    self.devices[j].push_recv(dst_port, x);
                    proof {
                        assert(self@.devices =~= taken.update(
                            j as int,
                            taken[j as int].push_recv(dst_port, x),
                        ));
                    }
                },
            }
            idx = idx + 1;
        }
        Ok(())
    }

    /// The second phase of a tick: every device in turn runs for the tick
    /// `t`.
    pub fn update_devices(&mut self, t: usize) -> (r: Res<()>)
        requires
            old(self).wf(),
        ensures
            final(self).wf(),
            final(self)@.connections == old(self)@.connections,
            final(self)@.devices.len() == old(self)@.devices.len(),
            match update_devices(old(self)@.devices, t, old(self)@.devices.len() as int) {
                Ok(ds) => r is Ok && final(self)@.devices == ds,
                Err(e) => r matches Err(got) && got@ == e,
            },
    {
        let n = self.devices.len();
        let ctx = UpdateContext { t };
        let mut idx: usize = 0;
        while idx < n
            invariant
                idx <= n,
                n == self.devices@.len(),
                n == old(self)@.devices.len(),
                ctx.t == t,
                self.wf(),
                self@.connections == old(self)@.connections,
                update_devices(old(self)@.devices, t, idx as int) == Ok::<Seq<NodeView>, ErrorView>(
                    self@.devices,
                ),
            decreases n - idx,
        {
            let ghost before = self@.devices;
            match self.devices[idx].update(&ctx) {
                Ok(()) => {
                    proof {
                        assert(self@.devices =~= before.update(idx as int, self@.devices[idx as int]));
                    }
                },
                Err(e) => {
                    proof {
                        lemma_update_failed(old(self)@.devices, t, idx as int + 1, n as int);
                    }
                    return Err(e);
                },
            }
            idx = idx + 1;
        }
        Ok(())
    }

    /// Runs the tick `t`.
    pub fn update(&mut self, t: usize) -> (r: Res<()>)
        requires
            old(self).wf(),
        ensures
            final(self).wf(),
            match old(self)@.tick(t) {
                Ok(s) => r is Ok && final(self)@ == s,
                Err(e) => r matches Err(got) && got@ == e,
            },
    {
        match self.deliver() {
            Ok(()) => self.update_devices(t),
            Err(e) => Err(e),
        }
    }

    /// Runs the ticks `0` to `maxt - 1` and stops at the first error.
    pub fn run(&mut self, maxt: usize) -> (r: Res<()>)
        requires
            old(self).wf(),
        ensures
            final(self).wf(),
            match old(self)@.run(maxt as nat) {
                Ok(s) => r is Ok && final(self)@ == s,
                Err(e) => r matches Err(got) && got@ == e,
            },
    {
        let mut t: usize = 0;
        while t < maxt
            invariant
                t <= maxt,
                self.wf(),
                old(self)@.run(t as nat) == Ok::<NetworkView, ErrorView>(self@),
            decreases maxt - t,
        {
            match self.update(t) {
                Ok(()) => {},
                Err(e) => {
                    proof {
                        lemma_run_failed(old(self)@, (t + 1) as nat, maxt as nat);
                    }
                    return Err(e);
                },
            }
            t = t + 1;
        }
        Ok(())
    }
}

/// Once a device with the address was found among the first `k`, the result
/// stays with more devices.
proof fn lemma_device_found(devices: Seq<NodeView>, mac: Mac, k: int, m: int)
    requires
        0 <= k <= m,
        find_device(devices, mac, k) is Some,
    ensures
        find_device(devices, mac, m) == find_device(devices, mac, k),
    decreases m - k,
{
    if k < m {
        lemma_device_found(devices, mac, k, m - 1);
    }
}

/// Once a link from the port was found among the first `k`, the result
/// stays with more links.
proof fn lemma_link_found(links: Seq<Connection>, mac: Mac, port: Port, k: int, m: int)
    requires
        0 <= k <= m,
        find_link(links, mac, port, k) is Some,
    ensures
        find_link(links, mac, port, m) == find_link(links, mac, port, k),
    decreases m - k,
{
    if k < m {
        lemma_link_found(links, mac, port, k, m - 1);
    }
}

/// If no link from the port is found among the first `k`, none of them
/// starts there.
proof fn lemma_no_link_from(links: Seq<Connection>, mac: Mac, port: Port, k: int)
    requires
        0 <= k <= links.len(),
        find_link(links, mac, port, k) is None,
    ensures
        forall|i: int| 0 <= i < k ==> !((#[trigger] links[i]).mac0 == mac && links[i].port0 == port),
    decreases k,
{
    if k > 0 {
        lemma_no_link_from(links, mac, port, k - 1);
    }
}

/// A refused link stays the result of installing the list.
proof fn lemma_linked_failed(s: NetworkView, links: Seq<Connection>, k: int, m: int)
    requires
        0 <= k <= m,
        linked(s, links, k) is Err,
    ensures
        linked(s, links, m) == linked(s, links, k),
    decreases m - k,
{
    if k < m {
        lemma_linked_failed(s, links, k, m - 1);
    }
}

/// An error in the first phase of a tick stays the result of the phase.
proof fn lemma_deliver_failed(devices: Seq<NodeView>, links: Seq<Connection>, k: int, m: int)
    requires
        0 <= k <= m,
        deliver(devices, links, k) is Err,
    ensures
        deliver(devices, links, m) == deliver(devices, links, k),
    decreases m - k,
{
    if k < m {
        lemma_deliver_failed(devices, links, k, m - 1);
    }
}

/// An error in the second phase of a tick stays the result of the phase.
proof fn lemma_update_failed(devices: Seq<NodeView>, t: usize, k: int, m: int)
    requires
        0 <= k <= m,
        update_devices(devices, t, k) is Err,
    ensures
        update_devices(devices, t, m) == update_devices(devices, t, k),
    decreases m - k,
{
    if k < m {
        lemma_update_failed(devices, t, k, m - 1);
    }
}

/// An error in a tick stays the result of the run.
proof fn lemma_run_failed(s: NetworkView, k: nat, m: nat)
    requires
        k <= m,
        s.run(k) is Err,
    ensures
        s.run(m) == s.run(k),
    decreases m - k,
{
    if k < m {
        lemma_run_failed(s, k, (m - 1) as nat);
    }
}

/// A lookup by address gives the first device with that address, and none
/// only if no device has it.
pub proof fn lemma_find_device_first(devices: Seq<NodeView>, mac: Mac, k: int)
    requires
        0 <= k <= devices.len(),
    ensures
        match find_device(devices, mac, k) {
            Some(i) => 0 <= i < k && devices[i].base().mac == mac && forall|j: int|
                0 <= j < i ==> (#[trigger] devices[j]).base().mac != mac,
            None => forall|j: int| 0 <= j < k ==> (#[trigger] devices[j]).base().mac != mac,
        },
    decreases k,
{
    if k > 0 {
        lemma_find_device_first(devices, mac, k - 1);
    }
}

/// A lookup by port gives the far end of the first link that starts at the
/// port, and none only if no link starts there.
pub proof fn lemma_find_link_first(links: Seq<Connection>, mac: Mac, port: Port, k: int)
    requires
        0 <= k <= links.len(),
    ensures
        match find_link(links, mac, port, k) {
            Some(end) => exists|i: int|
                0 <= i < k && (#[trigger] links[i]).mac0 == mac && links[i].port0 == port && end == (
                    links[i].mac1,
                    links[i].port1,
                ) && forall|j: int|
                    0 <= j < i ==> !((#[trigger] links[j]).mac0 == mac && links[j].port0 == port),
            None => forall|j: int|
                0 <= j < k ==> !((#[trigger] links[j]).mac0 == mac && links[j].port0 == port),
        },
    decreases k,
{
    if k > 0 {
        lemma_find_link_first(links, mac, port, k - 1);
        if find_link(links, mac, port, k - 1) is None && links[k - 1].mac0 == mac && links[k
            - 1].port0 == port {
            assert(links[k - 1].mac0 == mac);
        }
    }
}

/// Whether `after` holds the devices of `before` with their identities
/// unchanged, each in a well-formed state.
pub open spec fn same_devices(before: Seq<NodeView>, after: Seq<NodeView>) -> bool {
    &&& after.len() == before.len()
    &&& forall|i: int|
        0 <= i < after.len() ==> (#[trigger] after[i]).wf() && after[i].base().mac
            == before[i].base().mac && after[i].base().name == before[i].base().name
            && after[i].base().num_ports == before[i].base().num_ports
}

/// One device putting its byte on the wire keeps every device well formed.
pub proof fn lemma_deliver_one_wf(devices: Seq<NodeView>, links: Seq<Connection>, i: int)
    requires
        same_devices(devices, devices),
        0 <= i < devices.len(),
    ensures
        deliver_one(devices, links, i) matches Ok(ds) ==> same_devices(devices, ds),
{
    let d = devices[i];
    if d.base().send.len() > 0 {
        let (port, x) = d.base().send[0];
        lemma_node_drop_send_wf(d);
        let taken = devices.update(i, d.drop_send());
        match find_link(links, d.base().mac, port, links.len() as int) {
            None => {},
            Some((mac1, port1)) => {
                lemma_find_device_first(taken, mac1, taken.len() as int);
                match find_device(taken, mac1, taken.len() as int) {
                    None => {},
                    Some(j) => {
                        if port1.value < taken[j].base().num_ports {
                            lemma_node_push_recv_wf(taken[j], port1, x);
                        }
                    },
                }
            },
        }
    }
}

/// The first phase of a tick keeps every device well formed.
pub proof fn lemma_deliver_wf(devices: Seq<NodeView>, links: Seq<Connection>, k: int)
    requires
        same_devices(devices, devices),
        0 <= k <= devices.len(),
    ensures
        deliver(devices, links, k) matches Ok(ds) ==> same_devices(devices, ds),
    decreases k,
{
    if k > 0 {
        lemma_deliver_wf(devices, links, k - 1);
        match deliver(devices, links, k - 1) {
            Err(_) => {},
            Ok(ds) => {
                lemma_deliver_one_wf(ds, links, k - 1);
            },
        }
    }
}

/// The second phase of a tick keeps every device well formed.
pub proof fn lemma_update_devices_wf(devices: Seq<NodeView>, t: usize, k: int)
    requires
        same_devices(devices, devices),
        0 <= k <= devices.len(),
    ensures
        update_devices(devices, t, k) matches Ok(ds) ==> same_devices(devices, ds),
    decreases k,
{
    if k > 0 {
        lemma_update_devices_wf(devices, t, k - 1);
        match update_devices(devices, t, k - 1) {
            Err(_) => {},
            Ok(ds) => {
                lemma_node_update_wf(ds[k - 1], t);
            },
        }
    }
}

/// A tick keeps every device of the network well formed: in every state
/// that a run passes through, every port that a byte queue of a registered
/// device carries is below the number of ports of that device.
pub proof fn lemma_tick_wf(s: NetworkView, t: usize)
    requires
        s.wf(),
    ensures
        s.tick(t) matches Ok(s1) ==> s1.wf() && same_devices(s.devices, s1.devices) && s1.connections
            == s.connections,
{
    lemma_deliver_wf(s.devices, s.connections, s.devices.len() as int);
    match deliver(s.devices, s.connections, s.devices.len() as int) {
        Err(_) => {},
        Ok(ds) => {
            lemma_update_devices_wf(ds, t, ds.len() as int);
        },
    }
}

/// A run keeps every device of the network well formed.
pub proof fn lemma_run_wf(s: NetworkView, n: nat)
    requires
        s.wf(),
        n <= usize::MAX,
    ensures
        s.run(n) matches Ok(s1) ==> s1.wf() && same_devices(s.devices, s1.devices) && s1.connections
            == s.connections,
    decreases n,
{
    if n > 0 {
        lemma_run_wf(s, (n - 1) as nat);
        match s.run((n - 1) as nat) {
            Err(_) => {},
            Ok(s0) => {
                lemma_tick_wf(s0, (n - 1) as usize);
            },
        }
    }
}

/// Installing a link changes no device.
pub proof fn lemma_connect_keeps_devices(s: NetworkView, mac0: Mac, port0: Port, mac1: Mac, port1: Port)
    ensures
        s.connect(mac0, port0, mac1, port1) matches Ok(s1) ==> s1.devices == s.devices,
        s.connect_both(mac0, port0, mac1, port1) matches Ok(s1) ==> s1.devices == s.devices,
{
}

/// In a network whose devices meet their invariants, every port that the
/// receive queue or the send queue of a registered device carries is below
/// the number of ports of that device.
pub proof fn lemma_registered_queue_ports(s: NetworkView, d: int)
    requires
        s.wf(),
        0 <= d < s.devices.len(),
    ensures
        forall|i: int|
            0 <= i < s.devices[d].base().recv.len() ==> (#[trigger] s.devices[d].base().recv[i]).0.value
                < s.devices[d].base().num_ports,
        forall|i: int|
            0 <= i < s.devices[d].base().send.len() ==> (#[trigger] s.devices[d].base().send[i]).0.value
                < s.devices[d].base().num_ports,
{
    lemma_node_queue_ports(s.devices[d]);
}

/// After both directions of a link were installed, both directed links
/// exist.
pub proof fn lemma_connect_both_links(s: NetworkView, mac0: Mac, port0: Port, mac1: Mac, port1: Port)
    requires
        s.connect_both(mac0, port0, mac1, port1) is Ok,
    ensures
        ({
            let links = s.connect_both(mac0, port0, mac1, port1)->Ok_0.connections;
            &&& has_link(links, mac0, port0, mac1, port1)
            &&& has_link(links, mac1, port1, mac0, port0)
            &&& links == s.connections.push(Connection { mac0, port0, mac1, port1 }).push(
                Connection { mac0: mac1, port0: port1, mac1: mac0, port1: port0 },
            )
        }),
{
    let links = s.connect_both(mac0, port0, mac1, port1)->Ok_0.connections;
    let n = s.connections.len() as int;
    assert(links[n] == Connection { mac0, port0, mac1, port1 });
    assert(links[n + 1] == Connection { mac0: mac1, port0: port1, mac1: mac0, port1: port0 });
}

} // verus!
