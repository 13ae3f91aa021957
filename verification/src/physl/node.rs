//! The kinds of device that a network can hold, as one type.
use vstd::prelude::*;
use crate::linkl::ethernet_device::EthernetDeviceView;
use crate::linkl::ethernet_host::{EthernetHost, EthernetNodeView, FrameHandler};
use crate::linkl::ethernet_switch::{DeviceType, EthernetSwitch};
use crate::netwl::ip_device::{IpDeviceView, IpRole};
use crate::netwl::ip_host::{IpHost, IpHostView};
use crate::netwl::router::Router;
use crate::tranl::tcp_host::{TcpHost, TcpHostView};
use crate::types::{ErrorView, Mac, Port, Res, UpdateContext};
use super::byte_host::{ByteHost, ByteHostView};
use super::device::{BaseDeviceView, Device};
use super::repeater::Repeater;

verus! {

/// A device of any kind.
pub enum Node {
    Repeater(Repeater),
    ByteHost(ByteHost),
    EthernetHost(EthernetHost),
    EthernetSwitch(EthernetSwitch),
    IpHost(IpHost),
    Router(Router),
    TcpHost(TcpHost),
}

/// The state of a [`Node`].
pub enum NodeView {
    Repeater(BaseDeviceView),
    ByteHost(ByteHostView),
    EthernetHost(EthernetNodeView, FrameHandler),
    EthernetSwitch(EthernetNodeView, DeviceType),
    IpHost(IpHostView),
    Router(IpDeviceView),
    TcpHost(TcpHostView),
}

impl NodeView {
    /// Identity and byte queues of the device.
    pub open spec fn base(self) -> BaseDeviceView {
        match self {
            NodeView::Repeater(s) => s,
            NodeView::ByteHost(s) => s.base,
            NodeView::EthernetHost(s, _) => s.eth.base,
            NodeView::EthernetSwitch(s, _) => s.eth.base,
            NodeView::IpHost(s) => s.ip.eth.base,
            NodeView::Router(s) => s.eth.base,
            NodeView::TcpHost(s) => s.ip.eth.base,
        }
    }

    /// The state with `base` in place of the identity and byte queues.
    pub open spec fn with_base(self, base: BaseDeviceView) -> NodeView {
        match self {
            NodeView::Repeater(_) => NodeView::Repeater(base),
            NodeView::ByteHost(s) => NodeView::ByteHost(ByteHostView { base, ..s }),
            NodeView::EthernetHost(s, h) => NodeView::EthernetHost(
                EthernetNodeView { eth: EthernetDeviceView { base, ..s.eth }, ..s },
                h,
            ),
            NodeView::EthernetSwitch(s, k) => NodeView::EthernetSwitch(
                EthernetNodeView { eth: EthernetDeviceView { base, ..s.eth }, ..s },
                k,
            ),
            NodeView::IpHost(s) => NodeView::IpHost(
                IpHostView {
                    ip: IpDeviceView { eth: EthernetDeviceView { base, ..s.ip.eth }, ..s.ip },
                    ..s
                },
            ),
            NodeView::Router(s) => NodeView::Router(
                IpDeviceView { eth: EthernetDeviceView { base, ..s.eth }, ..s },
            ),
            NodeView::TcpHost(s) => NodeView::TcpHost(
                TcpHostView {
                    ip: IpDeviceView { eth: EthernetDeviceView { base, ..s.ip.eth }, ..s.ip },
                    ..s
                },
            ),
        }
    }

    /// The state after the byte `x` arrived at `port`.
    pub open spec fn push_recv(self, port: Port, x: u8) -> NodeView {
        self.with_base(self.base().push_recv(port, x))
    }

    /// The state after the oldest byte to send was taken.
    pub open spec fn drop_send(self) -> NodeView {
        self.with_base(self.base().drop_send())
    }

    /// The invariant of the device, by its kind. In every kind it holds
    /// that each port in a byte queue is a port of the device.
    pub open spec fn wf(self) -> bool {
        match self {
            NodeView::Repeater(s) => s.wf() && s.num_ports == 2,
            NodeView::ByteHost(s) => s.base.wf() && s.base.num_ports == 1,
            NodeView::EthernetHost(s, _) => s.eth.wf() && s.eth.base.num_ports == 1,
            NodeView::EthernetSwitch(s, _) => s.eth.wf(),
            NodeView::IpHost(s) => s.ip.wf(),
            NodeView::Router(s) => s.wf(),
            NodeView::TcpHost(s) => s.wf(),
        }
    }

    /// The state of the device after the tick `t`, by its kind.
    pub open spec fn update(self, t: usize) -> Result<NodeView, ErrorView> {
        match self {
            NodeView::Repeater(s) => Ok(NodeView::Repeater(super::repeater::spec_update(s))),
            NodeView::ByteHost(s) => match super::byte_host::spec_update(s, t) {
                Ok(s1) => Ok(NodeView::ByteHost(s1)),
                Err(e) => Err(e),
            },
            NodeView::EthernetHost(s, h) => Ok(
                NodeView::EthernetHost(crate::linkl::ethernet_host::spec_update(s, h, t), h),
            ),
            NodeView::EthernetSwitch(s, k) => Ok(
                NodeView::EthernetSwitch(crate::linkl::ethernet_switch::spec_update(s, k, t), k),
            ),
            NodeView::IpHost(s) => match crate::netwl::ip_host::spec_update(s, t) {
                Ok(s1) => Ok(NodeView::IpHost(s1)),
                Err(e) => Err(e),
            },
            NodeView::Router(s) => match s.update(IpRole::Router, t) {
                Ok(s1) => Ok(NodeView::Router(s1)),
                Err(e) => Err(e),
            },
            NodeView::TcpHost(s) => match s.update(t) {
                Ok(s1) => Ok(NodeView::TcpHost(s1)),
                Err(e) => Err(e),
            },
        }
    }
}

/// In a device that meets its invariant, every port that a byte queue
/// carries is below the number of ports of the device.
pub proof fn lemma_node_queue_ports(s: NodeView)
    requires
        s.wf(),
    ensures
        s.base().wf(),
        forall|i: int|
            0 <= i < s.base().recv.len() ==> (#[trigger] s.base().recv[i]).0.value
                < s.base().num_ports,
        forall|i: int|
            0 <= i < s.base().send.len() ==> (#[trigger] s.base().send[i]).0.value
                < s.base().num_ports,
{
}

/// A tick keeps the state of a device of any kind well formed and its
/// identity unchanged.
pub proof fn lemma_node_update_wf(s: NodeView, t: usize)
    requires
        s.wf(),
    ensures
        s.update(t) matches Ok(s1) ==> s1.wf() && s1.base().mac == s.base().mac && s1.base().name
            == s.base().name && s1.base().num_ports == s.base().num_ports,
{
    match s {
        NodeView::Repeater(d) => super::repeater::lemma_update_wf(d),
        NodeView::ByteHost(d) => super::byte_host::lemma_update_wf(d, t),
        NodeView::EthernetHost(d, h) => crate::linkl::ethernet_host::lemma_update_wf(d, h, t),
        NodeView::EthernetSwitch(d, k) => crate::linkl::ethernet_switch::lemma_update_wf(d, k, t),
        NodeView::IpHost(d) => crate::netwl::ip_host::lemma_update_wf(d, t),
        NodeView::Router(d) => crate::netwl::ip_device::lemma_update_wf(d, IpRole::Router, t),
        NodeView::TcpHost(d) => crate::tranl::tcp_host::lemma_update_wf(d, t),
    }
}

/// A byte that arrives at a port of the device keeps its state well
/// formed.
pub proof fn lemma_node_push_recv_wf(s: NodeView, port: Port, x: u8)
    requires
        s.wf(),
        port.value < s.base().num_ports,
    ensures
        s.push_recv(port, x).wf(),
        s.push_recv(port, x).base() == s.base().push_recv(port, x),
{
}

/// Taking the next byte to send keeps the state of the device well
/// formed, and the byte leaves through a port of the device.
pub proof fn lemma_node_drop_send_wf(s: NodeView)
    requires
        s.wf(),
        s.base().send.len() > 0,
    ensures
        s.drop_send().wf(),
        s.drop_send().base() == s.base().drop_send(),
        s.base().send[0].0.value < s.base().num_ports,
{
    let q = s.base().send;
    assert forall|i: int| 0 <= i < q.drop_first().len() implies (#[trigger] q.drop_first()[i]).0.value
        < s.base().num_ports by {
        assert(q.drop_first()[i] == q[i + 1]);
    }
}

impl View for Node {
    type V = NodeView;

    open spec fn view(&self) -> NodeView {
        match self {
            Node::Repeater(d) => NodeView::Repeater(d@),
            Node::ByteHost(d) => NodeView::ByteHost(d@),
            Node::EthernetHost(d) => NodeView::EthernetHost(d@, d.handler()),
            Node::EthernetSwitch(d) => NodeView::EthernetSwitch(d@, d.device_type()),
            Node::IpHost(d) => NodeView::IpHost(d@),
            Node::Router(d) => NodeView::Router(d@),
            Node::TcpHost(d) => NodeView::TcpHost(d@),
        }
    }
}

impl Node {
    /// The byte host in this node, if it is one.
    pub fn as_byte_host(&self) -> (r: Option<&ByteHost>)
        ensures
            match *self {
                Node::ByteHost(d) => r == Some(&d),
                _ => r.is_none(),
            },
    {
        match self {
            Node::ByteHost(d) => Some(d),
            _ => None,
        }
    }

    /// The Ethernet host in this node, if it is one.
    pub fn as_ethernet_host(&self) -> (r: Option<&EthernetHost>)
        ensures
            match *self {
                Node::EthernetHost(d) => r == Some(&d),
                _ => r.is_none(),
            },
    {
        match self {
            Node::EthernetHost(d) => Some(d),
            _ => None,
        }
    }

    /// The Ethernet switch in this node, if it is one.
    pub fn as_ethernet_switch(&self) -> (r: Option<&EthernetSwitch>)
        ensures
            match *self {
                Node::EthernetSwitch(d) => r == Some(&d),
                _ => r.is_none(),
            },
    {
        match self {
            Node::EthernetSwitch(d) => Some(d),
            _ => None,
        }
    }

    /// The IP host in this node, if it is one.
    pub fn as_ip_host(&self) -> (r: Option<&IpHost>)
        ensures
            match *self {
                Node::IpHost(d) => r == Some(&d),
                _ => r.is_none(),
            },
    {
        match self {
            Node::IpHost(d) => Some(d),
            _ => None,
        }
    }

    /// The router in this node, if it is one.
    pub fn as_router(&self) -> (r: Option<&Router>)
        ensures
            match *self {
                Node::Router(d) => r == Some(&d),
                _ => r.is_none(),
            },
    {
        match self {
            Node::Router(d) => Some(d),
            _ => None,
        }
    }

    /// The TCP host in this node, if it is one.
    pub fn as_tcp_host(&self) -> (r: Option<&TcpHost>)
        ensures
            match *self {
                Node::TcpHost(d) => r == Some(&d),
                _ => r.is_none(),
            },
    {
        match self {
            Node::TcpHost(d) => Some(d),
            _ => None,
        }
    }
}

impl Device for Node {
    open spec fn base_view(&self) -> BaseDeviceView {
        match self {
            Node::Repeater(d) => d.base_view(),
            Node::ByteHost(d) => d.base_view(),
            Node::EthernetHost(d) => d.base_view(),
            Node::EthernetSwitch(d) => d.base_view(),
            Node::IpHost(d) => d.base_view(),
            Node::Router(d) => d.base_view(),
            Node::TcpHost(d) => d.base_view(),
        }
    }

    open spec fn wf(&self) -> bool {
        match self {
            Node::Repeater(d) => d.wf(),
            Node::ByteHost(d) => d.wf(),
            Node::EthernetHost(d) => d.wf(),
            Node::EthernetSwitch(d) => d.wf(),
            Node::IpHost(d) => d.wf(),
            Node::Router(d) => d.wf(),
            Node::TcpHost(d) => d.wf(),
        }
    }

    proof fn lemma_queue_ports(&self) {
    }

    fn get_mac(&self) -> (mac: Mac) {
        match self {
            Node::Repeater(d) => d.get_mac(),
            Node::ByteHost(d) => d.get_mac(),
            Node::EthernetHost(d) => d.get_mac(),
            Node::EthernetSwitch(d) => d.get_mac(),
            Node::IpHost(d) => d.get_mac(),
            Node::Router(d) => d.get_mac(),
            Node::TcpHost(d) => d.get_mac(),
        }
    }

    fn get_name(&self) -> (name: &str) {
        match self {
            Node::Repeater(d) => d.get_name(),
            Node::ByteHost(d) => d.get_name(),
            Node::EthernetHost(d) => d.get_name(),
            Node::EthernetSwitch(d) => d.get_name(),
            Node::IpHost(d) => d.get_name(),
            Node::Router(d) => d.get_name(),
            Node::TcpHost(d) => d.get_name(),
        }
    }

    fn get_num_ports(&self) -> (n: usize) {
        match self {
            Node::Repeater(d) => d.get_num_ports(),
            Node::ByteHost(d) => d.get_num_ports(),
            Node::EthernetHost(d) => d.get_num_ports(),
            Node::EthernetSwitch(d) => d.get_num_ports(),
            Node::IpHost(d) => d.get_num_ports(),
            Node::Router(d) => d.get_num_ports(),
            Node::TcpHost(d) => d.get_num_ports(),
        }
    }

    fn push_recv(&mut self, port: Port, x: u8)
        ensures
            final(self)@ == old(self)@.push_recv(port, x),
    {
        match self {
            Node::Repeater(d) => d.push_recv(port, x),
            Node::ByteHost(d) => d.push_recv(port, x),
            Node::EthernetHost(d) => d.push_recv(port, x),
            Node::EthernetSwitch(d) => d.push_recv(port, x),
            Node::IpHost(d) => d.push_recv(port, x),
            Node::Router(d) => d.push_recv(port, x),
            Node::TcpHost(d) => d.push_recv(port, x),
        }
    }

    fn pop_send(&mut self) -> (r: Option<(Port, u8)>)
        ensures
            old(self)@.base().send.len() == 0 ==> final(self)@ == old(self)@,
            old(self)@.base().send.len() > 0 ==> final(self)@ == old(self)@.drop_send(),
    {
        match self {
            Node::Repeater(d) => d.pop_send(),
            Node::ByteHost(d) => d.pop_send(),
            Node::EthernetHost(d) => d.pop_send(),
            Node::EthernetSwitch(d) => d.pop_send(),
            Node::IpHost(d) => d.pop_send(),
            Node::Router(d) => d.pop_send(),
            Node::TcpHost(d) => d.pop_send(),
        }
    }

    fn update(&mut self, ctx: &UpdateContext) -> (r: Res<()>)
        ensures
            match old(self)@.update(ctx.t) {
                Ok(s) => r is Ok && final(self)@ == s,
                Err(e) => r matches Err(got) && got@ == e,
            },
    {
        match self {
            Node::Repeater(d) => d.update(ctx),
            Node::ByteHost(d) => d.update(ctx),
            Node::EthernetHost(d) => d.update(ctx),
            Node::EthernetSwitch(d) => d.update(ctx),
            Node::IpHost(d) => d.update(ctx),
            Node::Router(d) => d.update(ctx),
            Node::TcpHost(d) => d.update(ctx),
        }
    }
}

/// A device that meets its invariant has a well-formed state, and its
/// identity and byte queues are those of its state.
pub proof fn lemma_node_wf(n: &Node)
    requires
        n.wf(),
    ensures
        n@.wf(),
        n.base_view() == n@.base(),
{
}

} // verus!
