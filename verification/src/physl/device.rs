//! The byte substrate that every device is built on: a receive queue and
//! a send queue of bytes, each byte tagged with the port it belongs to.
use vstd::prelude::*;
use std::collections::VecDeque;
use crate::types::{Mac, Port, Res, UpdateContext};

verus! {

/// The state of a [`BaseDevice`]: its identity and both queues, oldest
/// entry first.
pub struct BaseDeviceView {
    pub mac: Mac,
    pub name: Seq<char>,
    pub num_ports: nat,
    pub recv: Seq<(Port, u8)>,
    pub send: Seq<(Port, u8)>,
}

/// Whether every entry of `q` names a port below `n`.
pub open spec fn ports_below(q: Seq<(Port, u8)>, n: nat) -> bool {
    forall|i: int| 0 <= i < q.len() ==> (#[trigger] q[i]).0.value < n
}

impl BaseDeviceView {
    /// Every port that either queue carries is a port of the device.
    pub open spec fn wf(self) -> bool {
        ports_below(self.recv, self.num_ports) && ports_below(self.send, self.num_ports)
    }

    /// The state after `x` arrived at `port`.
    pub open spec fn push_recv(self, port: Port, x: u8) -> BaseDeviceView {
        BaseDeviceView { recv: self.recv.push((port, x)), ..self }
    }

    /// The state after the oldest received byte was taken.
    pub open spec fn drop_recv(self) -> BaseDeviceView {
        BaseDeviceView { recv: self.recv.drop_first(), ..self }
    }

    /// The state after `x` was queued for sending.
    pub open spec fn push_send(self, x: (Port, u8)) -> BaseDeviceView {
        BaseDeviceView { send: self.send.push(x), ..self }
    }

    /// The state after the oldest byte to send was taken.
    pub open spec fn drop_send(self) -> BaseDeviceView {
        BaseDeviceView { send: self.send.drop_first(), ..self }
    }

    /// The state after all of `xs` were queued for sending, in order.
    pub open spec fn push_send_all(self, xs: Seq<(Port, u8)>) -> BaseDeviceView {
        BaseDeviceView { send: self.send + xs, ..self }
    }

    /// The state with an empty receive queue.
    pub open spec fn clear_recv(self) -> BaseDeviceView {
        BaseDeviceView { recv: Seq::empty(), ..self }
    }
}

/// Identity and byte queues of a device. Producers append, consumers take
/// from the front.
pub struct BaseDevice {
    mac: Mac,
    name: String,
    num_ports: usize,
    recv_buf: VecDeque<(Port, u8)>,
    send_buf: VecDeque<(Port, u8)>,
}

impl View for BaseDevice {
    type V = BaseDeviceView;

    closed spec fn view(&self) -> BaseDeviceView {
        BaseDeviceView {
            mac: self.mac,
            name: self.name@,
            num_ports: self.num_ports as nat,
            recv: self.recv_buf@,
            send: self.send_buf@,
        }
    }
}

impl BaseDevice {
    pub fn new(mac: Mac, name: &str, num_ports: usize) -> (d: BaseDevice)
        ensures
            d@ == (BaseDeviceView {
                mac,
                name: name@,
                num_ports: num_ports as nat,
                recv: Seq::empty(),
                send: Seq::empty(),
            }),
            d@.wf(),
    {
        BaseDevice {
            mac,
            name: name.to_string(),
            num_ports,
            recv_buf: VecDeque::new(),
            send_buf: VecDeque::new(),
        }
    }

    pub fn get_mac(&self) -> (mac: Mac)
        ensures
            mac == self@.mac,
    {
        self.mac
    }

    pub fn get_name(&self) -> (name: &str)
        ensures
            name@ == self@.name,
    {
        self.name.as_str()
    }

    pub fn get_num_ports(&self) -> (n: usize)
        ensures
            n == self@.num_ports,
    {
        self.num_ports
    }

    /// Takes the oldest received byte, if there is one.
    pub fn recv(&mut self) -> (r: Option<(Port, u8)>)
        ensures
            old(self)@.recv.len() == 0 ==> r.is_none() && final(self)@ == old(self)@,
            old(self)@.recv.len() > 0 ==> r == Some(old(self)@.recv[0]) && final(self)@ == old(
                self,
            )@.drop_recv(),
            old(self)@.wf() ==> final(self)@.wf(),
            old(self)@.wf() ==> (r matches Some(x) ==> x.0.value < old(self)@.num_ports),
    {
        self.recv_buf.pop_front()
    }

    /// Queues `x` for sending.
    pub fn send(&mut self, x: (Port, u8))
        ensures
            final(self)@ == old(self)@.push_send(x),
            old(self)@.wf() && x.0.value < old(self)@.num_ports ==> final(self)@.wf(),
    {
        self.send_buf.push_back(x)
    }

    /// Appends `x` to the receive queue, as arrived at `port`.
    pub fn push_recv(&mut self, port: Port, x: u8)
        ensures
            final(self)@ == old(self)@.push_recv(port, x),
            old(self)@.wf() && port.value < old(self)@.num_ports ==> final(self)@.wf(),
    {
        self.recv_buf.push_back((port, x));
    }

    /// Takes the oldest byte to send, if there is one.
    pub fn pop_send(&mut self) -> (r: Option<(Port, u8)>)
        ensures
            old(self)@.send.len() == 0 ==> r.is_none() && final(self)@ == old(self)@,
            old(self)@.send.len() > 0 ==> r == Some(old(self)@.send[0]) && final(self)@ == old(
                self,
            )@.drop_send(),
            old(self)@.wf() ==> final(self)@.wf(),
            old(self)@.wf() ==> (r matches Some(x) ==> x.0.value < old(self)@.num_ports),
    {
        self.send_buf.pop_front()
    }
}

/// What the fabric asks of every device. The identity of a device never
/// changes, and as long as the fabric delivers only to ports that the device
/// has, every port in its two byte queues is one of its own.
pub trait Device {
    /// The identity and the byte queues of the device.
    spec fn base_view(&self) -> BaseDeviceView;

    /// The invariant of the device. It holds of every device that a
    /// constructor made and that only the methods below have changed.
    spec fn wf(&self) -> bool;

    /// In a device that meets its invariant, every port that a byte queue
    /// carries is below the number of ports.
    proof fn lemma_queue_ports(&self)
        requires
            self.wf(),
        ensures
            self.base_view().wf(),
    ;

    fn get_mac(&self) -> (mac: Mac)
        ensures
            mac == self.base_view().mac,
    ;

    fn get_name(&self) -> (name: &str)
        ensures
            name@ == self.base_view().name,
    ;

    fn get_num_ports(&self) -> (n: usize)
        ensures
            n == self.base_view().num_ports,
    ;

    /// Delivers the byte `x` at `port`.
    fn push_recv(&mut self, port: Port, x: u8)
        requires
            old(self).wf(),
            port.value < old(self).base_view().num_ports,
        ensures
            final(self).wf(),
            final(self).base_view() == old(self).base_view().push_recv(port, x),
    ;

    /// Takes the next byte that the device wants on the wire, with the port
    /// that it leaves through.
    fn pop_send(&mut self) -> (r: Option<(Port, u8)>)
        requires
            old(self).wf(),
        ensures
            final(self).wf(),
            old(self).base_view().send.len() == 0 ==> r.is_none() && final(self).base_view() == old(
                self,
            ).base_view(),
            old(self).base_view().send.len() > 0 ==> r == Some(old(self).base_view().send[0])
                && final(self).base_view() == old(self).base_view().drop_send(),
            r matches Some(x) ==> x.0.value < old(self).base_view().num_ports,
    ;

    /// Runs the device for the tick `ctx.t`.
    fn update(&mut self, ctx: &UpdateContext) -> (r: Res<()>)
        requires
            old(self).wf(),
        ensures
            final(self).wf(),
            final(self).base_view().mac == old(self).base_view().mac,
            final(self).base_view().name == old(self).base_view().name,
            final(self).base_view().num_ports == old(self).base_view().num_ports,
    ;
}

} // verus!
