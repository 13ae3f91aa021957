//! A device with one receive queue and one send queue of bytes for each of
//! its ports, and an operation that decides what the received bytes lead
//! to: a host keeps them, a hub stores them and forwards them to all other
//! ports.
use vstd::prelude::*;
use std::collections::VecDeque;

verus! {

/// Why a device refused a request.
#[derive(Debug, Clone, Copy, PartialEq, Eq, Structural)]
pub enum DeviceErrorKind {
    /// The device has no port with this number.
    InvalidPort { port: usize },
}

/// A refused request, with the device that refused it.
#[derive(Debug)]
pub struct DeviceError {
    pub mac: usize,
    pub name: String,
    pub kind: DeviceErrorKind,
}

/// A [`DeviceError`] with its text as a sequence of characters.
pub struct DeviceErrorView {
    pub mac: usize,
    pub name: Seq<char>,
    pub kind: DeviceErrorKind,
}

impl View for DeviceError {
    type V = DeviceErrorView;

    open spec fn view(&self) -> DeviceErrorView {
        DeviceErrorView { mac: self.mac, name: self.name@, kind: self.kind }
    }
}

pub type Res<T> = Result<T, DeviceError>;

/// The bytes to send, each list with the port that it is for.
pub open spec fn outputs_view(out: Seq<(usize, Vec<u8>)>) -> Seq<(usize, Seq<u8>)> {
    out.map_values(|e: (usize, Vec<u8>)| (e.0, e.1@))
}

/// The rule of a device: what follows from the bytes that wait at a port.
pub trait DeviceOperation {
    /// The bytes to send for the bytes `rbuf` that wait at `port` of a
    /// device with `num_ports` ports. An empty result leaves `rbuf` waiting.
    spec fn spec_apply(&self, num_ports: nat, port: nat, rbuf: Seq<u8>) -> Seq<(usize, Seq<u8>)>;

    /// Every list of the result is for a port of the device.
    proof fn lemma_apply_ports(&self, num_ports: nat, port: nat, rbuf: Seq<u8>)
        requires
            port < num_ports,
        ensures
            forall|i: int|
                0 <= i < self.spec_apply(num_ports, port, rbuf).len() ==> (#[trigger] self.spec_apply(
                    num_ports,
                    port,
                    rbuf,
                )[i]).0 < num_ports,
    ;

    fn apply(&mut self, mac: usize, num_ports: usize, port: usize, rbuf: &VecDeque<u8>) -> (r: Res<
        Vec<(usize, Vec<u8>)>,
    >)
        requires
            port < num_ports,
        ensures
            r matches Ok(out) && outputs_view(out@) == old(self).spec_apply(
                num_ports as nat,
                port as nat,
                rbuf@,
            ),
            final(self).spec_apply(num_ports as nat, port as nat, rbuf@) == old(self).spec_apply(
                num_ports as nat,
                port as nat,
                rbuf@,
            ),
    ;
}

/// The rule of a hub: once `store_size` bytes wait at a port, all of them
/// go to every other port.
#[derive(Debug, Clone, Copy, PartialEq, Eq, Structural)]
pub struct Hub {
    pub store_size: usize,
}

/// The rule of a host: what it receives stays in its receive queue.
#[derive(Debug, Clone, Copy, PartialEq, Eq, Structural)]
pub struct Host {}

/// The bytes `rbuf` once for each port below `k` other than `port`, in
/// rising order of the ports.
pub open spec fn to_other_ports(k: nat, port: nat, rbuf: Seq<u8>) -> Seq<(usize, Seq<u8>)>
    decreases k,
{
    if k == 0 {
        Seq::empty()
    } else if k - 1 == port {
        to_other_ports((k - 1) as nat, port, rbuf)
    } else {
        to_other_ports((k - 1) as nat, port, rbuf).push(((k - 1) as usize, rbuf))
    }
}

/// Every entry of `to_other_ports` is for a port below `k`.
pub proof fn lemma_other_ports_below(k: nat, port: nat, rbuf: Seq<u8>)
    requires
        k <= usize::MAX,
    ensures
        forall|i: int|
            0 <= i < to_other_ports(k, port, rbuf).len() ==> (#[trigger] to_other_ports(
                k,
                port,
                rbuf,
            )[i]).0 < k,
    decreases k,
{
    if k > 0 {
        lemma_other_ports_below((k - 1) as nat, port, rbuf);
        let rest = to_other_ports((k - 1) as nat, port, rbuf);
        assert forall|i: int| 0 <= i < to_other_ports(k, port, rbuf).len() implies (
        #[trigger] to_other_ports(k, port, rbuf)[i]).0 < k by {
            if i < rest.len() {
                assert(to_other_ports(k, port, rbuf)[i] == rest[i]);
            }
        }
    }
}

fn copy_queue(rbuf: &VecDeque<u8>) -> (r: Vec<u8>)
    ensures
        r@ == rbuf@,
{
    let mut r: Vec<u8> = Vec::new();
    let mut i: usize = 0;
    while i < rbuf.len()
        invariant
            i <= rbuf.len(),
            r@ == rbuf@.subrange(0, i as int),
        decreases rbuf.len() - i,
    {
        r.push(rbuf[i]);
        i = i + 1;
        assert(r@ =~= rbuf@.subrange(0, i as int));
    }
    assert(rbuf@.subrange(0, rbuf@.len() as int) =~= rbuf@);
    r
}

impl DeviceOperation for Hub {
    open spec fn spec_apply(&self, num_ports: nat, port: nat, rbuf: Seq<u8>) -> Seq<(usize, Seq<u8>)> {
        if rbuf.len() >= self.store_size && num_ports <= usize::MAX {
            to_other_ports(num_ports, port, rbuf)
        } else {
            Seq::empty()
        }
    }

    proof fn lemma_apply_ports(&self, num_ports: nat, port: nat, rbuf: Seq<u8>) {
        if num_ports <= usize::MAX {
            lemma_other_ports_below(num_ports, port, rbuf);
        }
    }

    fn apply(&mut self, _mac: usize, num_ports: usize, port: usize, rbuf: &VecDeque<u8>) -> (r: Res<
        Vec<(usize, Vec<u8>)>,
    >)
        ensures
            *final(self) == *old(self),
    {
        let mut res: Vec<(usize, Vec<u8>)> = Vec::new();
        let rlen = rbuf.len();
        if rlen >= self.store_size {
            let mut p2: usize = 0;
            proof {
                assert(outputs_view(res@) =~= to_other_ports(0, port as nat, rbuf@));
            }
            while p2 < num_ports
                invariant
                    p2 <= num_ports,
                    outputs_view(res@) == to_other_ports(p2 as nat, port as nat, rbuf@),
                decreases num_ports - p2,
            {
                if p2 != port {
                    let sbuf = copy_queue(rbuf);
                    let ghost before = res@;
                    res.push((p2, sbuf));
                    proof {
                        assert(outputs_view(res@) =~= outputs_view(before).push((p2, rbuf@)));
                    }
                }
                p2 = p2 + 1;
            }
        } else {
            proof {
                assert(outputs_view(res@) =~= Seq::empty());
            }
        }
        Ok(res)
    }
}

impl DeviceOperation for Host {
    open spec fn spec_apply(&self, num_ports: nat, port: nat, rbuf: Seq<u8>) -> Seq<(usize, Seq<u8>)> {
        Seq::empty()
    }

    proof fn lemma_apply_ports(&self, num_ports: nat, port: nat, rbuf: Seq<u8>) {
    }

    fn apply(&mut self, _mac: usize, _num_ports: usize, _port: usize, _rbuf: &VecDeque<u8>) -> (r:
        Res<Vec<(usize, Vec<u8>)>>)
        ensures
            *final(self) == *old(self),
    {
        let res: Vec<(usize, Vec<u8>)> = Vec::new();
        proof {
            assert(outputs_view(res@) =~= Seq::empty());
        }
        Ok(res)
    }
}

/// The rule of a device, one of those that the library knows.
#[derive(Debug, Clone, Copy, PartialEq, Eq, Structural)]
pub enum Operation {
    Host(Host),
    Hub(Hub),
}

impl DeviceOperation for Operation {
    open spec fn spec_apply(&self, num_ports: nat, port: nat, rbuf: Seq<u8>) -> Seq<(usize, Seq<u8>)> {
        match *self {
            Operation::Host(op) => op.spec_apply(num_ports, port, rbuf),
            Operation::Hub(op) => op.spec_apply(num_ports, port, rbuf),
        }
    }

    proof fn lemma_apply_ports(&self, num_ports: nat, port: nat, rbuf: Seq<u8>) {
        match *self {
            Operation::Host(op) => op.lemma_apply_ports(num_ports, port, rbuf),
            Operation::Hub(op) => op.lemma_apply_ports(num_ports, port, rbuf),
        }
    }

    fn apply(&mut self, mac: usize, num_ports: usize, port: usize, rbuf: &VecDeque<u8>) -> (r: Res<
        Vec<(usize, Vec<u8>)>,
    >)
        ensures
            *final(self) == *old(self),
    {
        match self {
            Operation::Host(op) => op.apply(mac, num_ports, port, rbuf),
            Operation::Hub(op) => op.apply(mac, num_ports, port, rbuf),
        }
    }
}

/// The state of a [`Device`]: for each port the bytes received and the
/// bytes to send, oldest first.
pub struct DeviceView {
    pub mac: usize,
    pub name: Seq<char>,
    pub num_ports: nat,
    pub recv: Seq<Seq<u8>>,
    pub send: Seq<Seq<u8>>,
    pub op: Operation,
}

/// The send queues after the first `k` lists of `out` were appended, each
/// to the queue of its port.
pub open spec fn spread(send: Seq<Seq<u8>>, out: Seq<(usize, Seq<u8>)>, k: int) -> Seq<Seq<u8>>
    decreases k,
{
    if k <= 0 {
        send
    } else {
        let before = spread(send, out, k - 1);
        let (p, bytes) = out[k - 1];
        before.update(p as int, before[p as int] + bytes)
    }
}

impl DeviceView {
    /// Every port has its two queues.
    pub open spec fn wf(self) -> bool {
        self.recv.len() == self.num_ports && self.send.len() == self.num_ports
    }

    /// The error of this device for the port `port`.
    pub open spec fn invalid_port(self, port: usize) -> DeviceErrorView {
        DeviceErrorView {
            mac: self.mac,
            name: self.name,
            kind: DeviceErrorKind::InvalidPort { port },
        }
    }

    /// The state after the rule was applied to the bytes that wait at
    /// `port`. If the rule gives bytes to send, they join the send queues and
    /// the receive queue of `port` is emptied.
    pub open spec fn update_port(self, port: int) -> DeviceView {
        let out = self.op.spec_apply(self.num_ports, port as nat, self.recv[port]);
        if out.len() == 0 {
            self
        } else {
            DeviceView {
                recv: self.recv.update(port, Seq::empty()),
                send: spread(self.send, out, out.len() as int),
                ..self
            }
        }
    }

    /// The state after the rule was applied to the ports below `k`, in
    /// rising order.
    pub open spec fn update_ports(self, k: int) -> DeviceView
        decreases k,
    {
        if k <= 0 {
            self
        } else {
            self.update_ports(k - 1).update_port(k - 1)
        }
    }

    /// The state after the rule was applied to every port.
    pub open spec fn update(self) -> DeviceView {
        self.update_ports(self.num_ports as int)
    }
}

/// Appending lists to queues keeps the number of queues.
pub proof fn lemma_spread_len(send: Seq<Seq<u8>>, out: Seq<(usize, Seq<u8>)>, k: int)
    requires
        0 <= k <= out.len(),
        forall|i: int| 0 <= i < out.len() ==> (#[trigger] out[i]).0 < send.len(),
    ensures
        spread(send, out, k).len() == send.len(),
    decreases k,
{
    if k > 0 {
        lemma_spread_len(send, out, k - 1);
    }
}

/// Applying the rule to ports keeps the state well formed.
pub proof fn lemma_update_ports_wf(s: DeviceView, k: int)
    requires
        s.wf(),
        0 <= k <= s.num_ports,
    ensures
        s.update_ports(k).wf(),
        s.update_ports(k).num_ports == s.num_ports,
        s.update_ports(k).op == s.op,
        s.update_ports(k).mac == s.mac,
        s.update_ports(k).name == s.name,
    decreases k,
{
    if k > 0 {
        lemma_update_ports_wf(s, k - 1);
        let s1 = s.update_ports(k - 1);
        let out = s1.op.spec_apply(s1.num_ports, (k - 1) as nat, s1.recv[k - 1]);
        s1.op.lemma_apply_ports(s1.num_ports, (k - 1) as nat, s1.recv[k - 1]);
        lemma_spread_len(s1.send, out, out.len() as int);
    }
}

pub struct Device {
    mac: usize,
    name: String,
    num_ports: usize,
    receive_buf: Vec<VecDeque<u8>>,
    send_buf: Vec<VecDeque<u8>>,
    device_op: Operation,
}

/// The queues of a device, each by its view.
pub open spec fn queues_view(queues: Seq<VecDeque<u8>>) -> Seq<Seq<u8>> {
    queues.map_values(|q: VecDeque<u8>| q@)
}

impl View for Device {
    type V = DeviceView;

    closed spec fn view(&self) -> DeviceView {
        DeviceView {
            mac: self.mac,
            name: self.name@,
            num_ports: self.num_ports as nat,
            recv: queues_view(self.receive_buf@),
            send: queues_view(self.send_buf@),
            op: self.device_op,
        }
    }
}

fn empty_queues(n: usize) -> (queues: Vec<VecDeque<u8>>)
    ensures
        queues_view(queues@) == Seq::new(n as nat, |i: int| Seq::<u8>::empty()),
{
    let mut queues: Vec<VecDeque<u8>> = Vec::new();
    let mut i: usize = 0;
    while i < n
        invariant
            i <= n,
            queues@.len() == i,
            forall|j: int| 0 <= j < i ==> (#[trigger] queues@[j])@ == Seq::<u8>::empty(),
        decreases n - i,
    {
        queues.push(VecDeque::new());
        i = i + 1;
    }
    assert(queues_view(queues@) =~= Seq::new(n as nat, |i: int| Seq::<u8>::empty()));
    queues
}

/// The state of a device that has seen nothing yet.
pub open spec fn fresh_device(mac: usize, name: Seq<char>, num_ports: nat, op: Operation) -> DeviceView {
    DeviceView {
        mac,
        name,
        num_ports,
        recv: Seq::new(num_ports, |i: int| Seq::<u8>::empty()),
        send: Seq::new(num_ports, |i: int| Seq::<u8>::empty()),
        op,
    }
}

impl Device {
    pub fn new(mac: usize, name: &str, num_ports: usize, device_fn: Operation) -> (d: Device)
        ensures
            d@.wf(),
            d@ == fresh_device(mac, name@, num_ports as nat, device_fn),
    {
        Device {
            mac,
            name: name.to_string(),
            num_ports,
            receive_buf: empty_queues(num_ports),
            send_buf: empty_queues(num_ports),
            device_op: device_fn,
        }
    }

    /// A host with one port.
    pub fn new_host(mac: usize, name: &str) -> (d: Device)
        ensures
            d@.wf(),
            d@ == fresh_device(mac, name@, 1, Operation::Host(Host {  })),
    {
        Device::new(mac, name, 1, Operation::Host(Host {  }))
    }

    /// A hub with `num_ports` ports that forwards what arrived at a port
    /// once `store_size` bytes wait there.
    pub fn new_hub(mac: usize, name: &str, num_ports: usize, store_size: usize) -> (d: Device)
        ensures
            d@.wf(),
            d@ == fresh_device(mac, name@, num_ports as nat, Operation::Hub(Hub { store_size })),
    {
        Device::new(mac, name, num_ports, Operation::Hub(Hub { store_size }))
    }

    fn error(&self, kind: DeviceErrorKind) -> (e: DeviceError)
        ensures
            e@ == (DeviceErrorView { mac: self@.mac, name: self@.name, kind }),
    {
        DeviceError { mac: self.mac, name: self.name.clone(), kind }
    }

    pub fn get_mac(&self) -> (mac: usize)
        ensures
            mac == self@.mac,
    {
        self.mac
    }

    fn check_port(&self, port: usize) -> (r: Res<()>)
        ensures
            port < self@.num_ports ==> r is Ok,
            port >= self@.num_ports ==> (r matches Err(e) && e@ == self@.invalid_port(port)),
    {
        if port >= self.num_ports {
            return Err(self.error(DeviceErrorKind::InvalidPort { port }));
        }
        Ok(())
    }

    fn push_outputs(&mut self, out: Vec<(usize, Vec<u8>)>)
        requires
            old(self)@.wf(),
            forall|i: int| 0 <= i < out@.len() ==> (#[trigger] outputs_view(out@)[i]).0 < old(
                self,
            )@.num_ports,
        ensures
            final(self)@.wf(),
            final(self)@ == (DeviceView {
                send: spread(old(self)@.send, outputs_view(out@), out@.len() as int),
                ..old(self)@
            }),
    {
        let mut k: usize = 0;
        while k < out.len()
            invariant
                k <= out.len(),
                self@.wf(),
                forall|i: int| 0 <= i < out@.len() ==> (#[trigger] outputs_view(out@)[i]).0 < old(
                    self,
                )@.num_ports,
                self@ == (DeviceView {
                    send: spread(old(self)@.send, outputs_view(out@), k as int),
                    ..old(self)@
                }),
            decreases out.len() - k,
        {
            let p = out[k].0;
            assert(outputs_view(out@)[k as int] == (p, out@[k as int].1@));
            let ghost before = self@.send;
            let mut i: usize = 0;
            proof {
                assert(before.update(p as int, before[p as int] + out@[k as int].1@.subrange(0, 0))
                    =~= before);
            }
            while i < out[k].1.len()
                invariant
                    i <= out@[k as int].1@.len(),
                    k < out.len(),
                    p == out@[k as int].0,
                    p < self.send_buf@.len(),
                    p < before.len(),
                    self@.wf(),
                    before.len() == self@.num_ports,
                    self@ == (DeviceView {
                        send: before.update(
                            p as int,
                            before[p as int] + out@[k as int].1@.subrange(0, i as int),
                        ),
                        ..old(self)@
                    }),
                decreases out@[k as int].1@.len() - i,
            {
                let b = out[k].1[i];
                let ghost queue = self.send_buf@[p as int]@;
                let ghost prev = self.send_buf@;
                assert(queue == queues_view(prev)[p as int]);
                self.send_buf[p].push_back(b);
                proof {
                    assert(queue.push(b) =~= before[p as int] + out@[k as int].1@.subrange(0, i + 1));
                    assert forall|j: int| 0 <= j < prev.len() && j != p implies self.send_buf@[j]@
                        == before[j] by {
                        assert(queues_view(prev)[j] == prev[j]@);
                    }
                    assert(queues_view(self.send_buf@) =~= before.update(
                        p as int,
                        before[p as int] + out@[k as int].1@.subrange(0, i + 1),
                    ));
                }
                i = i + 1;
            }
            proof {
                assert(out@[k as int].1@.subrange(0, i as int) =~= out@[k as int].1@);
            }
            k = k + 1;
        }
    }

    /// Applies the rule of the device to every port in turn.
    pub fn update(&mut self) -> (r: Res<()>)
        requires
            old(self)@.wf(),
        ensures
            r is Ok,
            final(self)@.wf(),
            final(self)@ == old(self)@.update(),
    {
        let mut port: usize = 0;
        while port < self.num_ports
            invariant
                port <= self.num_ports,
                self@.wf(),
                self@.num_ports == old(self)@.num_ports,
                self@ == old(self)@.update_ports(port as int),
            decreases self.num_ports - port,
        {
            let ghost before = self@;
            let res = match self.device_op.apply(
                self.mac,
                self.num_ports,
                port,
                &self.receive_buf[port],
            ) {
                Ok(res) => res,
                Err(e) => {
                    return Err(e);
                },
            };
            proof {
                assert(before.recv[port as int] == self.receive_buf@[port as int]@);
                before.op.lemma_apply_ports(before.num_ports, port as nat, before.recv[port as int]);
            }
            if res.len() > 0 {
                self.receive_buf[port].clear();
                proof {
                    assert(queues_view(self.receive_buf@) =~= before.recv.update(
                        port as int,
                        Seq::empty(),
                    ));
                }
                self.push_outputs(res);
            }
            port = port + 1;
        }
        Ok(())
    }

    /// Appends `bytes` to the send queue of `port`.
    pub fn push_to_send(&mut self, port: usize, bytes: &[u8]) -> (r: Res<()>)
        requires
            old(self)@.wf(),
        ensures
            final(self)@.wf(),
            port < old(self)@.num_ports ==> r is Ok && final(self)@ == (DeviceView {
                send: old(self)@.send.update(port as int, old(self)@.send[port as int] + bytes@),
                ..old(self)@
            }),
            port >= old(self)@.num_ports ==> (r matches Err(e) && e@ == old(self)@.invalid_port(port))
                && final(self)@ == old(self)@,
    {
        match self.check_port(port) {
            Ok(()) => {},
            Err(e) => {
                return Err(e);
            },
        }
        let ghost start = self@.send;
        let mut i: usize = 0;
        proof {
            assert(start.update(port as int, start[port as int] + bytes@.subrange(0, 0)) =~= start);
        }
        while i < bytes.len()
            invariant
                i <= bytes.len(),
                port < self.send_buf@.len(),
                port < start.len(),
                self@.wf(),
                start == old(self)@.send,
                self@ == (DeviceView {
                    send: start.update(port as int, start[port as int] + bytes@.subrange(0, i as int)),
                    ..old(self)@
                }),
            decreases bytes.len() - i,
        {
            let ghost queue = self.send_buf@[port as int]@;
            let ghost prev = self.send_buf@;
            assert(queue == queues_view(prev)[port as int]);
            self.send_buf[port].push_back(bytes[i]);
            proof {
                assert(queue.push(bytes[i as int]) =~= start[port as int] + bytes@.subrange(0, i + 1));
                assert forall|j: int| 0 <= j < prev.len() && j != port implies self.send_buf@[j]@
                    == start[j] by {
                    assert(queues_view(prev)[j] == prev[j]@);
                }
                assert(queues_view(self.send_buf@) =~= start.update(
                    port as int,
                    start[port as int] + bytes@.subrange(0, i + 1),
                ));
            }
            i = i + 1;
        }
        proof {
            assert(bytes@.subrange(0, i as int) =~= bytes@);
        }
        Ok(())
    }

    /// Takes the oldest byte from the send queue of `port`.
    pub fn send(&mut self, port: usize) -> (r: Res<Option<u8>>)
        requires
            old(self)@.wf(),
        ensures
            final(self)@.wf(),
            port >= old(self)@.num_ports ==> (r matches Err(e) && e@ == old(self)@.invalid_port(port))
                && final(self)@ == old(self)@,
            port < old(self)@.num_ports && old(self)@.send[port as int].len() == 0 ==> (r matches Ok(
                None,
            )) && final(self)@ == old(self)@,
            port < old(self)@.num_ports && old(self)@.send[port as int].len() > 0 ==> r == Ok::<
                Option<u8>,
                DeviceError,
            >(Some(old(self)@.send[port as int][0])) && final(self)@ == (DeviceView {
                send: old(self)@.send.update(port as int, old(self)@.send[port as int].drop_first()),
                ..old(self)@
            }),
    {
        match self.check_port(port) {
            Ok(()) => {},
            Err(e) => {
                return Err(e);
            },
        }
        let x = self.send_buf[port].pop_front();
        proof {
            if old(self)@.send[port as int].len() > 0 {
                assert(queues_view(self.send_buf@) =~= old(self)@.send.update(
                    port as int,
                    old(self)@.send[port as int].drop_first(),
                ));
            } else {
                assert(queues_view(self.send_buf@) =~= old(self)@.send);
            }
        }
        Ok(x)
    }

    /// Appends `value` to the receive queue of `port`.
    pub fn receive(&mut self, port: usize, value: u8) -> (r: Res<()>)
        requires
            old(self)@.wf(),
        ensures
            final(self)@.wf(),
            port < old(self)@.num_ports ==> r is Ok && final(self)@ == (DeviceView {
                recv: old(self)@.recv.update(port as int, old(self)@.recv[port as int].push(value)),
                ..old(self)@
            }),
            port >= old(self)@.num_ports ==> (r matches Err(e) && e@ == old(self)@.invalid_port(port))
                && final(self)@ == old(self)@,
    {
        match self.check_port(port) {
            Ok(()) => {},
            Err(e) => {
                return Err(e);
            },
        }
        self.receive_buf[port].push_back(value);
        proof {
            assert(queues_view(self.receive_buf@) =~= old(self)@.recv.update(
                port as int,
                old(self)@.recv[port as int].push(value),
            ));
        }
        Ok(())
    }

    /// The bytes that wait in the receive queue of `port`.
    pub fn get_receive_buf(&self, port: usize) -> (r: Res<&VecDeque<u8>>)
        requires
            self@.wf(),
        ensures
            port < self@.num_ports ==> (r matches Ok(q) && q@ == self@.recv[port as int]),
            port >= self@.num_ports ==> (r matches Err(e) && e@ == self@.invalid_port(port)),
    {
        match self.check_port(port) {
            Ok(()) => {},
            Err(e) => {
                return Err(e);
            },
        }
        Ok(&self.receive_buf[port])
    }

    /// The bytes that wait in the send queue of `port`.
    pub fn get_send_buf(&self, port: usize) -> (r: Res<&VecDeque<u8>>)
        requires
            self@.wf(),
        ensures
            port < self@.num_ports ==> (r matches Ok(q) && q@ == self@.send[port as int]),
            port >= self@.num_ports ==> (r matches Err(e) && e@ == self@.invalid_port(port)),
    {
        match self.check_port(port) {
            Ok(()) => {},
            Err(e) => {
                return Err(e);
            },
        }
        Ok(&self.send_buf[port])
    }
}

impl Host {
    /// A host device with one port.
    pub fn new(mac: usize, name: &str) -> (d: Device)
        ensures
            d@.wf(),
            d@ == fresh_device(mac, name@, 1, Operation::Host(Host {  })),
    {
        Device::new(mac, name, 1, Operation::Host(Host {  }))
    }
}

impl Hub {
    /// A hub device.
    pub fn new(mac: usize, name: &str, num_ports: usize, store_size: usize) -> (d: Device)
        ensures
            d@.wf(),
            d@ == fresh_device(mac, name@, num_ports as nat, Operation::Hub(Hub { store_size })),
    {
        Device::new(mac, name, num_ports, Operation::Hub(Hub { store_size }))
    }
}

} // verus!
