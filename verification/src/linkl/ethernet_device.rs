//! The Ethernet framer: it gathers the bytes of each port until they make
//! a frame, learns from every frame behind which port its sender lies, and
//! sends each frame through the ports that the forwarding table gives.
use vstd::prelude::*;
use std::collections::{HashMap, VecDeque};
use crate::physl::device::{BaseDevice, BaseDeviceView};
use crate::types::{Error, ErrorView, Mac, Port, UpdateContext};
use super::ethernet_frame::{EthernetFrame, EthernetFrameView, spec_decode, spec_encode};
use super::ethernet_log::{EthernetLog, EthernetLogView, frames_view, logs_view};

verus! {

/// The state of a [`BaseEthernetDevice`].
pub struct EthernetDeviceView {
    /// Identity and byte queues.
    pub base: BaseDeviceView,
    /// The frames that were received and not yet taken, oldest first.
    pub rbuf: Seq<EthernetFrameView>,
    /// The forwarding table: for the value of an address, the port to reach it.
    pub table: Map<u64, Port>,
    /// For each port, the bytes gathered since the last frame.
    pub bufs: Seq<Seq<u8>>,
    /// Every frame received, with the tick of its last byte.
    pub rlog: Seq<EthernetLogView>,
    /// Every frame sent, with the tick at which it was queued.
    pub slog: Seq<EthernetLogView>,
}

/// The bytes `bytes`, each tagged with `port`.
pub open spec fn on_port(port: Port, bytes: Seq<u8>) -> Seq<(Port, u8)> {
    Seq::new(bytes.len(), |i: int| (port, bytes[i]))
}

/// The bytes `bytes` once for each of `ports`, port after port.
pub open spec fn wire(ports: Seq<Port>, bytes: Seq<u8>) -> Seq<(Port, u8)>
    decreases ports.len(),
{
    if ports.len() == 0 {
        Seq::empty()
    } else {
        wire(ports.drop_last(), bytes) + on_port(ports.last(), bytes)
    }
}

/// The ports below `n` in rising order, without `skip`.
pub open spec fn flood(n: nat, skip: Option<Port>) -> Seq<Port>
    decreases n,
{
    if n == 0 {
        Seq::empty()
    } else {
        let p = Port { value: (n - 1) as u32 };
        if skip == Some(p) {
            flood((n - 1) as nat, skip)
        } else {
            flood((n - 1) as nat, skip).push(p)
        }
    }
}

/// The ports through which a frame leaves. A known destination has one
/// port. Else the frame goes to every port but the one that its sender is
/// known to lie behind, and to every port if the sender is unknown too.
pub open spec fn egress_ports(table: Map<u64, Port>, n: nat, f: EthernetFrameView) -> Seq<Port> {
    if table.contains_key(f.dst.value) {
        seq![table[f.dst.value]]
    } else if table.contains_key(f.src.value) {
        flood(n, Some(table[f.src.value]))
    } else {
        flood(n, None)
    }
}

impl EthernetDeviceView {
    /// Every queued port is a port of the device, every port has its
    /// gathering buffer, and the forwarding table names only ports that the
    /// device has.
    pub open spec fn wf(self) -> bool {
        &&& self.base.wf()
        &&& self.base.num_ports <= u32::MAX
        &&& self.bufs.len() == self.base.num_ports
        &&& forall|k: u64| #[trigger]
            self.table.contains_key(k) ==> self.table[k].value < self.base.num_ports
    }

    /// The state after the byte `x` arrived at `port` during the tick `t`.
    /// The byte joins the buffer of its port. If the buffer then holds a
    /// frame, the frame is logged and queued, its sender is learned behind
    /// `port`, and the buffer starts anew. If the buffer cannot be the start
    /// of a frame, its bytes are thrown away.
    pub open spec fn absorb_byte(self, port: Port, x: u8, t: usize) -> EthernetDeviceView {
        let p = port.value as int;
        let buf = self.bufs[p].push(x);
        match spec_decode(buf) {
            Ok(f) => EthernetDeviceView {
                rbuf: self.rbuf.push(f),
                table: self.table.insert(f.src.value, port),
                bufs: self.bufs.update(p, Seq::empty()),
                rlog: self.rlog.push(EthernetLogView { t, frame: f }),
                ..self
            },
            Err(ErrorView::NotEnoughBytes) => EthernetDeviceView {
                bufs: self.bufs.update(p, buf),
                ..self
            },
            Err(_) => EthernetDeviceView { bufs: self.bufs.update(p, Seq::empty()), ..self },
        }
    }

    /// The state after the bytes of `q` arrived in order during the tick `t`.
    pub open spec fn absorb_all(self, q: Seq<(Port, u8)>, t: usize) -> EthernetDeviceView
        decreases q.len(),
    {
        if q.len() == 0 {
            self
        } else {
            self.absorb_byte(q[0].0, q[0].1, t).absorb_all(q.drop_first(), t)
        }
    }

    /// The state after the whole receive queue was read during the tick `t`.
    pub open spec fn absorb(self, t: usize) -> EthernetDeviceView {
        (EthernetDeviceView { base: self.base.clear_recv(), ..self }).absorb_all(self.base.recv, t)
    }

    /// The state after the oldest received frame was taken.
    pub open spec fn drop_frame(self) -> EthernetDeviceView {
        EthernetDeviceView { rbuf: self.rbuf.drop_first(), ..self }
    }

    /// The state after `f` was sent during the tick `t`: the frame is logged
    /// and its bytes stand in the send queue once for every egress port.
    pub open spec fn push_frame(self, f: EthernetFrameView, t: usize) -> EthernetDeviceView {
        EthernetDeviceView {
            base: self.base.push_send_all(
                wire(egress_ports(self.table, self.base.num_ports, f), spec_encode(f)),
            ),
            slog: self.slog.push(EthernetLogView { t, frame: f }),
            ..self
        }
    }

    /// The state after the table learned that `dst` lies behind `port`.
    pub open spec fn learn(self, dst: Mac, port: Port) -> EthernetDeviceView {
        EthernetDeviceView { table: self.table.insert(dst.value, port), ..self }
    }
}

/// The state of a framer that has seen nothing yet.
pub open spec fn fresh_framer(mac: Mac, name: Seq<char>, num_ports: nat) -> EthernetDeviceView {
    EthernetDeviceView {
        base: BaseDeviceView { mac, name, num_ports, recv: Seq::empty(), send: Seq::empty() },
        rbuf: Seq::empty(),
        table: Map::empty(),
        bufs: Seq::new(num_ports, |i: int| Seq::<u8>::empty()),
        rlog: Seq::empty(),
        slog: Seq::empty(),
    }
}

/// Every port of a flood is below the number of ports.
pub proof fn lemma_flood_ports(n: nat, skip: Option<Port>)
    requires
        n <= u32::MAX,
    ensures
        forall|i: int| 0 <= i < flood(n, skip).len() ==> (#[trigger] flood(n, skip)[i]).value < n,
    decreases n,
{
    if n > 0 {
        lemma_flood_ports((n - 1) as nat, skip);
        let rest = flood((n - 1) as nat, skip);
        assert forall|i: int| 0 <= i < flood(n, skip).len() implies (#[trigger] flood(n, skip)[i]).value
            < n by {
            if i < rest.len() {
                assert(flood(n, skip)[i] == rest[i]);
            }
        }
    }
}

/// A flood holds exactly the ports below `n` other than `skip`.
pub proof fn lemma_flood_contains(n: nat, skip: Option<Port>, p: Port)
    requires
        n <= u32::MAX,
    ensures
        flood(n, skip).contains(p) <==> (p.value < n && skip != Some(p)),
    decreases n,
{
    if n > 0 {
        lemma_flood_contains((n - 1) as nat, skip, p);
        let last = Port { value: (n - 1) as u32 };
        let rest = flood((n - 1) as nat, skip);
        if skip != Some(last) {
            assert(rest.push(last).last() == last);
            if rest.contains(p) {
                let i = choose|i: int| 0 <= i < rest.len() && rest[i] == p;
                assert(rest.push(last)[i] == p);
            }
            if p == last {
                assert(rest.push(last)[rest.len() as int] == p);
            }
        }
    }
}

/// Sending on ports that the device has keeps every queued port valid.
pub proof fn lemma_wire_ports(ports: Seq<Port>, bytes: Seq<u8>, n: nat)
    requires
        forall|i: int| 0 <= i < ports.len() ==> (#[trigger] ports[i]).value < n,
    ensures
        forall|i: int|
            0 <= i < wire(ports, bytes).len() ==> (#[trigger] wire(ports, bytes)[i]).0.value < n,
    decreases ports.len(),
{
    if ports.len() > 0 {
        lemma_wire_ports(ports.drop_last(), bytes, n);
        let head = wire(ports.drop_last(), bytes);
        assert forall|i: int| 0 <= i < wire(ports, bytes).len() implies (#[trigger] wire(
            ports,
            bytes,
        )[i]).0.value < n by {
            if i < head.len() {
                assert(wire(ports, bytes)[i] == head[i]);
            } else {
                assert(wire(ports, bytes)[i] == on_port(ports.last(), bytes)[i - head.len()]);
            }
        }
    }
}

/// Reading bytes keeps the state well formed.
pub proof fn lemma_absorb_all_wf(s: EthernetDeviceView, q: Seq<(Port, u8)>, t: usize)
    requires
        s.wf(),
        forall|i: int| 0 <= i < q.len() ==> (#[trigger] q[i]).0.value < s.base.num_ports,
    ensures
        s.absorb_all(q, t).wf(),
        s.absorb_all(q, t).base == s.base,
        s.absorb_all(q, t).slog == s.slog,
    decreases q.len(),
{
    if q.len() > 0 {
        let s1 = s.absorb_byte(q[0].0, q[0].1, t);
        assert(s1.wf());
        assert forall|i: int| 0 <= i < q.drop_first().len() implies (#[trigger] q.drop_first()[i]).0.value
            < s1.base.num_ports by {
            assert(q.drop_first()[i] == q[i + 1]);
        }
        lemma_absorb_all_wf(s1, q.drop_first(), t);
    }
}

/// Every egress port of a frame is a port of the device.
pub proof fn lemma_egress_ports_below(table: Map<u64, Port>, n: nat, f: EthernetFrameView)
    requires
        n <= u32::MAX,
        forall|k: u64| #[trigger] table.contains_key(k) ==> table[k].value < n,
    ensures
        forall|i: int|
            0 <= i < egress_ports(table, n, f).len() ==> (#[trigger] egress_ports(table, n, f)[i]).value
                < n,
{
    if table.contains_key(f.dst.value) {
    } else if table.contains_key(f.src.value) {
        lemma_flood_ports(n, Some(table[f.src.value]));
    } else {
        lemma_flood_ports(n, None);
    }
}

/// Sending a frame keeps the state well formed and changes only the send
/// queue and the send log.
pub proof fn lemma_push_frame_wf(s: EthernetDeviceView, f: EthernetFrameView, t: usize)
    requires
        s.wf(),
    ensures
        s.push_frame(f, t).wf(),
        s.push_frame(f, t).base.recv == s.base.recv,
        s.push_frame(f, t).base.mac == s.base.mac,
        s.push_frame(f, t).base.name == s.base.name,
        s.push_frame(f, t).base.num_ports == s.base.num_ports,
{
    let ports = egress_ports(s.table, s.base.num_ports, f);
    lemma_egress_ports_below(s.table, s.base.num_ports, f);
    lemma_wire_ports(ports, spec_encode(f), s.base.num_ports);
}

/// Reading the receive queue keeps the state well formed, empties the
/// receive queue and leaves the send queue alone.
pub proof fn lemma_absorb_wf(s: EthernetDeviceView, t: usize)
    requires
        s.wf(),
    ensures
        s.absorb(t).wf(),
        s.absorb(t).base == s.base.clear_recv(),
{
    lemma_absorb_all_wf(
        EthernetDeviceView { base: s.base.clear_recv(), ..s },
        s.base.recv,
        t,
    );
}

/// A device that frames the bytes of its ports.
pub struct BaseEthernetDevice {
    rbuf: VecDeque<EthernetFrame>,
    forward_table: HashMap<u64, Port>,
    bufs: Vec<Vec<u8>>,
    base: BaseDevice,
    rlog: Vec<EthernetLog>,
    slog: Vec<EthernetLog>,
}

impl View for BaseEthernetDevice {
    type V = EthernetDeviceView;

    closed spec fn view(&self) -> EthernetDeviceView {
        EthernetDeviceView {
            base: self.base@,
            rbuf: frames_view(self.rbuf@),
            table: self.forward_table@,
            bufs: self.bufs@.map_values(|b: Vec<u8>| b@),
            rlog: logs_view(self.rlog@),
            slog: logs_view(self.slog@),
        }
    }
}

fn empty_buffers(n: usize) -> (bufs: Vec<Vec<u8>>)
    ensures
        bufs@.len() == n,
        forall|i: int| 0 <= i < n ==> (#[trigger] bufs@[i])@ == Seq::<u8>::empty(),
{
    let mut bufs: Vec<Vec<u8>> = Vec::new();
    let mut i: usize = 0;
    while i < n
        invariant
            i <= n,
            bufs@.len() == i,
            forall|j: int| 0 <= j < i ==> (#[trigger] bufs@[j])@ == Seq::<u8>::empty(),
        decreases n - i,
    {
        bufs.push(Vec::new());
        i = i + 1;
    }
    bufs
}

fn send_on_port(base: &mut BaseDevice, port: Port, bytes: &Vec<u8>)
    ensures
        final(base)@ == old(base)@.push_send_all(on_port(port, bytes@)),
{
    let mut i: usize = 0;
    proof {
        assert(old(base)@.send + on_port(port, bytes@).subrange(0, 0) =~= old(base)@.send);
    }
    while i < bytes.len()
        invariant
            i <= bytes.len(),
            base@ == old(base)@.push_send_all(on_port(port, bytes@).subrange(0, i as int)),
        decreases bytes.len() - i,
    {
        base.send((port, bytes[i]));
        proof {
            assert((old(base)@.send + on_port(port, bytes@).subrange(0, i as int)).push(
                (port, bytes[i as int]),
            ) =~= old(base)@.send + on_port(port, bytes@).subrange(0, i + 1));
        }
        i = i + 1;
    }
    proof {
        assert(on_port(port, bytes@).subrange(0, i as int) =~= on_port(port, bytes@));
    }
}

impl BaseEthernetDevice {
    pub fn new(mac: Mac, name: &str, num_ports: usize) -> (d: BaseEthernetDevice)
        requires
            num_ports <= u32::MAX,
        ensures
            d@.wf(),
            d@ == fresh_framer(mac, name@, num_ports as nat),
    {
        let d = BaseEthernetDevice {
            rbuf: VecDeque::new(),
            forward_table: HashMap::new(),
            bufs: empty_buffers(num_ports),
            base: BaseDevice::new(mac, name, num_ports),
            rlog: Vec::new(),
            slog: Vec::new(),
        };
        proof {
            assert(d@.bufs =~= Seq::new(num_ports as nat, |i: int| Seq::<u8>::empty()));
            assert(d@.rbuf =~= Seq::empty());
            assert(d@.rlog =~= Seq::empty());
            assert(d@.slog =~= Seq::empty());
        }
        d
    }

    pub fn get_mac(&self) -> (mac: Mac)
        ensures
            mac == self@.base.mac,
    {
        self.base.get_mac()
    }

    pub fn get_name(&self) -> (name: &str)
        ensures
            name@ == self@.base.name,
    {
        self.base.get_name()
    }

    pub fn get_num_ports(&self) -> (n: usize)
        ensures
            n == self@.base.num_ports,
    {
        self.base.get_num_ports()
    }

    /// The number of frames that were received and not yet taken.
    pub fn get_rbuf_len(&self) -> (n: usize)
        ensures
            n == self@.rbuf.len(),
    {
        self.rbuf.len()
    }

    /// Every frame received so far.
    pub fn get_rlog(&self) -> (logs: &Vec<EthernetLog>)
        ensures
            logs_view(logs@) == self@.rlog,
    {
        &self.rlog
    }

    /// Every frame sent so far.
    pub fn get_slog(&self) -> (logs: &Vec<EthernetLog>)
        ensures
            logs_view(logs@) == self@.slog,
    {
        &self.slog
    }

    /// Delivers the byte `x` at `port`.
    pub fn push_recv(&mut self, port: Port, x: u8)
        requires
            old(self)@.wf(),
            port.value < old(self)@.base.num_ports,
        ensures
            final(self)@.wf(),
            final(self)@ == (EthernetDeviceView {
                base: old(self)@.base.push_recv(port, x),
                ..old(self)@
            }),
    {
        self.base.push_recv(port, x);
    }

    /// Takes the next byte for the wire.
    pub fn pop_send(&mut self) -> (r: Option<(Port, u8)>)
        requires
            old(self)@.wf(),
        ensures
            final(self)@.wf(),
            old(self)@.base.send.len() == 0 ==> r.is_none() && final(self)@ == old(self)@,
            old(self)@.base.send.len() > 0 ==> r == Some(old(self)@.base.send[0]) && final(self)@ == (
            EthernetDeviceView { base: old(self)@.base.drop_send(), ..old(self)@ }),
            r matches Some(x) ==> x.0.value < old(self)@.base.num_ports,
    {
        self.base.pop_send()
    }

    /// Reads the whole receive queue into the buffers of the ports and
    /// queues every frame that completes.
    pub fn absorb(&mut self, ctx: &UpdateContext)
        requires
            old(self)@.wf(),
        ensures
            final(self)@.wf(),
            final(self)@ == old(self)@.absorb(ctx.t),
            final(self)@.base == old(self)@.base.clear_recv(),
            final(self)@.slog == old(self)@.slog,
    {
        let ghost goal = old(self)@.absorb(ctx.t);
        proof {
            lemma_absorb_all_wf(
                EthernetDeviceView { base: old(self)@.base.clear_recv(), ..old(self)@ },
                old(self)@.base.recv,
                ctx.t,
            );
        }
        loop
            invariant
                self@.wf(),
                (EthernetDeviceView { base: self@.base.clear_recv(), ..self@ }).absorb_all(
                    self@.base.recv,
                    ctx.t,
                ) == goal,
                self@.base.clear_recv() == old(self)@.base.clear_recv(),
            ensures
                self@.base.recv.len() == 0,
            decreases self@.base.recv.len(),
        {
            let ghost before = self@;
            match self.base.recv() {
                None => {
                    break ;
                },
                Some((port, x)) => {
                    let p = port.value as usize;
                    self.bufs[p].push(x);
                    let ghost buf = before.bufs[p as int].push(x);
                    assert(self.bufs@[p as int]@ == buf);
                    let decoded = EthernetFrame::decode(&self.bufs[p]);
                    match decoded {
                        Ok(frame) => {
                            self.rlog.push(EthernetLog { t: ctx.t, frame: frame.clone() });
                            self.forward_table.insert(frame.src.value, port);
                            self.rbuf.push_back(frame);
                            self.bufs[p].clear();
                        },
                        Err(Error::NotEnoughBytes) => {},
                        Err(_) => {
                            self.bufs[p].clear();
                        },
                    }
                    proof {
                        let cleared = EthernetDeviceView {
                            base: before.base.clear_recv(),
                            ..before
                        };
                        let stepped = cleared.absorb_byte(port, x, ctx.t);
                        let now = EthernetDeviceView { base: self@.base.clear_recv(), ..self@ };
                        assert(now.bufs =~= stepped.bufs);
                        assert(now.rbuf =~= stepped.rbuf);
                        assert(now.rlog =~= stepped.rlog);
                        assert(now.slog =~= stepped.slog);
                        assert(now.table =~= stepped.table);
                        assert(now == stepped);
                        assert(self@.base.recv == before.base.recv.drop_first());
                    }
                },
            }
        }
        proof {
            assert(self@.base.recv =~= Seq::<(Port, u8)>::empty());
            assert(self@.base.clear_recv() == self@.base);
        }
    }

    /// Takes the oldest frame that was received and not yet taken.
    pub fn pop_frame(&mut self) -> (r: Option<EthernetFrame>)
        requires
            old(self)@.wf(),
        ensures
            final(self)@.wf(),
            old(self)@.rbuf.len() == 0 ==> r.is_none() && final(self)@ == old(self)@,
            old(self)@.rbuf.len() > 0 ==> (r matches Some(f) && f@ == old(self)@.rbuf[0])
                && final(self)@ == old(self)@.drop_frame(),
    {
        let r = self.rbuf.pop_front();
        proof {
            if old(self)@.rbuf.len() > 0 {
                assert(frames_view(self.rbuf@) =~= frames_view(old(self).rbuf@).drop_first());
                assert(self@ == old(self)@.drop_frame());
            } else {
                assert(self@ == old(self)@);
            }
        }
        r
    }

    /// Reads the receive queue and takes the oldest received frame.
    pub fn pop_rbuf(&mut self, ctx: &UpdateContext) -> (r: Option<EthernetFrame>)
        requires
            old(self)@.wf(),
        ensures
            final(self)@.wf(),
            ({
                let s = old(self)@.absorb(ctx.t);
                if s.rbuf.len() == 0 {
                    r.is_none() && final(self)@ == s
                } else {
                    (r matches Some(f) && f@ == s.rbuf[0]) && final(self)@ == s.drop_frame()
                }
            }),
    {
        self.absorb(ctx);
        self.pop_frame()
    }

    /// The ports through which `frame` leaves.
    pub fn egress(&self, frame: &EthernetFrame) -> (ports: Vec<Port>)
        requires
            self@.wf(),
        ensures
            ports@ == egress_ports(self@.table, self@.base.num_ports, frame@),
            forall|i: int| 0 <= i < ports@.len() ==> (#[trigger] ports@[i]).value < self@.base.num_ports,
    {
        let n = self.base.get_num_ports();
        let mut ports: Vec<Port> = Vec::new();
        let skip: Option<Port> = match self.forward_table.get(&frame.dst.value) {
            Some(port) => {
                ports.push(*port);
                assert(ports@ =~= seq![*port]);
                assert(self@.table.contains_key(frame.dst.value));
                return ports;
            },
            None => match self.forward_table.get(&frame.src.value) {
                Some(src_port) => Some(*src_port),
                None => None,
            },
        };
        let mut i: usize = 0;
        while i < n
            invariant
                i <= n,
                n <= u32::MAX,
                ports@ == flood(i as nat, skip),
            decreases n - i,
        {
            let p = Port::new(i as u32);
            let skipped = match skip {
                Some(s) => s.value == p.value,
                None => false,
            };
            if !skipped {
                ports.push(p);
            }
            i = i + 1;
        }
        proof {
            lemma_flood_ports(n as nat, skip);
        }
        ports
    }

    /// Sends `frame`: logs it and queues its bytes on every egress port.
    pub fn push_sbuf(&mut self, frame: EthernetFrame, ctx: &UpdateContext)
        requires
            old(self)@.wf(),
        ensures
            final(self)@.wf(),
            final(self)@ == old(self)@.push_frame(frame@, ctx.t),
    {
        let ports = self.egress(&frame);
        let bytes = EthernetFrame::encode(&frame);
        self.slog.push(EthernetLog { t: ctx.t, frame });
        let ghost start = old(self)@.base;
        let mut k: usize = 0;
        proof {
            assert(logs_view(self.slog@) =~= old(self)@.slog.push(
                EthernetLogView { t: ctx.t, frame: frame@ },
            ));
            assert(start.send + wire(ports@.subrange(0, 0), bytes@) =~= start.send);
        }
        while k < ports.len()
            invariant
                k <= ports.len(),
                start == old(self)@.base,
                self@ == (EthernetDeviceView {
                    base: start.push_send_all(wire(ports@.subrange(0, k as int), bytes@)),
                    slog: old(self)@.slog.push(EthernetLogView { t: ctx.t, frame: frame@ }),
                    ..old(self)@
                }),
            decreases ports.len() - k,
        {
            send_on_port(&mut self.base, ports[k], &bytes);
            proof {
                let next = ports@.subrange(0, k + 1);
                assert(next.drop_last() =~= ports@.subrange(0, k as int));
                assert(next.last() == ports@[k as int]);
                assert((start.send + wire(ports@.subrange(0, k as int), bytes@)) + on_port(
                    ports@[k as int],
                    bytes@,
                ) =~= start.send + wire(next, bytes@));
            }
            k = k + 1;
        }
        proof {
            assert(ports@.subrange(0, k as int) =~= ports@);
            lemma_wire_ports(ports@, bytes@, start.num_ports);
        }
    }

    /// Records that `dst` lies behind `port`. The newest entry for an
    /// address replaces the older one.
    pub fn add_forwarding_table(&mut self, dst: Mac, port: Port)
        requires
            old(self)@.wf(),
            port.value < old(self)@.base.num_ports,
        ensures
            final(self)@.wf(),
            final(self)@ == old(self)@.learn(dst, port),
    {
        self.forward_table.insert(dst.value, port);
        proof {
            assert(self@ == old(self)@.learn(dst, port));
            assert forall|k: u64| #[trigger] self@.table.contains_key(k) implies self@.table[k].value
                < self@.base.num_ports by {
                if k != dst.value {
                    assert(old(self)@.table.contains_key(k));
                }
            }
        }
    }
}

/// What every device with a framer offers at the link layer: frames in
/// and out, the forwarding table and the two logs.
pub trait EthernetDevice {
    /// The state of the framer of the device.
    spec fn ether_view(&self) -> EthernetDeviceView;

    /// Reads the receive queue and takes the oldest received frame.
    fn pop_rbuf(&mut self, ctx: &UpdateContext) -> (r: Option<EthernetFrame>)
        requires
            old(self).ether_view().wf(),
        ensures
            final(self).ether_view().wf(),
            ({
                let s = old(self).ether_view().absorb(ctx.t);
                if s.rbuf.len() == 0 {
                    r.is_none() && final(self).ether_view() == s
                } else {
                    (r matches Some(f) && f@ == s.rbuf[0]) && final(self).ether_view()
                        == s.drop_frame()
                }
            }),
    ;

    /// Sends `frame` through the ports that the forwarding table gives.
    fn push_sbuf(&mut self, frame: EthernetFrame, ctx: &UpdateContext)
        requires
            old(self).ether_view().wf(),
        ensures
            final(self).ether_view().wf(),
            final(self).ether_view() == old(self).ether_view().push_frame(frame@, ctx.t),
    ;

    /// Records that `dst` lies behind `port`.
    fn add_forwarding_table(&mut self, dst: Mac, port: Port)
        requires
            old(self).ether_view().wf(),
            port.value < old(self).ether_view().base.num_ports,
        ensures
            final(self).ether_view().wf(),
            final(self).ether_view() == old(self).ether_view().learn(dst, port),
    ;

    /// Every frame received so far.
    fn get_rlog(&self) -> (logs: &Vec<EthernetLog>)
        ensures
            logs_view(logs@) == self.ether_view().rlog,
    ;

    /// Every frame sent so far.
    fn get_slog(&self) -> (logs: &Vec<EthernetLog>)
        ensures
            logs_view(logs@) == self.ether_view().slog,
    ;
}

impl EthernetDevice for BaseEthernetDevice {
    open spec fn ether_view(&self) -> EthernetDeviceView {
        self@
    }

    fn pop_rbuf(&mut self, ctx: &UpdateContext) -> (r: Option<EthernetFrame>) {
        BaseEthernetDevice::pop_rbuf(self, ctx)
    }

    fn push_sbuf(&mut self, frame: EthernetFrame, ctx: &UpdateContext) {
        BaseEthernetDevice::push_sbuf(self, frame, ctx)
    }

    fn add_forwarding_table(&mut self, dst: Mac, port: Port) {
        BaseEthernetDevice::add_forwarding_table(self, dst, port)
    }

    fn get_rlog(&self) -> (logs: &Vec<EthernetLog>) {
        BaseEthernetDevice::get_rlog(self)
    }

    fn get_slog(&self) -> (logs: &Vec<EthernetLog>) {
        BaseEthernetDevice::get_slog(self)
    }
}

} // verus!
