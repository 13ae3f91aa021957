//! An Ethernet host with one port. It sends the frames of a schedule and
//! answers the frames that are addressed to it.
use vstd::prelude::*;
use std::collections::VecDeque;
use crate::physl::device::{BaseDeviceView, Device};
use crate::types::{Mac, Port, Res, UpdateContext};
use super::ethernet_device::{
    BaseEthernetDevice, EthernetDevice, EthernetDeviceView, fresh_framer, lemma_absorb_wf,
    lemma_push_frame_wf,
};
use super::ethernet_frame::{EthernetFrame, EthernetFrameView};
use super::ethernet_log::{EthernetLog, EthernetLogView, logs_view};

verus! {

/// What a host makes of the payload of a frame that is addressed to it.
#[derive(Debug, Clone, Copy, PartialEq, Eq, Structural)]
pub enum FrameHandler {
    /// The payload is taken and nothing is sent back.
    Consume,
    /// The payload is sent back as it came.
    Echo,
}

impl FrameHandler {
    /// The payload of the answer to `payload`, if there is an answer.
    pub open spec fn spec_reply(self, payload: Seq<u8>) -> Option<Seq<u8>> {
        match self {
            FrameHandler::Consume => None,
            FrameHandler::Echo => Some(payload),
        }
    }

    /// The payload of the answer to `payload`, if there is an answer.
    pub fn reply(&self, payload: &Vec<u8>) -> (r: Option<Vec<u8>>)
        ensures
            match self.spec_reply(payload@) {
                Some(bytes) => r matches Some(got) && got@ == bytes,
                None => r.is_none(),
            },
    {
        match self {
            FrameHandler::Consume => None,
            FrameHandler::Echo => Some(payload.clone()),
        }
    }
}

/// The state of a host or switch: the framer and the frames still to send.
pub struct EthernetNodeView {
    pub eth: EthernetDeviceView,
    pub schedules: Seq<EthernetLogView>,
}

impl EthernetNodeView {
    /// The state after the head of the schedule was sent, if it is due at
    /// the tick `t`.
    pub open spec fn send_due(self, t: usize) -> EthernetNodeView {
        if self.schedules.len() > 0 && self.schedules[0].t == t {
            EthernetNodeView {
                eth: self.eth.push_frame(self.schedules[0].frame, t),
                schedules: self.schedules.drop_first(),
            }
        } else {
            self
        }
    }
}

/// The answer of a host to the frame `f` with the payload `bytes`: sender
/// and destination change places, and the type field is that of `f`.
pub open spec fn answer_frame(f: EthernetFrameView, bytes: Seq<u8>) -> EthernetFrameView {
    EthernetFrameView { dst: f.src, src: f.dst, ethertype: f.ethertype, payload: bytes }
}

/// The state of the framer after a host took the frame `f` during the tick
/// `t`. A frame for another address is dropped.
pub open spec fn host_serve(
    eth: EthernetDeviceView,
    handler: FrameHandler,
    f: EthernetFrameView,
    t: usize,
) -> EthernetDeviceView {
    if f.dst == eth.base.mac {
        match handler.spec_reply(f.payload) {
            Some(bytes) => eth.push_frame(answer_frame(f, bytes), t),
            None => eth,
        }
    } else {
        eth
    }
}

/// The state of the framer after a host took every received frame, oldest
/// first, during the tick `t`.
pub open spec fn host_serve_all(eth: EthernetDeviceView, handler: FrameHandler, t: usize) -> EthernetDeviceView
    decreases eth.rbuf.len(),
{
    if eth.rbuf.len() == 0 {
        eth
    } else {
        host_serve_all(host_serve(eth.drop_frame(), handler, eth.rbuf[0], t), handler, t)
    }
}

/// The state of a host after the tick `t`: the head of the schedule is sent
/// if it is due, the received bytes are read, and every frame that they
/// complete is taken and, where it is for this host, answered.
pub open spec fn spec_update(s: EthernetNodeView, handler: FrameHandler, t: usize) -> EthernetNodeView {
    let s1 = s.send_due(t);
    EthernetNodeView { eth: host_serve_all(s1.eth.absorb(t), handler, t), ..s1 }
}

/// Serving the received frames keeps the framer well formed and its
/// identity unchanged.
pub proof fn lemma_host_serve_all_wf(eth: EthernetDeviceView, handler: FrameHandler, t: usize)
    requires
        eth.wf(),
    ensures
        host_serve_all(eth, handler, t).wf(),
        host_serve_all(eth, handler, t).base.mac == eth.base.mac,
        host_serve_all(eth, handler, t).base.name == eth.base.name,
        host_serve_all(eth, handler, t).base.num_ports == eth.base.num_ports,
    decreases eth.rbuf.len(),
{
    if eth.rbuf.len() > 0 {
        let f = eth.rbuf[0];
        let taken = eth.drop_frame();
        if f.dst == eth.base.mac {
            match handler.spec_reply(f.payload) {
                Some(bytes) => {
                    lemma_push_frame_wf(taken, answer_frame(f, bytes), t);
                },
                None => {},
            }
        }
        lemma_host_serve_all_wf(host_serve(taken, handler, f, t), handler, t);
    }
}

/// A tick of a host keeps the framer well formed and its identity
/// unchanged.
pub proof fn lemma_update_wf(s: EthernetNodeView, handler: FrameHandler, t: usize)
    requires
        s.eth.wf(),
    ensures
        spec_update(s, handler, t).eth.wf(),
        spec_update(s, handler, t).eth.base.mac == s.eth.base.mac,
        spec_update(s, handler, t).eth.base.name == s.eth.base.name,
        spec_update(s, handler, t).eth.base.num_ports == s.eth.base.num_ports,
{
    if s.schedules.len() > 0 && s.schedules[0].t == t {
        lemma_push_frame_wf(s.eth, s.schedules[0].frame, t);
    }
    let s1 = s.send_due(t);
    lemma_absorb_wf(s1.eth, t);
    lemma_host_serve_all_wf(s1.eth.absorb(t), handler, t);
}

pub struct EthernetHost {
    base: BaseEthernetDevice,
    schedules: VecDeque<EthernetLog>,
    handler: FrameHandler,
}

impl View for EthernetHost {
    type V = EthernetNodeView;

    closed spec fn view(&self) -> EthernetNodeView {
        EthernetNodeView { eth: self.base@, schedules: logs_view(self.schedules@) }
    }
}

/// Sends the head of the schedule if it is due at the tick of `ctx`.
pub fn send_due(base: &mut BaseEthernetDevice, schedules: &mut VecDeque<EthernetLog>, ctx: &UpdateContext)
    requires
        old(base)@.wf(),
    ensures
        final(base)@.wf(),
        (EthernetNodeView { eth: final(base)@, schedules: logs_view(final(schedules)@) }) == (
        EthernetNodeView { eth: old(base)@, schedules: logs_view(old(schedules)@) }).send_due(ctx.t),
{
    if schedules.len() > 0 {
        if schedules[0].t == ctx.t {
            let frame = schedules[0].frame.clone();
            base.push_sbuf(frame, ctx);
            schedules.pop_front();
            proof {
                assert(logs_view(schedules@) =~= logs_view(old(schedules)@).drop_first());
            }
        }
    }
}

impl EthernetHost {
    fn new(base: BaseEthernetDevice, handler: FrameHandler) -> (h: EthernetHost)
        ensures
            h@ == (EthernetNodeView { eth: base@, schedules: Seq::empty() }),
            h.handler() == handler,
    {
        let h = EthernetHost { base, schedules: VecDeque::new(), handler };
        proof {
            assert(h@.schedules =~= Seq::empty());
        }
        h
    }

    /// What this host makes of a payload.
    pub closed spec fn handler(&self) -> FrameHandler {
        self.handler
    }

    /// A host that takes what it receives and answers nothing.
    pub fn build_consumer(mac: Mac, name: &str) -> (h: EthernetHost)
        ensures
            h.wf(),
            h.handler() == FrameHandler::Consume,
            h@ == (EthernetNodeView { eth: fresh_framer(mac, name@, 1), schedules: Seq::empty() }),
    {
        EthernetHost::new(BaseEthernetDevice::new(mac, name, 1), FrameHandler::Consume)
    }

    /// A host that sends back the payload of every frame that is addressed
    /// to it.
    pub fn build_echo(mac: Mac, name: &str) -> (h: EthernetHost)
        ensures
            h.wf(),
            h.handler() == FrameHandler::Echo,
            h@ == (EthernetNodeView { eth: fresh_framer(mac, name@, 1), schedules: Seq::empty() }),
    {
        EthernetHost::new(BaseEthernetDevice::new(mac, name, 1), FrameHandler::Echo)
    }

    /// Appends `frame` to the schedule, to be sent at the tick `t`.
    pub fn add_schedule(&mut self, t: usize, frame: EthernetFrame)
        ensures
            final(self)@ == (EthernetNodeView {
                schedules: old(self)@.schedules.push(EthernetLogView { t, frame: frame@ }),
                ..old(self)@
            }),
            final(self).handler() == old(self).handler(),
            old(self).wf() ==> final(self).wf(),
    {
        self.schedules.push_back(EthernetLog { t, frame });
        proof {
            assert(logs_view(self.schedules@) =~= logs_view(old(self).schedules@).push(
                EthernetLogView { t, frame: frame@ },
            ));
        }
    }

    /// Every frame received so far.
    pub fn get_rlog(&self) -> (logs: &Vec<EthernetLog>)
        ensures
            logs_view(logs@) == self@.eth.rlog,
    {
        self.base.get_rlog()
    }

    /// Every frame sent so far.
    pub fn get_slog(&self) -> (logs: &Vec<EthernetLog>)
        ensures
            logs_view(logs@) == self@.eth.slog,
    {
        self.base.get_slog()
    }
}

/// Takes every received frame of `base` and answers those that are for
/// this device.
pub fn serve_all(base: &mut BaseEthernetDevice, handler: FrameHandler, ctx: &UpdateContext)
    requires
        old(base)@.wf(),
    ensures
        final(base)@.wf(),
        final(base)@ == host_serve_all(old(base)@, handler, ctx.t),
        final(base)@.base.mac == old(base)@.base.mac,
        final(base)@.base.name == old(base)@.base.name,
        final(base)@.base.num_ports == old(base)@.base.num_ports,
{
    loop
        invariant
            base@.wf(),
            host_serve_all(base@, handler, ctx.t) == host_serve_all(old(base)@, handler, ctx.t),
            base@.base.mac == old(base)@.base.mac,
            base@.base.name == old(base)@.base.name,
            base@.base.num_ports == old(base)@.base.num_ports,
        ensures
            base@.rbuf.len() == 0,
        decreases base@.rbuf.len(),
    {
        match base.pop_frame() {
            None => {
                break ;
            },
            Some(frame) => {
                if frame.dst.value == base.get_mac().value {
                    match handler.reply(&frame.payload) {
                        Some(bytes) => {
                            let answer = EthernetFrame::new(
                                frame.src,
                                frame.dst,
                                frame.ethertype,
                                bytes,
                            );
                            base.push_sbuf(answer, ctx);
                        },
                        None => {},
                    }
                }
            },
        }
    }
}

impl Device for EthernetHost {
    closed spec fn base_view(&self) -> BaseDeviceView {
        self.base@.base
    }

    open spec fn wf(&self) -> bool {
        self@.eth.wf() && self@.eth.base.num_ports == 1 && self.base_view() == self@.eth.base
    }

    proof fn lemma_queue_ports(&self) {
    }

    fn get_mac(&self) -> (mac: Mac) {
        self.base.get_mac()
    }

    fn get_name(&self) -> (name: &str) {
        self.base.get_name()
    }

    fn get_num_ports(&self) -> (n: usize) {
        self.base.get_num_ports()
    }

    fn push_recv(&mut self, port: Port, x: u8)
        ensures
            final(self)@ == (EthernetNodeView {
                eth: EthernetDeviceView {
                    base: old(self)@.eth.base.push_recv(port, x),
                    ..old(self)@.eth
                },
                ..old(self)@
            }),
            final(self).handler() == old(self).handler(),
    {
        self.base.push_recv(port, x);
    }

    fn pop_send(&mut self) -> (r: Option<(Port, u8)>)
        ensures
            final(self)@ == (EthernetNodeView {
                eth: EthernetDeviceView { base: final(self)@.eth.base, ..old(self)@.eth },
                ..old(self)@
            }),
            final(self).handler() == old(self).handler(),
    {
        self.base.pop_send()
    }

    fn update(&mut self, ctx: &UpdateContext) -> (r: Res<()>)
        ensures
            r is Ok,
            final(self)@ == spec_update(old(self)@, old(self).handler(), ctx.t),
            final(self).handler() == old(self).handler(),
    {
        send_due(&mut self.base, &mut self.schedules, ctx);
        self.base.absorb(ctx);
        serve_all(&mut self.base, self.handler, ctx);
        Ok(())
    }
}

impl EthernetDevice for EthernetHost {
    open spec fn ether_view(&self) -> EthernetDeviceView {
        self@.eth
    }

    fn pop_rbuf(&mut self, ctx: &UpdateContext) -> (r: Option<EthernetFrame>)
        ensures
            final(self)@.schedules == old(self)@.schedules,
            final(self).handler() == old(self).handler(),
    {
        self.base.pop_rbuf(ctx)
    }

    fn push_sbuf(&mut self, frame: EthernetFrame, ctx: &UpdateContext)
        ensures
            final(self)@.schedules == old(self)@.schedules,
            final(self).handler() == old(self).handler(),
    {
        self.base.push_sbuf(frame, ctx)
    }

    fn add_forwarding_table(&mut self, dst: Mac, port: Port)
        ensures
            final(self)@.schedules == old(self)@.schedules,
            final(self).handler() == old(self).handler(),
    {
        self.base.add_forwarding_table(dst, port)
    }

    fn get_rlog(&self) -> (logs: &Vec<EthernetLog>) {
        self.base.get_rlog()
    }

    fn get_slog(&self) -> (logs: &Vec<EthernetLog>) {
        self.base.get_slog()
    }
}

} // verus!
