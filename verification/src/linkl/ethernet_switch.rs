//! An Ethernet device with any number of ports. As a bridge or switch it
//! passes every frame on; as a host it answers the frames addressed to it.
use vstd::prelude::*;
use std::collections::VecDeque;
use crate::physl::device::{BaseDeviceView, Device};
use crate::types::{Mac, Port, Res, UpdateContext};
use super::ethernet_device::{
    BaseEthernetDevice, EthernetDevice, EthernetDeviceView, fresh_framer, lemma_absorb_wf,
    lemma_push_frame_wf,
};
use super::ethernet_frame::{EthernetFrame, EthernetFrameView};
use super::ethernet_host::{EthernetNodeView, FrameHandler, send_due};
use super::ethernet_log::{EthernetLog, EthernetLogView, logs_view};

verus! {

/// What a switch does with the frames that it receives.
#[derive(Debug, Clone, Copy, PartialEq, Eq, Structural)]
pub enum DeviceType {
    /// It answers the frames that are addressed to it and drops the others.
    Host(FrameHandler),
    /// It sends every frame on.
    Hub,
}

/// The answer of a host-type switch to the frame `f` with the payload
/// `bytes`: sender and destination change places and the type field holds
/// the low 16 bits of the payload length.
pub open spec fn length_frame(f: EthernetFrameView, bytes: Seq<u8>) -> EthernetFrameView {
    EthernetFrameView {
        dst: f.src,
        src: f.dst,
        ethertype: (bytes.len() % 0x1_0000) as u16,
        payload: bytes,
    }
}

/// The state of the framer after the switch took the frame `f` during the
/// tick `t`.
pub open spec fn switch_serve(
    eth: EthernetDeviceView,
    device_type: DeviceType,
    f: EthernetFrameView,
    t: usize,
) -> EthernetDeviceView {
    match device_type {
        DeviceType::Hub => eth.push_frame(f, t),
        DeviceType::Host(handler) => if f.dst == eth.base.mac {
            match handler.spec_reply(f.payload) {
                Some(bytes) => eth.push_frame(length_frame(f, bytes), t),
                None => eth,
            }
        } else {
            eth
        },
    }
}

/// The state of the framer after the switch took every received frame,
/// oldest first, during the tick `t`.
pub open spec fn switch_serve_all(eth: EthernetDeviceView, device_type: DeviceType, t: usize) -> EthernetDeviceView
    decreases eth.rbuf.len(),
{
    if eth.rbuf.len() == 0 {
        eth
    } else {
        switch_serve_all(switch_serve(eth.drop_frame(), device_type, eth.rbuf[0], t), device_type, t)
    }
}

/// The state of a switch after the tick `t`: the head of the schedule is
/// sent if it is due, the received bytes are read, and every frame that they
/// complete is sent on or answered.
pub open spec fn spec_update(s: EthernetNodeView, device_type: DeviceType, t: usize) -> EthernetNodeView {
    let s1 = s.send_due(t);
    EthernetNodeView { eth: switch_serve_all(s1.eth.absorb(t), device_type, t), ..s1 }
}

/// Serving the received frames keeps the framer well formed and its
/// identity unchanged.
pub proof fn lemma_switch_serve_all_wf(eth: EthernetDeviceView, device_type: DeviceType, t: usize)
    requires
        eth.wf(),
    ensures
        switch_serve_all(eth, device_type, t).wf(),
        switch_serve_all(eth, device_type, t).base.mac == eth.base.mac,
        switch_serve_all(eth, device_type, t).base.name == eth.base.name,
        switch_serve_all(eth, device_type, t).base.num_ports == eth.base.num_ports,
    decreases eth.rbuf.len(),
{
    if eth.rbuf.len() > 0 {
        let f = eth.rbuf[0];
        let taken = eth.drop_frame();
        match device_type {
            DeviceType::Hub => {
                lemma_push_frame_wf(taken, f, t);
            },
            DeviceType::Host(handler) => {
                if f.dst == eth.base.mac {
                    match handler.spec_reply(f.payload) {
                        Some(bytes) => {
                            lemma_push_frame_wf(taken, length_frame(f, bytes), t);
                        },
                        None => {},
                    }
                }
            },
        }
        lemma_switch_serve_all_wf(switch_serve(taken, device_type, f, t), device_type, t);
    }
}

/// A tick of a switch keeps the framer well formed and its identity
/// unchanged.
pub proof fn lemma_update_wf(s: EthernetNodeView, device_type: DeviceType, t: usize)
    requires
        s.eth.wf(),
    ensures
        spec_update(s, device_type, t).eth.wf(),
        spec_update(s, device_type, t).eth.base.mac == s.eth.base.mac,
        spec_update(s, device_type, t).eth.base.name == s.eth.base.name,
        spec_update(s, device_type, t).eth.base.num_ports == s.eth.base.num_ports,
{
    if s.schedules.len() > 0 && s.schedules[0].t == t {
        lemma_push_frame_wf(s.eth, s.schedules[0].frame, t);
    }
    let s1 = s.send_due(t);
    lemma_absorb_wf(s1.eth, t);
    lemma_switch_serve_all_wf(s1.eth.absorb(t), device_type, t);
}

pub struct EthernetSwitch {
    base: BaseEthernetDevice,
    device_type: DeviceType,
    schedules: VecDeque<EthernetLog>,
}

impl View for EthernetSwitch {
    type V = EthernetNodeView;

    closed spec fn view(&self) -> EthernetNodeView {
        EthernetNodeView { eth: self.base@, schedules: logs_view(self.schedules@) }
    }
}

impl EthernetSwitch {
    fn new(base: BaseEthernetDevice, device_type: DeviceType) -> (s: EthernetSwitch)
        ensures
            s@ == (EthernetNodeView { eth: base@, schedules: Seq::empty() }),
            s.device_type() == device_type,
    {
        let s = EthernetSwitch { base, device_type, schedules: VecDeque::new() };
        proof {
            assert(s@.schedules =~= Seq::empty());
        }
        s
    }

    /// What this switch does with the frames that it receives.
    pub closed spec fn device_type(&self) -> DeviceType {
        self.device_type
    }

    /// A host with one port that answers nothing.
    pub fn build_host(mac: Mac, name: &str) -> (s: EthernetSwitch)
        ensures
            s.wf(),
            s.device_type() == DeviceType::Host(FrameHandler::Consume),
            s@ == (EthernetNodeView { eth: fresh_framer(mac, name@, 1), schedules: Seq::empty() }),
    {
        EthernetSwitch::new(
            BaseEthernetDevice::new(mac, name, 1),
            DeviceType::Host(FrameHandler::Consume),
        )
    }

    /// A host with one port that sends back what it receives.
    pub fn build_echo_host(mac: Mac, name: &str) -> (s: EthernetSwitch)
        ensures
            s.wf(),
            s.device_type() == DeviceType::Host(FrameHandler::Echo),
            s@ == (EthernetNodeView { eth: fresh_framer(mac, name@, 1), schedules: Seq::empty() }),
    {
        EthernetSwitch::new(
            BaseEthernetDevice::new(mac, name, 1),
            DeviceType::Host(FrameHandler::Echo),
        )
    }

    /// A bridge between two ports.
    pub fn build_bridge(mac: Mac, name: &str) -> (s: EthernetSwitch)
        ensures
            s.wf(),
            s.device_type() == DeviceType::Hub,
            s@ == (EthernetNodeView { eth: fresh_framer(mac, name@, 2), schedules: Seq::empty() }),
    {
        EthernetSwitch::new(BaseEthernetDevice::new(mac, name, 2), DeviceType::Hub)
    }

    /// A switch with `num_ports` ports.
    pub fn build_switch(mac: Mac, name: &str, num_ports: usize) -> (s: EthernetSwitch)
        requires
            num_ports <= u32::MAX,
        ensures
            s.wf(),
            s.device_type() == DeviceType::Hub,
            s@ == (EthernetNodeView {
                eth: fresh_framer(mac, name@, num_ports as nat),
                schedules: Seq::empty(),
            }),
    {
        EthernetSwitch::new(BaseEthernetDevice::new(mac, name, num_ports), DeviceType::Hub)
    }

    /// Appends `frame` to the schedule, to be sent at the tick `t`.
    pub fn add_schedule(&mut self, t: usize, frame: EthernetFrame)
        ensures
            final(self)@ == (EthernetNodeView {
                schedules: old(self)@.schedules.push(EthernetLogView { t, frame: frame@ }),
                ..old(self)@
            }),
            final(self).device_type() == old(self).device_type(),
            old(self).wf() ==> final(self).wf(),
    {
        self.schedules.push_back(EthernetLog { t, frame });
        proof {
            assert(logs_view(self.schedules@) =~= logs_view(old(self).schedules@).push(
                EthernetLogView { t, frame: frame@ },
            ));
        }
    }

    /// Every frame received so far.
    pub fn get_rlog(&self) -> (logs: &Vec<EthernetLog>)
        ensures
            logs_view(logs@) == self@.eth.rlog,
    {
        self.base.get_rlog()
    }

    /// Every frame sent so far.
    pub fn get_slog(&self) -> (logs: &Vec<EthernetLog>)
        ensures
            logs_view(logs@) == self@.eth.slog,
    {
        self.base.get_slog()
    }

    fn serve_all(&mut self, ctx: &UpdateContext)
        requires
            old(self).wf(),
        ensures
            final(self).wf(),
            final(self)@ == (EthernetNodeView {
                eth: switch_serve_all(old(self)@.eth, old(self).device_type(), ctx.t),
                ..old(self)@
            }),
            final(self).device_type() == old(self).device_type(),
            final(self)@.eth.base.mac == old(self)@.eth.base.mac,
            final(self)@.eth.base.name == old(self)@.eth.base.name,
            final(self)@.eth.base.num_ports == old(self)@.eth.base.num_ports,
    {
        let device_type = self.device_type;
        loop
            invariant
                self.wf(),
                self.device_type == device_type,
                device_type == old(self).device_type,
                self@.schedules == old(self)@.schedules,
                switch_serve_all(self@.eth, device_type, ctx.t) == switch_serve_all(
                    old(self)@.eth,
                    device_type,
                    ctx.t,
                ),
                self@.eth.base.mac == old(self)@.eth.base.mac,
                self@.eth.base.name == old(self)@.eth.base.name,
                self@.eth.base.num_ports == old(self)@.eth.base.num_ports,
            ensures
                self@.eth.rbuf.len() == 0,
            decreases self@.eth.rbuf.len(),
        {
            match self.base.pop_frame() {
                None => {
                    break ;
                },
                Some(frame) => {
                    match device_type {
                        DeviceType::Hub => {
                            self.base.push_sbuf(frame, ctx);
                        },
                        DeviceType::Host(handler) => {
                            if frame.dst.value == self.base.get_mac().value {
                                match handler.reply(&frame.payload) {
                                    Some(payload) => {
                                        let len: u16 = (payload.len() % 0x1_0000) as u16;
                                        let answer = EthernetFrame::new(
                                            frame.src,
                                            frame.dst,
                                            len,
                                            payload,
                                        );
                                        self.base.push_sbuf(answer, ctx);
                                    },
                                    None => {},
                                }
                            }
                        },
                    }
                },
            }
        }
    }
}

impl Device for EthernetSwitch {
    closed spec fn base_view(&self) -> BaseDeviceView {
        self.base@.base
    }

    open spec fn wf(&self) -> bool {
        self@.eth.wf() && self.base_view() == self@.eth.base
    }

    proof fn lemma_queue_ports(&self) {
    }

    fn get_mac(&self) -> (mac: Mac) {
        self.base.get_mac()
    }

    fn get_name(&self) -> (name: &str) {
        self.base.get_name()
    }

    fn get_num_ports(&self) -> (n: usize) {
        self.base.get_num_ports()
    }

    fn push_recv(&mut self, port: Port, x: u8)
        ensures
            final(self)@ == (EthernetNodeView {
                eth: EthernetDeviceView {
                    base: old(self)@.eth.base.push_recv(port, x),
                    ..old(self)@.eth
                },
                ..old(self)@
            }),
            final(self).device_type() == old(self).device_type(),
    {
        self.base.push_recv(port, x);
    }

    fn pop_send(&mut self) -> (r: Option<(Port, u8)>)
        ensures
            final(self)@ == (EthernetNodeView {
                eth: EthernetDeviceView { base: final(self)@.eth.base, ..old(self)@.eth },
                ..old(self)@
            }),
            final(self).device_type() == old(self).device_type(),
    {
        self.base.pop_send()
    }

    fn update(&mut self, ctx: &UpdateContext) -> (r: Res<()>)
        ensures
            r is Ok,
            final(self)@ == spec_update(old(self)@, old(self).device_type(), ctx.t),
            final(self).device_type() == old(self).device_type(),
    {
        send_due(&mut self.base, &mut self.schedules, ctx);
        self.base.absorb(ctx);
        self.serve_all(ctx);
        Ok(())
    }
}

impl EthernetDevice for EthernetSwitch {
    open spec fn ether_view(&self) -> EthernetDeviceView {
        self@.eth
    }

    fn pop_rbuf(&mut self, ctx: &UpdateContext) -> (r: Option<EthernetFrame>)
        ensures
            final(self)@.schedules == old(self)@.schedules,
            final(self).device_type() == old(self).device_type(),
    {
        self.base.pop_rbuf(ctx)
    }

    fn push_sbuf(&mut self, frame: EthernetFrame, ctx: &UpdateContext)
        ensures
            final(self)@.schedules == old(self)@.schedules,
            final(self).device_type() == old(self).device_type(),
    {
        self.base.push_sbuf(frame, ctx)
    }

    fn add_forwarding_table(&mut self, dst: Mac, port: Port)
        ensures
            final(self)@.schedules == old(self)@.schedules,
            final(self).device_type() == old(self).device_type(),
    {
        self.base.add_forwarding_table(dst, port)
    }

    fn get_rlog(&self) -> (logs: &Vec<EthernetLog>) {
        self.base.get_rlog()
    }

    fn get_slog(&self) -> (logs: &Vec<EthernetLog>) {
        self.base.get_slog()
    }
}

} // verus!
