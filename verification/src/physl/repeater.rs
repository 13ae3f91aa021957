//! A repeater: what arrives at one of its two ports leaves through the
//! other.
use vstd::prelude::*;
use crate::types::{Mac, Port, Res, UpdateContext};
use super::device::{BaseDevice, BaseDeviceView, Device};

verus! {

pub struct Repeater {
    base: BaseDevice,
}

/// The bytes of `q` in order, each moved to the other port.
pub open spec fn crossed(q: Seq<(Port, u8)>) -> Seq<(Port, u8)> {
    Seq::new(q.len(), |i: int| (Port { value: (1 - q[i].0.value) as u32 }, q[i].1))
}

/// The state of a repeater after a tick: the receive queue is empty and its
/// bytes, crossed over, stand at the end of the send queue.
pub open spec fn spec_update(s: BaseDeviceView) -> BaseDeviceView {
    s.push_send_all(crossed(s.recv)).clear_recv()
}

/// A tick keeps every queued port of a repeater below two.
pub proof fn lemma_update_wf(s: BaseDeviceView)
    requires
        s.wf(),
        s.num_ports == 2,
    ensures
        spec_update(s).wf(),
        spec_update(s).mac == s.mac,
        spec_update(s).name == s.name,
        spec_update(s).num_ports == 2,
{
    let out = s.send + crossed(s.recv);
    assert forall|i: int| 0 <= i < out.len() implies (#[trigger] out[i]).0.value < 2 by {
        if i >= s.send.len() {
            assert(out[i] == crossed(s.recv)[i - s.send.len()]);
            assert(s.recv[i - s.send.len()].0.value < 2);
        }
    }
}

impl View for Repeater {
    type V = BaseDeviceView;

    closed spec fn view(&self) -> BaseDeviceView {
        self.base@
    }
}

impl Repeater {
    pub fn new(mac: Mac, name: &str) -> (r: Repeater)
        ensures
            r@ == (BaseDeviceView {
                mac,
                name: name@,
                num_ports: 2,
                recv: Seq::empty(),
                send: Seq::empty(),
            }),
            r.wf(),
    {
        Repeater { base: BaseDevice::new(mac, name, 2) }
    }
}

impl Device for Repeater {
    closed spec fn base_view(&self) -> BaseDeviceView {
        self.base@
    }

    open spec fn wf(&self) -> bool {
        self@.wf() && self@.num_ports == 2 && self.base_view() == self@
    }

    proof fn lemma_queue_ports(&self) {
    }

    fn get_mac(&self) -> (mac: Mac) {
        self.base.get_mac()
    }

    fn get_name(&self) -> (name: &str) {
        self.base.get_name()
    }

    fn get_num_ports(&self) -> (n: usize) {
        self.base.get_num_ports()
    }

    fn push_recv(&mut self, port: Port, x: u8) {
        self.base.push_recv(port, x);
    }

    fn pop_send(&mut self) -> (r: Option<(Port, u8)>) {
        self.base.pop_send()
    }

    fn update(&mut self, ctx: &UpdateContext) -> (r: Res<()>)
        ensures
            r is Ok,
            final(self)@ == spec_update(old(self)@),
    {
        let ghost start = self.base@;
        let ghost mut done: int = 0;
        proof {
            assert(start.recv.subrange(0, start.recv.len() as int) =~= start.recv);
            assert(start.send + crossed(start.recv).subrange(0, 0) =~= start.send);
        }
        loop
            invariant
                start == old(self)@,
                start.wf(),
                start.num_ports == 2,
                0 <= done <= start.recv.len(),
                self.base@.wf(),
                self.base@ == (BaseDeviceView {
                    recv: start.recv.subrange(done, start.recv.len() as int),
                    send: start.send + crossed(start.recv).subrange(0, done),
                    ..start
                }),
            ensures
                done == start.recv.len(),
            decreases start.recv.len() - done,
        {
            match self.base.recv() {
                None => {
                    break ;
                },
                Some((p, x)) => {
                    assert(p == start.recv[done].0 && x == start.recv[done].1);
                    self.base.send((Port::new(1 - p.value), x));
                    proof {
                        assert(start.recv.subrange(done, start.recv.len() as int).drop_first()
                            =~= start.recv.subrange(done + 1, start.recv.len() as int));
                        assert((start.send + crossed(start.recv).subrange(0, done)).push(
                            (Port { value: (1 - p.value) as u32 }, x),
                        ) =~= start.send + crossed(start.recv).subrange(0, done + 1));
                        done = done + 1;
                    }
                },
            }
        }
        proof {
            assert(crossed(start.recv).subrange(0, done) =~= crossed(start.recv));
            assert(start.recv.subrange(done, start.recv.len() as int) =~= Seq::<(Port, u8)>::empty());
        }
        Ok(())
    }
}

} // verus!
