//! A host with one port that logs every byte it receives and sends bytes
//! at the ticks of a schedule.
use vstd::prelude::*;
use crate::types::{Error, ErrorView, Mac, Port, Res, UpdateContext};
use super::device::{BaseDevice, BaseDeviceView, Device, ports_below};

verus! {

/// A byte at a port and the tick at which it was seen or is to be sent.
#[derive(Debug, Clone, Copy, PartialEq, Eq, Structural)]
pub struct ByteLog {
    pub t: usize,
    pub port: Port,
    pub x: u8,
}

impl ByteLog {
    pub fn new(t: usize, port: Port, x: u8) -> (b: ByteLog)
        ensures
            b == (ByteLog { t, port, x }),
    {
        ByteLog { t, port, x }
    }
}

pub struct ByteHost {
    base: BaseDevice,
    schedules: Vec<ByteLog>,
    rlogs: Vec<ByteLog>,
}

/// The state of a [`ByteHost`].
pub struct ByteHostView {
    pub base: BaseDeviceView,
    pub schedules: Seq<ByteLog>,
    pub rlogs: Seq<ByteLog>,
}

/// The received bytes `q` as log entries of the tick `t`.
pub open spec fn logged(q: Seq<(Port, u8)>, t: usize) -> Seq<ByteLog> {
    Seq::new(q.len(), |i: int| ByteLog { t, port: q[i].0, x: q[i].1 })
}

/// The entries among the first `k` of `schedules` that are due at `t`, as
/// bytes to send; or the first of them that names a port at or above `n`.
pub open spec fn due(schedules: Seq<ByteLog>, k: int, t: usize, n: nat) -> Result<
    Seq<(Port, u8)>,
    Port,
>
    decreases k,
{
    if k <= 0 {
        Ok(Seq::empty())
    } else {
        match due(schedules, k - 1, t, n) {
            Err(p) => Err(p),
            Ok(xs) => {
                let s = schedules[k - 1];
                if s.t != t {
                    Ok(xs)
                } else if s.port.value >= n {
                    Err(s.port)
                } else {
                    Ok(xs.push((s.port, s.x)))
                }
            },
        }
    }
}

/// The state of a byte host after the tick `t`: every received byte is in
/// the log and the scheduled bytes that are due stand in the send queue.
/// A due entry for a port that the host does not have has no link to leave
/// through: the tick then fails with that port.
pub open spec fn spec_update(s: ByteHostView, t: usize) -> Result<ByteHostView, ErrorView> {
    match due(s.schedules, s.schedules.len() as int, t, s.base.num_ports) {
        Err(port) => Err(ErrorView::ConnectionNotFound { mac: s.base.mac, port }),
        Ok(xs) => Ok(
            ByteHostView {
                base: s.base.clear_recv().push_send_all(xs),
                rlogs: s.rlogs + logged(s.base.recv, t),
                ..s
            },
        ),
    }
}

/// Every byte that is due leaves through a port below `n`.
pub proof fn lemma_due_ports(schedules: Seq<ByteLog>, k: int, t: usize, n: nat)
    requires
        0 <= k <= schedules.len(),
    ensures
        due(schedules, k, t, n) matches Ok(xs) ==> ports_below(xs, n),
    decreases k,
{
    if k > 0 {
        lemma_due_ports(schedules, k - 1, t, n);
    }
}

/// A tick keeps every queued port of a byte host below its number of
/// ports.
pub proof fn lemma_update_wf(s: ByteHostView, t: usize)
    requires
        s.base.wf(),
    ensures
        spec_update(s, t) matches Ok(s1) ==> s1.base.wf() && s1.base.mac == s.base.mac && s1.base.name
            == s.base.name && s1.base.num_ports == s.base.num_ports,
{
    lemma_due_ports(s.schedules, s.schedules.len() as int, t, s.base.num_ports);
    match due(s.schedules, s.schedules.len() as int, t, s.base.num_ports) {
        Ok(xs) => {
            let out = s.base.send + xs;
            assert forall|i: int| 0 <= i < out.len() implies (#[trigger] out[i]).0.value
                < s.base.num_ports by {
                if i >= s.base.send.len() {
                    assert(out[i] == xs[i - s.base.send.len()]);
                }
            }
        },
        Err(_) => {},
    }
}

impl View for ByteHost {
    type V = ByteHostView;

    closed spec fn view(&self) -> ByteHostView {
        ByteHostView { base: self.base@, schedules: self.schedules@, rlogs: self.rlogs@ }
    }
}

impl ByteHost {
    pub fn new(mac: Mac, name: &str, schedules: Vec<ByteLog>) -> (h: ByteHost)
        ensures
            h@ == (ByteHostView {
                base: BaseDeviceView {
                    mac,
                    name: name@,
                    num_ports: 1,
                    recv: Seq::empty(),
                    send: Seq::empty(),
                },
                schedules: schedules@,
                rlogs: Seq::empty(),
            }),
            h.wf(),
    {
        ByteHost { base: BaseDevice::new(mac, name, 1), schedules, rlogs: Vec::new() }
    }

    /// The bytes received so far, each with the tick of the update that
    /// read it.
    pub fn get_rlogs(&self) -> (logs: &Vec<ByteLog>)
        ensures
            logs@ == self@.rlogs,
    {
        &self.rlogs
    }

    fn drain(&mut self, t: usize)
        requires
            old(self).wf(),
        ensures
            final(self).wf(),
            final(self)@ == (ByteHostView {
                base: old(self)@.base.clear_recv(),
                rlogs: old(self)@.rlogs + logged(old(self)@.base.recv, t),
                ..old(self)@
            }),
    {
        let ghost start = self@;
        let ghost mut done: int = 0;
        proof {
            assert(start.base.recv.subrange(0, start.base.recv.len() as int) =~= start.base.recv);
            assert(start.rlogs + logged(start.base.recv, t).subrange(0, 0) =~= start.rlogs);
        }
        loop
            invariant
                start == old(self)@,
                0 <= done <= start.base.recv.len(),
                self.wf(),
                self@ == (ByteHostView {
                    base: BaseDeviceView {
                        recv: start.base.recv.subrange(done, start.base.recv.len() as int),
                        ..start.base
                    },
                    rlogs: start.rlogs + logged(start.base.recv, t).subrange(0, done),
                    ..start
                }),
            ensures
                done == start.base.recv.len(),
            decreases start.base.recv.len() - done,
        {
            match self.base.recv() {
                None => {
                    break ;
                },
                Some((port, x)) => {
                    self.rlogs.push(ByteLog { t, port, x });
                    proof {
                        assert(start.base.recv.subrange(
                            done,
                            start.base.recv.len() as int,
                        ).drop_first() =~= start.base.recv.subrange(
                            done + 1,
                            start.base.recv.len() as int,
                        ));
                        assert((start.rlogs + logged(start.base.recv, t).subrange(0, done)).push(
                            ByteLog { t, port, x },
                        ) =~= start.rlogs + logged(start.base.recv, t).subrange(0, done + 1));
                        done = done + 1;
                    }
                },
            }
        }
        proof {
            assert(logged(start.base.recv, t).subrange(0, done) =~= logged(start.base.recv, t));
            assert(start.base.recv.subrange(done, start.base.recv.len() as int) =~= Seq::<
                (Port, u8),
            >::empty());
        }
    }
}

impl Device for ByteHost {
    closed spec fn base_view(&self) -> BaseDeviceView {
        self.base@
    }

    open spec fn wf(&self) -> bool {
        self@.base.wf() && self@.base.num_ports == 1 && self.base_view() == self@.base
    }

    proof fn lemma_queue_ports(&self) {
    }

    fn get_mac(&self) -> (mac: Mac) {
        self.base.get_mac()
    }

    fn get_name(&self) -> (name: &str) {
        self.base.get_name()
    }

    fn get_num_ports(&self) -> (n: usize) {
        self.base.get_num_ports()
    }

    fn push_recv(&mut self, port: Port, x: u8)
        ensures
            final(self)@ == (ByteHostView {
                base: old(self)@.base.push_recv(port, x),
                ..old(self)@
            }),
    {
        self.base.push_recv(port, x);
    }

    fn pop_send(&mut self) -> (r: Option<(Port, u8)>)
        ensures
            final(self)@.schedules == old(self)@.schedules,
            final(self)@.rlogs == old(self)@.rlogs,
    {
        self.base.pop_send()
    }

    fn update(&mut self, ctx: &UpdateContext) -> (r: Res<()>)
        ensures
            match spec_update(old(self)@, ctx.t) {
                Ok(s) => r is Ok && final(self)@ == s,
                Err(e) => r matches Err(got) && got@ == e,
            },
    {
        self.drain(ctx.t);
        let ghost mid = self@;
        let n = self.base.get_num_ports();
        let mut k: usize = 0;
        proof {
            assert(mid.base.send + Seq::<(Port, u8)>::empty() =~= mid.base.send);
        }
        while k < self.schedules.len()
            invariant
                0 <= k <= self.schedules.len(),
                self.wf(),
                n == mid.base.num_ports,
                mid == (ByteHostView {
                    base: old(self)@.base.clear_recv(),
                    rlogs: old(self)@.rlogs + logged(old(self)@.base.recv, ctx.t),
                    ..old(self)@
                }),
                due(mid.schedules, k as int, ctx.t, n as nat) matches Ok(xs) && self@ == (
                ByteHostView { base: mid.base.push_send_all(xs), ..mid }),
            decreases self.schedules.len() - k,
        {
            let s = self.schedules[k];
            if s.t == ctx.t {
                if s.port.value as usize >= n {
                    proof {
                        lemma_due_stays_err(mid.schedules, k as int + 1, mid.schedules.len() as int, ctx.t, n as nat);
                    }
                    return Err(Error::ConnectionNotFound { mac: self.base.get_mac(), port: s.port });
                }
                let ghost xs = due(mid.schedules, k as int, ctx.t, n as nat)->Ok_0;
                self.base.send((s.port, s.x));
                assert(mid.base.send + xs.push((s.port, s.x)) =~= (mid.base.send + xs).push(
                    (s.port, s.x),
                ));
            }
            k = k + 1;
        }
        proof {
            let xs = due(mid.schedules, mid.schedules.len() as int, ctx.t, n as nat)->Ok_0;
            assert(old(self)@.base.clear_recv().push_send_all(xs) == mid.base.push_send_all(xs));
        }
        Ok(())
    }
}

/// Once a due entry names a port that the host does not have, the result
/// stays that port however many more entries are looked at.
proof fn lemma_due_stays_err(schedules: Seq<ByteLog>, k: int, m: int, t: usize, n: nat)
    requires
        0 <= k <= m,
        due(schedules, k, t, n) is Err,
    ensures
        due(schedules, m, t, n) == due(schedules, k, t, n),
    decreases m - k,
{
    if k < m {
        lemma_due_stays_err(schedules, k, m - 1, t, n);
    }
}

} // verus!
