//! A network of per-port devices. A medium joins a port of one device to
//! a port of another; each tick every device applies its rule and then
//! every medium carries one byte in each direction.
use vstd::prelude::*;
use std::collections::VecDeque;
use crate::device::{
    Device, DeviceError, DeviceErrorView, DeviceView, Host, Hub, Operation, fresh_device,
};

verus! {

/// A medium between the port `port0` of the device number `dnum0` and the
/// port `port1` of the device number `dnum1`.
#[derive(Debug, Clone, Copy, PartialEq, Eq, Structural)]
pub struct Media {
    pub dnum0: usize,
    pub port0: usize,
    pub dnum1: usize,
    pub port1: usize,
}

#[derive(Debug)]
pub enum NetworkErrorKind {
    /// A device refused a request.
    DeviceError(DeviceError),
    /// No device of the network has this address.
    DeviceNotFound { mac: usize },
}

#[derive(Debug)]
pub struct NetworkError {
    pub kind: NetworkErrorKind,
}

/// What a [`NetworkError`] says.
pub enum NetworkErrorView {
    DeviceError(DeviceErrorView),
    DeviceNotFound { mac: usize },
}

impl View for NetworkError {
    type V = NetworkErrorView;

    open spec fn view(&self) -> NetworkErrorView {
        match self.kind {
            NetworkErrorKind::DeviceError(e) => NetworkErrorView::DeviceError(e@),
            NetworkErrorKind::DeviceNotFound { mac } => NetworkErrorView::DeviceNotFound { mac },
        }
    }
}

pub type Res<T> = Result<T, NetworkError>;

/// The state of a [`Network`].
pub struct NetworkView {
    pub devices: Seq<DeviceView>,
    pub medias: Seq<Media>,
}

/// The devices of a network, each by its view.
pub open spec fn devices_view(devices: Seq<Device>) -> Seq<DeviceView> {
    devices.map_values(|d: Device| d@)
}

/// The number of the first of the first `k` devices that has the address
/// `mac`.
pub open spec fn find_device(devices: Seq<DeviceView>, mac: usize, k: int) -> Option<int>
    decreases k,
{
    if k <= 0 {
        None
    } else {
        match find_device(devices, mac, k - 1) {
            Some(i) => Some(i),
            None => if devices[k - 1].mac == mac {
                Some(k - 1)
            } else {
                None
            },
        }
    }
}

/// The devices after the oldest byte left the send queue of `port` of the
/// device `d`, with that byte.
pub open spec fn take_byte(devices: Seq<DeviceView>, d: int, port: int) -> (
    Seq<DeviceView>,
    Option<u8>,
) {
    let q = devices[d].send[port];
    if q.len() == 0 {
        (devices, None)
    } else {
        (
            devices.update(
                d,
                DeviceView { send: devices[d].send.update(port, q.drop_first()), ..devices[d] },
            ),
            Some(q[0]),
        )
    }
}

/// The devices after `x`, if there is a byte, joined the receive queue of
/// `port` of the device `d`.
pub open spec fn give_byte(devices: Seq<DeviceView>, d: int, port: int, x: Option<u8>) -> Seq<
    DeviceView,
> {
    match x {
        None => devices,
        Some(b) => devices.update(
            d,
            DeviceView { recv: devices[d].recv.update(port, devices[d].recv[port].push(b)), ..devices[d] },
        ),
    }
}

/// The devices after the medium `m` carried one byte in each direction, or
/// the error of the device that lacks the port of the medium.
pub open spec fn swap(devices: Seq<DeviceView>, m: Media) -> Result<Seq<DeviceView>, DeviceErrorView> {
    let d0 = m.dnum0 as int;
    let d1 = m.dnum1 as int;
    if m.port0 >= devices[d0].num_ports {
        Err(devices[d0].invalid_port(m.port0))
    } else if m.port1 >= devices[d1].num_ports {
        Err(devices[d1].invalid_port(m.port1))
    } else {
        let (ds1, v0) = take_byte(devices, d0, m.port0 as int);
        let (ds2, v1) = take_byte(ds1, d1, m.port1 as int);
        let ds3 = give_byte(ds2, d1, m.port1 as int, v0);
        Ok(give_byte(ds3, d0, m.port0 as int, v1))
    }
}

/// The devices after the first `k` of them applied their rules.
pub open spec fn update_devices(devices: Seq<DeviceView>, k: int) -> Seq<DeviceView>
    decreases k,
{
    if k <= 0 {
        devices
    } else {
        let ds = update_devices(devices, k - 1);
        ds.update(k - 1, ds[k - 1].update())
    }
}

/// The devices after the first `k` media each carried their bytes.
pub open spec fn swap_all(devices: Seq<DeviceView>, medias: Seq<Media>, k: int) -> Result<
    Seq<DeviceView>,
    DeviceErrorView,
>
    decreases k,
{
    if k <= 0 {
        Ok(devices)
    } else {
        match swap_all(devices, medias, k - 1) {
            Err(e) => Err(e),
            Ok(ds) => swap(ds, medias[k - 1]),
        }
    }
}

impl NetworkView {
    /// Every device is well formed and every medium joins two devices of
    /// the network.
    pub open spec fn wf(self) -> bool {
        &&& forall|i: int| 0 <= i < self.devices.len() ==> (#[trigger] self.devices[i]).wf()
        &&& forall|i: int|
            0 <= i < self.medias.len() ==> (#[trigger] self.medias[i]).dnum0 < self.devices.len()
                && self.medias[i].dnum1 < self.devices.len()
    }

    /// The network with a medium between the ports of the first devices
    /// with the addresses `mac0` and `mac1`.
    pub open spec fn connect(self, mac0: usize, port0: usize, mac1: usize, port1: usize) -> Result<
        NetworkView,
        NetworkErrorView,
    > {
        match find_device(self.devices, mac0, self.devices.len() as int) {
            None => Err(NetworkErrorView::DeviceNotFound { mac: mac0 }),
            Some(d0) => match find_device(self.devices, mac1, self.devices.len() as int) {
                None => Err(NetworkErrorView::DeviceNotFound { mac: mac1 }),
                Some(d1) => Ok(
                    NetworkView {
                        medias: self.medias.push(
                            Media { dnum0: d0 as usize, port0, dnum1: d1 as usize, port1 },
                        ),
                        ..self
                    },
                ),
            },
        }
    }

    /// The network after one tick: every device applies its rule, then
    /// every medium carries its bytes.
    pub open spec fn tick(self) -> Result<NetworkView, NetworkErrorView> {
        match swap_all(
            update_devices(self.devices, self.devices.len() as int),
            self.medias,
            self.medias.len() as int,
        ) {
            Ok(ds) => Ok(NetworkView { devices: ds, ..self }),
            Err(e) => Err(NetworkErrorView::DeviceError(e)),
        }
    }

    /// The network after `n` ticks, or the first error.
    pub open spec fn start(self, n: nat) -> Result<NetworkView, NetworkErrorView>
        decreases n,
    {
        if n == 0 {
            Ok(self)
        } else {
            match self.start((n - 1) as nat) {
                Err(e) => Err(e),
                Ok(s) => s.tick(),
            }
        }
    }
}

pub struct Network {
    devices: Vec<Device>,
    medias: Vec<Media>,
}

impl View for Network {
    type V = NetworkView;

    closed spec fn view(&self) -> NetworkView {
        NetworkView { devices: devices_view(self.devices@), medias: self.medias@ }
    }
}

fn wrap(e: DeviceError) -> (r: NetworkError)
    ensures
        r@ == NetworkErrorView::DeviceError(e@),
{
    NetworkError { kind: NetworkErrorKind::DeviceError(e) }
}

impl Network {
    /// A network without devices.
    pub fn new() -> (nw: Network)
        ensures
            nw@.wf(),
            nw@ == (NetworkView { devices: Seq::empty(), medias: Seq::empty() }),
    {
        let nw = Network { devices: Vec::new(), medias: Vec::new() };
        proof {
            assert(nw@.devices =~= Seq::empty());
        }
        nw
    }

    fn error(&self, kind: NetworkErrorKind) -> (e: NetworkError)
        ensures
            e.kind == kind,
    {
        NetworkError { kind }
    }

    /// Adds `device` as the last device of the network.
    pub fn add_device(&mut self, device: Device)
        requires
            old(self)@.wf(),
            device@.wf(),
        ensures
            final(self)@.wf(),
            final(self)@ == (NetworkView {
                devices: old(self)@.devices.push(device@),
                ..old(self)@
            }),
    {
        self.devices.push(device);
        proof {
            assert(devices_view(self.devices@) =~= devices_view(old(self).devices@).push(device@));
            assert forall|i: int| 0 <= i < self@.devices.len() implies (#[trigger] self@.devices[i]).wf() by {
                if i < old(self)@.devices.len() {
                    assert(self@.devices[i] == old(self)@.devices[i]);
                }
            }
            assert forall|i: int| 0 <= i < self@.medias.len() implies (#[trigger] self@.medias[i]).dnum0
                < self@.devices.len() && self@.medias[i].dnum1 < self@.devices.len() by {
                assert(self@.medias[i] == old(self)@.medias[i]);
            }
        }
    }

    fn find_device(&self, mac: usize) -> (r: Res<(usize, &Device)>)
        ensures
            match find_device(self@.devices, mac, self@.devices.len() as int) {
                Some(i) => r matches Ok((dnum, d)) && dnum == i && 0 <= i < self@.devices.len() && d@
                    == self@.devices[i],
                None => r matches Err(e) && e@ == (NetworkErrorView::DeviceNotFound { mac }),
            },
    {
        let mut dnum: usize = 0;
        while dnum < self.devices.len()
            invariant
                dnum <= self.devices.len(),
                find_device(self@.devices, mac, dnum as int).is_none(),
            decreases self.devices.len() - dnum,
        {
            let device = &self.devices[dnum];
            assert(self@.devices[dnum as int] == device@);
            if device.get_mac() == mac {
                proof {
                    lemma_device_found(self@.devices, mac, dnum as int + 1, self@.devices.len() as int);
                }
                return Ok((dnum, device));
            }
            dnum = dnum + 1;
        }
        Err(self.error(NetworkErrorKind::DeviceNotFound { mac }))
    }

    /// Joins the port `port0` of the device `mac0` and the port `port1` of
    /// the device `mac1` by a medium.
    pub fn connect(&mut self, mac0: usize, port0: usize, mac1: usize, port1: usize) -> (r: Res<()>)
        requires
            old(self)@.wf(),
        ensures
            final(self)@.wf(),
            match old(self)@.connect(mac0, port0, mac1, port1) {
                Ok(s) => r is Ok && final(self)@ == s,
                Err(e) => (r matches Err(got) && got@ == e) && final(self)@ == old(self)@,
            },
    {
        let dnum0 = match self.find_device(mac0) {
            Ok((dnum0, _)) => dnum0,
            Err(e) => {
                return Err(e);
            },
        };
        let dnum1 = match self.find_device(mac1) {
            Ok((dnum1, _)) => dnum1,
            Err(e) => {
                return Err(e);
            },
        };
        let m = Media { dnum0, port0, dnum1, port1 };
        self.medias.push(m);
        Ok(())
    }

    fn swap_data(&mut self, dnum0: usize, p0: usize, dnum1: usize, p1: usize) -> (r: Result<
        (),
        DeviceError,
    >)
        requires
            old(self)@.wf(),
            dnum0 < old(self)@.devices.len(),
            dnum1 < old(self)@.devices.len(),
        ensures
            final(self)@.wf(),
            final(self)@.medias == old(self)@.medias,
            final(self)@.devices.len() == old(self)@.devices.len(),
            match swap(old(self)@.devices, Media { dnum0, port0: p0, dnum1, port1: p1 }) {
                Ok(ds) => r is Ok && final(self)@.devices == ds,
                Err(e) => r matches Err(got) && got@ == e,
            },
    {
        let ghost ds0 = self@.devices;
        assert(ds0[dnum0 as int] == self.devices@[dnum0 as int]@);
        assert(ds0[dnum1 as int] == self.devices@[dnum1 as int]@);
        assert(ds0[dnum0 as int].wf() && ds0[dnum1 as int].wf());
        match self.devices[dnum0].get_receive_buf(p0) {
            Ok(_) => {},
            Err(e) => {
                return Err(e);
            },
        }
        match self.devices[dnum1].get_receive_buf(p1) {
            Ok(_) => {},
            Err(e) => {
                return Err(e);
            },
        }
        let val0 = match self.devices[dnum0].send(p0) {
            Ok(v) => v,
            Err(e) => {
                return Err(e);
            },
        };
        let ghost ds1 = self@.devices;
        proof {
            assert(ds1 =~= take_byte(ds0, dnum0 as int, p0 as int).0);
            assert(ds1[dnum1 as int] == self.devices@[dnum1 as int]@);
        }
        let val1 = match self.devices[dnum1].send(p1) {
            Ok(v) => v,
            Err(e) => {
                return Err(e);
            },
        };
        let ghost ds2 = self@.devices;
        proof {
            assert(ds2 =~= take_byte(ds1, dnum1 as int, p1 as int).0);
            assert(ds2[dnum1 as int] == self.devices@[dnum1 as int]@);
        }
        if let Some(value) = val0 {
            match self.devices[dnum1].receive(p1, value) {
                Ok(()) => {},
                Err(e) => {
                    return Err(e);
                },
            }
        }
        let ghost ds3 = self@.devices;
        proof {
            assert(ds3 =~= give_byte(ds2, dnum1 as int, p1 as int, val0));
            assert(ds3[dnum0 as int] == self.devices@[dnum0 as int]@);
        }
        if let Some(value) = val1 {
            match self.devices[dnum0].receive(p0, value) {
                Ok(()) => {},
                Err(e) => {
                    return Err(e);
                },
            }
        }
        proof {
            assert(self@.devices =~= give_byte(ds3, dnum0 as int, p0 as int, val1));
            assert forall|i: int| 0 <= i < self@.devices.len() implies (#[trigger] self@.devices[i]).wf() by {
                assert(self@.devices[i] == self.devices@[i]@);
                assert(ds0[i].wf());
            }
            assert forall|i: int| 0 <= i < self@.medias.len() implies (#[trigger] self@.medias[i]).dnum0
                < self@.devices.len() && self@.medias[i].dnum1 < self@.devices.len() by {
                assert(self@.medias[i] == old(self)@.medias[i]);
            }
        }
        Ok(())
    }

    fn update_devices(&mut self)
        requires
            old(self)@.wf(),
        ensures
            final(self)@.wf(),
            final(self)@ == (NetworkView {
                devices: update_devices(old(self)@.devices, old(self)@.devices.len() as int),
                ..old(self)@
            }),
            final(self)@.devices.len() == old(self)@.devices.len(),
    {
        let n = self.devices.len();
        let mut i: usize = 0;
        while i < n
            invariant
                i <= n,
                n == self.devices@.len(),
                n == old(self)@.devices.len(),
                self@.wf(),
                self@ == (NetworkView {
                    devices: update_devices(old(self)@.devices, i as int),
                    ..old(self)@
                }),
            decreases n - i,
        {
            let ghost before = self@.devices;
            let ghost links = self@.medias;
            assert(before[i as int] == self.devices@[i as int]@);
            assert(before[i as int].wf());
            assert(forall|j: int|
                0 <= j < links.len() ==> (#[trigger] links[j]).dnum0 < before.len() && links[j].dnum1
                    < before.len());
            let _ = self.devices[i].update();
            proof {
                assert(self@.devices =~= before.update(i as int, before[i as int].update()));
                crate::device::lemma_update_ports_wf(
                    before[i as int],
                    before[i as int].num_ports as int,
                );
                assert forall|j: int| 0 <= j < self@.devices.len() implies (
                #[trigger] self@.devices[j]).wf() by {
                    if j != i {
                        assert(self@.devices[j] == before[j]);
                    }
                }
                assert forall|j: int| 0 <= j < self@.medias.len() implies (
                #[trigger] self@.medias[j]).dnum0 < self@.devices.len() && self@.medias[j].dnum1
                    < self@.devices.len() by {
                    assert(self@.medias[j] == links[j]);
                }
            }
            i = i + 1;
        }
    }

    fn swap_medias(&mut self) -> (r: Result<(), DeviceError>)
        requires
            old(self)@.wf(),
        ensures
            final(self)@.wf(),
            final(self)@.medias == old(self)@.medias,
            match swap_all(old(self)@.devices, old(self)@.medias, old(self)@.medias.len() as int) {
                Ok(ds) => r is Ok && final(self)@.devices == ds,
                Err(e) => r matches Err(got) && got@ == e,
            },
    {
        let n = self.medias.len();
        let mut i: usize = 0;
        while i < n
            invariant
                i <= n,
                n == self.medias@.len(),
                self@.wf(),
                self@.medias == old(self)@.medias,
                swap_all(old(self)@.devices, old(self)@.medias, i as int) == Ok::<
                    Seq<DeviceView>,
                    DeviceErrorView,
                >(self@.devices),
            decreases n - i,
        {
            let media = self.medias[i];
            assert(media == self@.medias[i as int]);
            match self.swap_data(media.dnum0, media.port0, media.dnum1, media.port1) {
                Ok(()) => {},
                Err(e) => {
                    proof {
                        lemma_swap_failed(
                            old(self)@.devices,
                            old(self)@.medias,
                            i as int + 1,
                            n as int,
                        );
                    }
                    return Err(e);
                },
            }
            i = i + 1;
        }
        Ok(())
    }

    /// Runs the network for `max_t` ticks and stops at the first error.
    pub fn start(&mut self, max_t: usize) -> (r: Res<()>)
        requires
            old(self)@.wf(),
        ensures
            final(self)@.wf(),
            match old(self)@.start(max_t as nat) {
                Ok(s) => r is Ok && final(self)@ == s,
                Err(e) => r matches Err(got) && got@ == e,
            },
    {
        let mut t: usize = 0;
        while t < max_t
            invariant
                t <= max_t,
                self@.wf(),
                old(self)@.start(t as nat) == Ok::<NetworkView, NetworkErrorView>(self@),
            decreases max_t - t,
        {
            self.update_devices();
            match self.swap_medias() {
                Ok(()) => {},
                Err(e) => {
                    proof {
                        lemma_start_failed(old(self)@, (t + 1) as nat, max_t as nat);
                    }
                    return Err(wrap(e));
                },
            }
            t = t + 1;
        }
        Ok(())
    }

    /// The bytes that wait in the receive queue of `port` of the first
    /// device with the address `mac`.
    pub fn get_receive_buf(&self, mac: usize, port: usize) -> (r: Res<&VecDeque<u8>>)
        requires
            self@.wf(),
        ensures
            match find_device(self@.devices, mac, self@.devices.len() as int) {
                None => r matches Err(e) && e@ == (NetworkErrorView::DeviceNotFound { mac }),
                Some(i) => if port < self@.devices[i].num_ports {
                    r matches Ok(q) && q@ == self@.devices[i].recv[port as int]
                } else {
                    r matches Err(e) && e@ == NetworkErrorView::DeviceError(
                        self@.devices[i].invalid_port(port),
                    )
                },
            },
    {
        let d = match self.find_device(mac) {
            Ok((_, d)) => d,
            Err(e) => {
                return Err(e);
            },
        };
        match d.get_receive_buf(port) {
            Ok(q) => Ok(q),
            Err(e) => Err(wrap(e)),
        }
    }
}

/// Once a device with the address was found among the first `k`, the result
/// stays with more devices.
proof fn lemma_device_found(devices: Seq<DeviceView>, mac: usize, k: int, m: int)
    requires
        0 <= k <= m,
        find_device(devices, mac, k) is Some,
    ensures
        find_device(devices, mac, m) == find_device(devices, mac, k),
    decreases m - k,
{
    if k < m {
        lemma_device_found(devices, mac, k, m - 1);
    }
}

/// An error of a medium stays the result of the phase.
proof fn lemma_swap_failed(devices: Seq<DeviceView>, medias: Seq<Media>, k: int, m: int)
    requires
        0 <= k <= m,
        swap_all(devices, medias, k) is Err,
    ensures
        swap_all(devices, medias, m) == swap_all(devices, medias, k),
    decreases m - k,
{
    if k < m {
        lemma_swap_failed(devices, medias, k, m - 1);
    }
}

/// An error in a tick stays the result of the run.
proof fn lemma_start_failed(s: NetworkView, k: nat, m: nat)
    requires
        k <= m,
        s.start(k) is Err,
    ensures
        s.start(m) == s.start(k),
    decreases m - k,
{
    if k < m {
        lemma_start_failed(s, k, (m - 1) as nat);
    }
}

/// The bytes of the word "Hello".
pub open spec fn hello() -> Seq<u8> {
    seq![72u8, 101u8, 108u8, 108u8, 111u8]
}

/// The sample of two hosts at a hub before its first tick: the first host
/// has the bytes of "Hello" to send, and the hub forwards what arrived at a
/// port once two bytes wait there.
pub open spec fn sample_devices() -> Seq<DeviceView> {
    let host = fresh_device(1011, "HostA"@, 1, Operation::Host(Host {  }));
    seq![
        DeviceView { send: host.send.update(0, host.send[0] + hello()), ..host },
        fresh_device(1012, "HostB"@, 1, Operation::Host(Host {  })),
        fresh_device(1013, "Hub"@, 2, Operation::Hub(Hub { store_size: 2 })),
    ]
}

/// What the second host of the sample has received after ten ticks.
#[verifier::opaque]
pub open spec fn sample_outcome() -> Result<Seq<u8>, NetworkErrorView> {
    let s0 = NetworkView { devices: sample_devices(), medias: Seq::empty() };
    match s0.connect(1011, 0, 1013, 0) {
        Err(e) => Err(e),
        Ok(s1) => match s1.connect(1012, 0, 1013, 1) {
            Err(e) => Err(e),
            Ok(s2) => match s2.start(10) {
                Err(e) => Err(e),
                Ok(s3) => match find_device(s3.devices, 1012, s3.devices.len() as int) {
                    None => Err(NetworkErrorView::DeviceNotFound { mac: 1012 }),
                    Some(i) => if 0 < s3.devices[i].num_ports {
                        Ok(s3.devices[i].recv[0])
                    } else {
                        Err(NetworkErrorView::DeviceError(s3.devices[i].invalid_port(0)))
                    },
                },
            },
        },
    }
}

fn copy_queue(q: &VecDeque<u8>) -> (r: Vec<u8>)
    ensures
        r@ == q@,
{
    let mut r: Vec<u8> = Vec::new();
    let mut i: usize = 0;
    while i < q.len()
        invariant
            i <= q.len(),
            r@ == q@.subrange(0, i as int),
        decreases q.len() - i,
    {
        r.push(q[i]);
        i = i + 1;
        assert(r@ =~= q@.subrange(0, i as int));
    }
    assert(q@.subrange(0, q@.len() as int) =~= q@);
    r
}

/// Runs the sample of two hosts at a hub for ten ticks and gives what the
/// second host has received.
pub fn run_1hub_2host() -> (r: Res<Vec<u8>>)
    ensures
        match sample_outcome() {
            Ok(bytes) => r matches Ok(got) && got@ == bytes,
            Err(e) => r matches Err(got) && got@ == e,
        },
{
    reveal(sample_outcome);
    let mut nw = Network::new();
    let mut host_a = Host::new(1011, "HostA");
    let word: [u8; 5] = [72, 101, 108, 108, 111];
    assert(word@ =~= hello());
    let _ = host_a.push_to_send(0, word.as_slice());
    let host_b = Host::new(1012, "HostB");
    let hub = Hub::new(1013, "Hub", 2, 2);
    nw.add_device(host_a);
    nw.add_device(host_b);
    nw.add_device(hub);
    assert(nw@.devices =~= sample_devices());
    match nw.connect(1011, 0, 1013, 0) {
        Ok(()) => {},
        Err(e) => {
            return Err(e);
        },
    }
    match nw.connect(1012, 0, 1013, 1) {
        Ok(()) => {},
        Err(e) => {
            return Err(e);
        },
    }
    match nw.start(10) {
        Ok(()) => {},
        Err(e) => {
            return Err(e);
        },
    }
    match nw.get_receive_buf(1012, 0) {
        Ok(q) => Ok(copy_queue(q)),
        Err(e) => Err(e),
    }
}

/// Runs the sample of two hosts at a hub.
pub fn run_main() -> (r: Res<()>)
    ensures
        match sample_outcome() {
            Ok(_) => r is Ok,
            Err(e) => r matches Err(got) && got@ == e,
        },
{
    match run_1hub_2host() {
        Ok(_) => Ok(()),
        Err(e) => Err(e),
    }
}

} // verus!
