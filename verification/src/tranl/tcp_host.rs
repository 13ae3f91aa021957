//! The host of the stream transport. It has one socket. An application
//! drives it by a queue of instructions, and the segments that arrive move
//! the connection from state to state.
use vstd::prelude::*;
use std::collections::VecDeque;
use crate::linkl::ethernet_device::EthernetDeviceView;
use crate::netwl::ip::{IP, IpPayloadView};
use crate::netwl::ip_addr::{IpAddr, SubnetMask};
use crate::netwl::ip_device::{BaseIpDevice, IpDeviceView, fresh_ip_device};
use crate::netwl::network_protocol::{NetworkProtocol, NetworkProtocolView};
use crate::physl::device::{BaseDeviceView, Device};
use crate::types::{Error, ErrorView, Mac, Port, Res, TPort, UpdateContext};
use super::tcp::{
    FLAGS_ACK, FLAGS_FIN, FLAGS_FINACK, FLAGS_SYN, FLAGS_SYNACK, TCP, TCPView, TcpContent,
    spec_segment,
};
use super::types::{Inst, InstView, Socket, State, insts_view};

verus! {

/// The local port of every segment that an instruction makes.
pub const LOCAL_PORT: u16 = 0;

/// The segments of a log, each by its view.
pub open spec fn segments_view(log: Seq<TCP>) -> Seq<TCPView> {
    log.map_values(|s: TCP| s@)
}

/// What the head instruction `inst` does to the socket: the new socket and
/// the segment to send, or nothing while the state of the socket does not
/// allow the instruction.
///
/// Without a socket only `Socket` is allowed, and it makes a closed one. A
/// closed socket connects, which sends a Syn, or listens. An established
/// one sends data, waits for data, or closes, which sends a Fin.
pub open spec fn spec_step_inst(socket: Option<Socket>, inst: InstView) -> Option<
    (Socket, Option<TCPView>),
> {
    let local = TPort { value: LOCAL_PORT };
    match socket {
        None => match inst {
            InstView::Socket(_) => Some((Socket::spec_new(), None)),
            _ => None,
        },
        Some(s) => if s.state == State::Closed {
            match inst {
                InstView::Connect(_, ip, port) => Some(
                    (
                        Socket { state: State::SynSent, dst_port: port, dst_ip: ip },
                        Some(
                            spec_segment(local, port, 0, 0, FLAGS_SYN, Seq::empty(), TcpContent::Syn),
                        ),
                    ),
                ),
                InstView::Listen(_, _) => Some((Socket { state: State::Listening, ..s }, None)),
                _ => None,
            }
        } else if s.state == State::Established {
            match inst {
                InstView::Send(_, msg) => Some(
                    (
                        Socket { state: State::DataSent, ..s },
                        Some(
                            spec_segment(
                                local,
                                s.dst_port,
                                0,
                                0,
                                0,
                                vstd::utf8::encode_utf8(msg),
                                TcpContent::Data,
                            ),
                        ),
                    ),
                ),
                InstView::Recv(_) => Some((Socket { state: State::DataReceiving, ..s }, None)),
                InstView::Close(_) => Some(
                    (
                        Socket { state: State::FinSent, ..s },
                        Some(
                            spec_segment(
                                local,
                                s.dst_port,
                                0,
                                0,
                                FLAGS_FIN,
                                Seq::empty(),
                                TcpContent::Fin,
                            ),
                        ),
                    ),
                ),
                _ => None,
            }
        } else {
            None
        },
    }
}

/// The answer to the segment `tcp` with the given flags and content: a
/// segment without payload from the port that `tcp` went to, to the port
/// that it came from.
pub open spec fn spec_answer(tcp: TCPView, flags: u8, content: TcpContent) -> TCPView {
    spec_segment(tcp.dst, tcp.src, 0, 0, flags, Seq::empty(), content)
}

/// The error for a segment that the state of the connection does not
/// allow.
pub open spec fn unexpected_segment() -> ErrorView {
    ErrorView::InvalidTcpReceived { msg: "segment does not fit the state of the connection"@ }
}

/// What the segment `tcp`, which came from `src_ip`, does to the socket:
/// the new socket and the answer to send, or the error if the state of the
/// connection does not allow the segment.
///
/// | state         | segment | new state   | answer |
/// |---------------|---------|-------------|--------|
/// | Listening     | Syn     | SynAckSent  | SynAck |
/// | SynSent       | SynAck  | Established | Ack    |
/// | SynAckSent    | Ack     | Established |        |
/// | Established   | Fin     | FinAckSent  | FinAck |
/// | DataReceiving | Data    | Established | Ack    |
/// | DataSent      | Ack     | Established |        |
/// | FinSent       | FinAck  | Closed      | Ack    |
/// | FinAckSent    | Ack     | Closed      |        |
///
/// A listening socket takes the sender of the Syn as its peer.
pub open spec fn spec_transition(socket: Option<Socket>, tcp: TCPView, src_ip: IpAddr) -> Result<
    (Socket, Option<TCPView>),
    ErrorView,
> {
    match socket {
        None => Err(ErrorView::InvalidTcpReceived { msg: "state is NoConnection"@ }),
        Some(s) => {
            let c = tcp.content;
            let ack = Some(spec_answer(tcp, FLAGS_ACK, TcpContent::Ack));
            if s.state == State::Closed {
                Err(ErrorView::InvalidTcpReceived { msg: "state is closed but TCP received"@ })
            } else if s.state == State::Listening && c == TcpContent::Syn {
                Ok(
                    (
                        Socket { state: State::SynAckSent, dst_port: tcp.src, dst_ip: src_ip },
                        Some(spec_answer(tcp, FLAGS_SYNACK, TcpContent::SynAck)),
                    ),
                )
            } else if s.state == State::SynSent && c == TcpContent::SynAck {
                Ok((Socket { state: State::Established, ..s }, ack))
            } else if s.state == State::SynAckSent && c == TcpContent::Ack {
                Ok((Socket { state: State::Established, ..s }, None))
            } else if s.state == State::Established && c == TcpContent::Fin {
                Ok(
                    (
                        Socket { state: State::FinAckSent, ..s },
                        Some(spec_answer(tcp, FLAGS_FINACK, TcpContent::FinAck)),
                    ),
                )
            } else if s.state == State::DataReceiving && c == TcpContent::Data {
                Ok((Socket { state: State::Established, ..s }, ack))
            } else if s.state == State::DataSent && c == TcpContent::Ack {
                Ok((Socket { state: State::Established, ..s }, None))
            } else if s.state == State::FinSent && c == TcpContent::FinAck {
                Ok((Socket { state: State::Closed, ..s }, ack))
            } else if s.state == State::FinAckSent && c == TcpContent::Ack {
                Ok((Socket { state: State::Closed, ..s }, None))
            } else {
                Err(unexpected_segment())
            }
        },
    }
}

/// What the head instruction `inst` does to the socket.
pub fn step_inst(socket: Option<Socket>, inst: &Inst) -> (r: Option<(Socket, Option<TCP>)>)
    ensures
        match spec_step_inst(socket, inst@) {
            None => r.is_none(),
            Some((s, None)) => r matches Some((got, None)) && got == s,
            Some((s, Some(seg))) => r matches Some((got, Some(out))) && got == s && out@ == seg,
        },
{
    let local = TPort::new(LOCAL_PORT);
    match socket {
        None => match inst {
            Inst::Socket(_sid) => Some((Socket::new(), None)),
            _ => None,
        },
        Some(s) => {
            let mut s = s;
            if s.state == State::Closed {
                match inst {
                    Inst::Connect(_sid, ip_addr, port) => {
                        s.set_state(State::SynSent);
                        s.set_dst(*port, *ip_addr);
                        Some((s, Some(TCP::new_syn(local, *port, 0))))
                    },
                    Inst::Listen(_sid, _port) => {
                        s.set_state(State::Listening);
                        Some((s, None))
                    },
                    _ => None,
                }
            } else if s.state == State::Established {
                match inst {
                    Inst::Send(_sid, msg) => {
                        s.set_state(State::DataSent);
                        let payload = vstd::slice::slice_to_vec(msg.as_str().as_bytes());
                        Some((s, Some(TCP::new_data(local, s.dst_port, 0, 0, 0, payload))))
                    },
                    Inst::Recv(_sid) => {
                        s.set_state(State::DataReceiving);
                        Some((s, None))
                    },
                    Inst::Close(_sid) => {
                        s.set_state(State::FinSent);
                        Some((s, Some(TCP::new_fin(local, s.dst_port, 0, 0))))
                    },
                    _ => None,
                }
            } else {
                None
            }
        },
    }
}

/// What the segment `tcp`, which came from `src_ip`, does to the socket.
pub fn transition(socket: Option<Socket>, tcp: &TCP, src_ip: IpAddr) -> (r: Res<
    (Socket, Option<TCP>),
>)
    ensures
        match spec_transition(socket, tcp@, src_ip) {
            Err(e) => r matches Err(got) && got@ == e,
            Ok((s, None)) => r matches Ok((got, None)) && got == s,
            Ok((s, Some(seg))) => r matches Ok((got, Some(out))) && got == s && out@ == seg,
        },
{
    let s = match socket {
        None => {
            return Err(Error::InvalidTcpReceived { msg: "state is NoConnection".to_string() });
        },
        Some(s) => s,
    };
    let mut s = s;
    let cnt = tcp.content;
    match s.state {
        State::Closed => Err(
            Error::InvalidTcpReceived { msg: "state is closed but TCP received".to_string() },
        ),
        State::Listening => {
            if cnt == TcpContent::Syn {
                s.set_state(State::SynAckSent);
                s.set_dst(tcp.src, src_ip);
                Ok((s, Some(TCP::new_synack(tcp.dst, tcp.src, 0))))
            } else {
                Err(unexpected())
            }
        },
        State::SynSent => {
            if cnt == TcpContent::SynAck {
                s.set_state(State::Established);
                Ok((s, Some(TCP::new_ack(tcp.dst, tcp.src, 0, 0))))
            } else {
                Err(unexpected())
            }
        },
        State::SynAckSent => {
            if cnt == TcpContent::Ack {
                s.set_state(State::Established);
                Ok((s, None))
            } else {
                Err(unexpected())
            }
        },
        State::Established => {
            if cnt == TcpContent::Fin {
                s.set_state(State::FinAckSent);
                Ok((s, Some(TCP::new_finack(tcp.dst, tcp.src, 0, 0))))
            } else {
                Err(unexpected())
            }
        },
        State::DataReceiving => {
            if cnt == TcpContent::Data {
                s.set_state(State::Established);
                Ok((s, Some(TCP::new_ack(tcp.dst, tcp.src, 0, 0))))
            } else {
                Err(unexpected())
            }
        },
        State::DataSent => {
            if cnt == TcpContent::Ack {
                s.set_state(State::Established);
                Ok((s, None))
            } else {
                Err(unexpected())
            }
        },
        State::FinSent => {
            if cnt == TcpContent::FinAck {
                s.set_state(State::Closed);
                Ok((s, Some(TCP::new_ack(tcp.dst, tcp.src, 0, 0))))
            } else {
                Err(unexpected())
            }
        },
        State::FinAckSent => {
            if cnt == TcpContent::Ack {
                s.set_state(State::Closed);
                Ok((s, None))
            } else {
                Err(unexpected())
            }
        },
    }
}

fn unexpected() -> (e: Error)
    ensures
        e@ == unexpected_segment(),
{
    Error::InvalidTcpReceived {
        msg: "segment does not fit the state of the connection".to_string(),
    }
}

/// The state of a [`TcpHost`].
pub struct TcpHostView {
    pub ip: IpDeviceView,
    pub insts: Seq<InstView>,
    pub socket: Option<Socket>,
    pub recv_log: Seq<TCPView>,
    pub send_log: Seq<TCPView>,
}

impl TcpHostView {
    /// The IP device is well formed and has the one interface of a host.
    pub open spec fn wf(self) -> bool {
        self.ip.wf() && self.ip.ifaces.len() == 1
    }

    /// The address of the host.
    pub open spec fn ip_addr(self) -> IpAddr {
        self.ip.ifaces[0].0
    }

    /// The datagram that carries the segment `tcp` to the peer `dst`.
    pub open spec fn datagram(self, tcp: TCPView, dst: IpAddr) -> NetworkProtocolView {
        NetworkProtocolView::IP(
            crate::netwl::ip::spec_new(
                self.ip_addr(),
                dst,
                IpPayloadView::Bytes(super::tcp::spec_encode(tcp)),
            ),
        )
    }

    /// The state after the segment `tcp` was sent to the peer of the socket
    /// during the tick `t` and logged. Without a socket nothing can be sent.
    pub open spec fn send(self, tcp: TCPView, t: usize) -> Result<TcpHostView, ErrorView> {
        match self.socket {
            None => Err(ErrorView::InvalidTcpReceived { msg: "socket is None"@ }),
            Some(s) => Ok(
                TcpHostView {
                    ip: self.ip.send(self.datagram(tcp, s.dst_ip), t),
                    send_log: self.send_log.push(tcp),
                    ..self
                },
            ),
        }
    }

    /// The state after the head instruction was looked at, and the segment
    /// that it asks to send. An instruction that the socket does not allow
    /// yet stays at the head of the queue.
    pub open spec fn consume_inst(self) -> (TcpHostView, Option<TCPView>) {
        if self.insts.len() == 0 {
            (self, None)
        } else {
            match spec_step_inst(self.socket, self.insts[0]) {
                None => (self, None),
                Some((s, seg)) => (
                    TcpHostView { socket: Some(s), insts: self.insts.drop_first(), ..self },
                    seg,
                ),
            }
        }
    }

    /// The state after the oldest received frame was taken during the tick
    /// `t`, and the segment that it held with the address that it came from.
    /// Only a datagram holds a segment.
    pub open spec fn take(self, t: usize) -> (
        TcpHostView,
        Result<Option<(TCPView, IpAddr)>, ErrorView>,
    ) {
        let (ip, r) = self.ip.take(t);
        let s = TcpHostView { ip, ..self };
        match r {
            Err(e) => (s, Err(e)),
            Ok(None) => (s, Ok(None)),
            Ok(Some(NetworkProtocolView::ARP(_))) => (s, Ok(None)),
            Ok(Some(NetworkProtocolView::IP(d))) => match super::tcp::spec_decode(
                d.payload.bytes(),
            ) {
                Err(e) => (s, Err(e)),
                Ok(tcp) => (
                    TcpHostView { recv_log: s.recv_log.push(tcp), ..s },
                    Ok(Some((tcp, d.src))),
                ),
            },
        }
    }

    /// The state after the segment `tcp` from `src_ip` moved the
    /// connection, and the answer to send.
    pub open spec fn transform_tcp(self, tcp: TCPView, src_ip: IpAddr) -> Result<
        (TcpHostView, Option<TCPView>),
        ErrorView,
    > {
        match spec_transition(self.socket, tcp, src_ip) {
            Err(e) => Err(e),
            Ok((s, seg)) => Ok((TcpHostView { socket: Some(s), ..self }, seg)),
        }
    }

    /// The state after `seg` was sent, if there is a segment to send.
    pub open spec fn send_if(self, seg: Option<TCPView>, t: usize) -> Result<TcpHostView, ErrorView> {
        match seg {
            None => Ok(self),
            Some(tcp) => self.send(tcp, t),
        }
    }

    /// The state after at most `n` received frames were served during the
    /// tick `t`: the segment of each moves the connection and is answered.
    /// The first frame that holds no segment for this host ends the turn,
    /// and the first error ends it with that error.
    pub open spec fn serve(self, t: usize, n: nat) -> Result<TcpHostView, ErrorView>
        decreases n,
    {
        if n == 0 || self.ip.eth.rbuf.len() == 0 {
            Ok(self)
        } else {
            match self.take(t) {
                (_, Err(e)) => Err(e),
                (s, Ok(None)) => Ok(s),
                (s, Ok(Some((tcp, src_ip)))) => match s.transform_tcp(tcp, src_ip) {
                    Err(e) => Err(e),
                    Ok((s1, seg)) => match s1.send_if(seg, t) {
                        Err(e) => Err(e),
                        Ok(s2) => s2.serve(t, (n - 1) as nat),
                    },
                },
            }
        }
    }

    /// The state of the host after the tick `t`: the head instruction is
    /// carried out if the socket allows it, then the received bytes are read
    /// and the received segments served.
    pub open spec fn update(self, t: usize) -> Result<TcpHostView, ErrorView> {
        let (s, seg) = self.consume_inst();
        match s.send_if(seg, t) {
            Err(e) => Err(e),
            Ok(s1) => {
                let s2 = TcpHostView { ip: s1.ip.absorb(t), ..s1 };
                s2.serve(t, s2.ip.eth.rbuf.len())
            },
        }
    }
}

/// Serving received frames keeps the state well formed and the identity of
/// the host unchanged.
pub proof fn lemma_serve_wf(s: TcpHostView, t: usize, n: nat)
    requires
        s.wf(),
    ensures
        s.serve(t, n) matches Ok(s1) ==> s1.wf() && s1.ip.eth.base.mac == s.ip.eth.base.mac
            && s1.ip.eth.base.name == s.ip.eth.base.name && s1.ip.eth.base.num_ports
            == s.ip.eth.base.num_ports,
    decreases n,
{
    if n == 0 || s.ip.eth.rbuf.len() == 0 {
    } else {
        match s.take(t) {
            (_, Err(e)) => {},
            (s0, Ok(None)) => {},
            (s0, Ok(Some((tcp, src_ip)))) => match s0.transform_tcp(tcp, src_ip) {
                Err(e) => {},
                Ok((s1, seg)) => {
                    lemma_send_if_wf(s1, seg, t);
                    match s1.send_if(seg, t) {
                        Err(e) => {},
                        Ok(s2) => {
                            lemma_serve_wf(s2, t, (n - 1) as nat);
                        },
                    }
                },
            },
        }
    }
}

/// Sending a segment keeps the state well formed and the identity of the
/// host unchanged.
pub proof fn lemma_send_if_wf(s: TcpHostView, seg: Option<TCPView>, t: usize)
    requires
        s.wf(),
    ensures
        s.send_if(seg, t) matches Ok(s1) ==> s1.wf() && s1.ip.eth.base.mac == s.ip.eth.base.mac
            && s1.ip.eth.base.name == s.ip.eth.base.name && s1.ip.eth.base.num_ports
            == s.ip.eth.base.num_ports && s1.ip.eth.rbuf == s.ip.eth.rbuf,
{
    match seg {
        None => {},
        Some(tcp) => match s.socket {
            None => {},
            Some(sock) => {
                let p = s.datagram(tcp, sock.dst_ip);
                crate::netwl::ip_device::lemma_send_with_wf(
                    s.ip,
                    p,
                    t,
                    crate::netwl::ip_device::UNREACHABLE_RETRIES as nat,
                );
                crate::netwl::ip_device::lemma_send_with_keeps(
                    s.ip,
                    p,
                    t,
                    crate::netwl::ip_device::UNREACHABLE_RETRIES as nat,
                );
            },
        },
    }
}

/// A tick keeps the state of a host well formed and its identity
/// unchanged.
pub proof fn lemma_update_wf(s: TcpHostView, t: usize)
    requires
        s.wf(),
    ensures
        s.update(t) matches Ok(s1) ==> s1.wf() && s1.ip.eth.base.mac == s.ip.eth.base.mac
            && s1.ip.eth.base.name == s.ip.eth.base.name && s1.ip.eth.base.num_ports
            == s.ip.eth.base.num_ports,
{
    let (s0, seg) = s.consume_inst();
    lemma_send_if_wf(s0, seg, t);
    match s0.send_if(seg, t) {
        Err(_) => {},
        Ok(s1) => {
            crate::linkl::ethernet_device::lemma_absorb_wf(s1.ip.eth, t);
            let s2 = TcpHostView { ip: s1.ip.absorb(t), ..s1 };
            lemma_serve_wf(s2, t, s2.ip.eth.rbuf.len());
        },
    }
}

pub struct TcpHost {
    ip_base: BaseIpDevice,
    insts: VecDeque<Inst>,
    socket: Option<Socket>,
    recv_log: Vec<TCP>,
    send_log: Vec<TCP>,
}

impl View for TcpHost {
    type V = TcpHostView;

    closed spec fn view(&self) -> TcpHostView {
        TcpHostView {
            ip: self.ip_base@,
            insts: insts_view(self.insts@),
            socket: self.socket,
            recv_log: segments_view(self.recv_log@),
            send_log: segments_view(self.send_log@),
        }
    }
}

/// The state of a host that has seen nothing yet.
pub open spec fn fresh_tcp_host(
    mac: Mac,
    name: Seq<char>,
    ip_addr: IpAddr,
    subnet_mask: SubnetMask,
) -> TcpHostView {
    TcpHostView {
        ip: fresh_ip_device(mac, name, seq![ip_addr], subnet_mask),
        insts: Seq::empty(),
        socket: None,
        recv_log: Seq::empty(),
        send_log: Seq::empty(),
    }
}

impl TcpHost {
    pub fn new(mac: Mac, name: &str, ip_addr: IpAddr, subnet_mask: SubnetMask) -> (h: TcpHost)
        ensures
            h.wf(),
            h@ == fresh_tcp_host(mac, name@, ip_addr, subnet_mask),
    {
        let addrs: Vec<IpAddr> = vec![ip_addr];
        assert(addrs@ =~= seq![ip_addr]);
        let h = TcpHost {
            ip_base: BaseIpDevice::new(mac, name, addrs, subnet_mask),
            socket: None,
            insts: VecDeque::new(),
            recv_log: Vec::new(),
            send_log: Vec::new(),
        };
        proof {
            let want = fresh_tcp_host(mac, name@, ip_addr, subnet_mask);
            assert(h@.insts =~= want.insts);
            assert(h@.recv_log =~= want.recv_log);
            assert(h@.send_log =~= want.send_log);
        }
        h
    }

    pub fn build(mac: Mac, name: &str, ip_addr: IpAddr, subnet_mask: SubnetMask) -> (h: TcpHost)
        ensures
            h.wf(),
            h@ == fresh_tcp_host(mac, name@, ip_addr, subnet_mask),
    {
        TcpHost::new(mac, name, ip_addr, subnet_mask)
    }

    /// The address of the host.
    pub fn get_ip_addr(&self) -> (a: IpAddr)
        requires
            self.wf(),
        ensures
            a == self@.ip_addr(),
    {
        proof {
            let ifaces = self@.ip.ifaces;
            assert(ifaces[0].1 == Port { value: 0 });
            reveal_with_fuel(crate::netwl::ip_device::address_of_port, 2);
            assert(crate::netwl::ip_device::address_of_port(ifaces, Port { value: 0 }, 1) == Some(
                ifaces[0].0,
            ));
        }
        match self.ip_base.get_ip_addr(Port::new(0)) {
            Some(a) => a,
            None => IpAddr::new(0),
        }
    }

    /// Enters `mac` for `ip_addr` in the ARP table.
    pub fn add_arp_entry(&mut self, ip_addr: IpAddr, mac: Mac) -> (r: Res<()>)
        ensures
            r is Ok,
            final(self)@ == (TcpHostView { ip: old(self)@.ip.with_arp(ip_addr, mac), ..old(self)@ }),
            old(self).wf() ==> final(self).wf(),
    {
        self.ip_base.add_arp_entry(ip_addr, mac)
    }

    /// Appends `inst` to the queue of instructions.
    pub fn add_inst(&mut self, inst: Inst)
        ensures
            final(self)@ == (TcpHostView { insts: old(self)@.insts.push(inst@), ..old(self)@ }),
            old(self).wf() ==> final(self).wf(),
    {
        self.insts.push_back(inst);
        proof {
            assert(insts_view(self.insts@) =~= insts_view(old(self).insts@).push(inst@));
        }
    }

    /// Every segment received so far.
    pub fn get_recv_log(&self) -> (log: &Vec<TCP>)
        ensures
            segments_view(log@) == self@.recv_log,
    {
        &self.recv_log
    }

    /// Every segment sent so far.
    pub fn get_send_log(&self) -> (log: &Vec<TCP>)
        ensures
            segments_view(log@) == self@.send_log,
    {
        &self.send_log
    }

    /// The socket, if one was made.
    pub fn get_socket(&self) -> (s: Option<Socket>)
        ensures
            s == self@.socket,
    {
        self.socket
    }

    /// Looks at the head instruction and carries it out if the socket
    /// allows it. Gives the segment that the instruction asks to send.
    pub fn consume_inst(&mut self, _ctx: &UpdateContext) -> (r: Option<TCP>)
        ensures
            final(self)@ == old(self)@.consume_inst().0,
            match old(self)@.consume_inst().1 {
                None => r.is_none(),
                Some(seg) => r matches Some(out) && out@ == seg,
            },
            r is Some ==> final(self)@.socket is Some,
            old(self).wf() ==> final(self).wf(),
    {
        if self.insts.len() == 0 {
            return None;
        }
        match step_inst(self.socket, &self.insts[0]) {
            None => None,
            Some((s, seg)) => {
                self.socket = Some(s);
                self.insts.pop_front();
                proof {
                    assert(insts_view(self.insts@) =~= insts_view(old(self).insts@).drop_first());
                }
                seg
            },
        }
    }

    /// Moves the connection by the received segment `tcp`, which came from
    /// `src_ip`, and gives the answer to send.
    pub fn transform_tcp(&mut self, tcp: &TCP, src_ip: IpAddr, _ctx: &UpdateContext) -> (r: Res<
        Option<TCP>,
    >)
        ensures
            match old(self)@.transform_tcp(tcp@, src_ip) {
                Err(e) => (r matches Err(got) && got@ == e) && final(self)@ == old(self)@,
                Ok((s, None)) => r matches Ok(None) && final(self)@ == s,
                Ok((s, Some(seg))) => (r matches Ok(Some(out)) && out@ == seg) && final(self)@ == s,
            },
            r is Ok ==> final(self)@.socket is Some,
            old(self).wf() ==> final(self).wf(),
    {
        match transition(self.socket, tcp, src_ip) {
            Err(e) => Err(e),
            Ok((s, seg)) => {
                self.socket = Some(s);
                Ok(seg)
            },
        }
    }

    /// Takes the oldest received frame and gives the segment that it holds
    /// for this host, with the address that it came from.
    pub fn take(&mut self, ctx: &UpdateContext) -> (r: Res<Option<(TCP, IpAddr)>>)
        requires
            old(self).wf(),
        ensures
            final(self).wf(),
            final(self)@ == old(self)@.take(ctx.t).0,
            match old(self)@.take(ctx.t).1 {
                Err(e) => r matches Err(got) && got@ == e,
                Ok(None) => r matches Ok(None),
                Ok(Some((tcp, src))) => r matches Ok(Some((got, from))) && got@ == tcp && from == src,
            },
    {
        let d = match self.ip_base.take(ctx) {
            Err(e) => {
                return Err(e);
            },
            Ok(None) => {
                return Ok(None);
            },
            Ok(Some(NetworkProtocol::ARP(_))) => {
                return Ok(None);
            },
            Ok(Some(NetworkProtocol::IP(d))) => d,
        };
        let bytes = d.payload.to_bytes();
        match TCP::decode(&bytes) {
            Err(e) => Err(e),
            Ok(tcp) => {
                self.recv_log.push(tcp.clone());
                proof {
                    assert(segments_view(self.recv_log@) =~= segments_view(old(self).recv_log@).push(
                        tcp@,
                    ));
                }
                Ok(Some((tcp, d.src)))
            },
        }
    }

    /// Reads the received bytes, takes the oldest received frame and gives
    /// the segment that it holds for this host.
    pub fn recv(&mut self, ctx: &UpdateContext) -> (r: Res<Option<(TCP, IpAddr)>>)
        requires
            old(self).wf(),
        ensures
            final(self).wf(),
            ({
                let s = TcpHostView { ip: old(self)@.ip.absorb(ctx.t), ..old(self)@ };
                &&& final(self)@ == s.take(ctx.t).0
                &&& match s.take(ctx.t).1 {
                    Err(e) => r matches Err(got) && got@ == e,
                    Ok(None) => r matches Ok(None),
                    Ok(Some((tcp, src))) => r matches Ok(Some((got, from))) && got@ == tcp && from
                        == src,
                }
            }),
    {
        self.ip_base.absorb(ctx);
        self.take(ctx)
    }

    /// Sends the segment `tcp` to the peer of the socket and logs it.
    pub fn send(&mut self, tcp: TCP, ctx: &UpdateContext) -> (r: Res<()>)
        requires
            old(self).wf(),
        ensures
            final(self).wf(),
            final(self)@.ip.eth.base.mac == old(self)@.ip.eth.base.mac,
            final(self)@.ip.eth.base.name == old(self)@.ip.eth.base.name,
            final(self)@.ip.eth.base.num_ports == old(self)@.ip.eth.base.num_ports,
            final(self)@.ip.eth.rbuf == old(self)@.ip.eth.rbuf,
            match old(self)@.send(tcp@, ctx.t) {
                Ok(s) => r is Ok && final(self)@ == s,
                Err(e) => (r matches Err(got) && got@ == e) && final(self)@ == old(self)@,
            },
    {
        let dst = match self.socket {
            Some(socket) => socket.dst_ip,
            None => {
                return Err(Error::InvalidTcpReceived { msg: "socket is None".to_string() });
            },
        };
        let payload = tcp.encode();
        let ip = IP::new_byte(self.get_ip_addr(), dst, payload);
        proof {
            crate::netwl::ip_device::lemma_send_with_keeps(
                self@.ip,
                NetworkProtocolView::IP(ip@),
                ctx.t,
                crate::netwl::ip_device::UNREACHABLE_RETRIES as nat,
            );
        }
        let _ = self.ip_base.send(NetworkProtocol::IP(ip), ctx);
        self.send_log.push(tcp);
        proof {
            assert(segments_view(self.send_log@) =~= segments_view(old(self).send_log@).push(tcp@));
        }
        Ok(())
    }
}

impl Device for TcpHost {
    closed spec fn base_view(&self) -> BaseDeviceView {
        self.ip_base@.eth.base
    }

    open spec fn wf(&self) -> bool {
        self@.wf() && self.base_view() == self@.ip.eth.base
    }

    proof fn lemma_queue_ports(&self) {
    }

    fn get_mac(&self) -> (mac: Mac) {
        self.ip_base.get_mac()
    }

    fn get_name(&self) -> (name: &str) {
        self.ip_base.get_name()
    }

    fn get_num_ports(&self) -> (n: usize) {
        self.ip_base.get_num_ports()
    }

    fn push_recv(&mut self, port: Port, x: u8)
        ensures
            final(self)@ == (TcpHostView {
                ip: IpDeviceView {
                    eth: EthernetDeviceView {
                        base: old(self)@.ip.eth.base.push_recv(port, x),
                        ..old(self)@.ip.eth
                    },
                    ..old(self)@.ip
                },
                ..old(self)@
            }),
    {
        self.ip_base.push_recv(port, x);
    }

    fn pop_send(&mut self) -> (r: Option<(Port, u8)>)
        ensures
            final(self)@ == (TcpHostView {
                ip: IpDeviceView {
                    eth: EthernetDeviceView {
                        base: final(self)@.ip.eth.base,
                        ..old(self)@.ip.eth
                    },
                    ..old(self)@.ip
                },
                ..old(self)@
            }),
    {
        self.ip_base.pop_send()
    }

    fn update(&mut self, ctx: &UpdateContext) -> (r: Res<()>)
        ensures
            match old(self)@.update(ctx.t) {
                Ok(s) => r is Ok && final(self)@ == s,
                Err(e) => r matches Err(got) && got@ == e,
            },
    {
        match self.consume_inst(ctx) {
            Some(tcp) => {
                match self.send(tcp, ctx) {
                    Ok(()) => {},
                    Err(e) => {
                        return Err(e);
                    },
                }
            },
            None => {},
        }
        self.ip_base.absorb(ctx);
        let ghost start = self@;
        loop
            invariant
                self.wf(),
                old(self)@.update(ctx.t) == start.serve(ctx.t, start.ip.eth.rbuf.len()),
                self@.serve(ctx.t, self@.ip.eth.rbuf.len()) == start.serve(
                    ctx.t,
                    start.ip.eth.rbuf.len(),
                ),
                self@.ip.eth.base.mac == old(self)@.ip.eth.base.mac,
                self@.ip.eth.base.name == old(self)@.ip.eth.base.name,
                self@.ip.eth.base.num_ports == old(self)@.ip.eth.base.num_ports,
            decreases self@.ip.eth.rbuf.len(),
        {
            if self.ip_base.get_rbuf_len() == 0 {
                return Ok(());
            }
            let (tcp, src_ip) = match self.take(ctx) {
                Err(e) => {
                    return Err(e);
                },
                Ok(None) => {
                    return Ok(());
                },
                Ok(Some(x)) => x,
            };
            let answer = match self.transform_tcp(&tcp, src_ip, ctx) {
                Err(e) => {
                    return Err(e);
                },
                Ok(answer) => answer,
            };
            match answer {
                None => {},
                Some(seg) => {
                    match self.send(seg, ctx) {
                        Ok(()) => {},
                        Err(e) => {
                            return Err(e);
                        },
                    }
                },
            }
        }
    }
}

} // verus!
