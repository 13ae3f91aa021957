use netsim::linkl::ethernet_frame::EthernetFrame;
use netsim::netwl::ip::IP;
use netsim::netwl::ip_addr::{IpAddr, SubnetMask};
use netsim::physl::device::Device;
use netsim::tranl::tcp::{TcpContent, TCP};
use netsim::tranl::tcp_host::{step_inst, transition, TcpHost};
use netsim::tranl::types::{Inst, Socket, State};
use netsim::types::{Error, Mac, Port, TPort, UpdateContext};

const OWN_MAC: u64 = 721;
const PEER_MAC: u64 = 722;
const OWN_IP: u32 = 7621;
const PEER_IP: u32 = 7622;

fn socket(state: State) -> Socket {
    Socket { state, dst_port: TPort::new(9), dst_ip: IpAddr::new(PEER_IP) }
}

fn segment(content: TcpContent) -> TCP {
    let a = TPort::new(4);
    let b = TPort::new(5);
    match content {
        TcpContent::Syn => TCP::new_syn(a, b, 0),
        TcpContent::SynAck => TCP::new_synack(a, b, 0),
        TcpContent::Ack => TCP::new_ack(a, b, 0, 0),
        TcpContent::Fin => TCP::new_fin(a, b, 0, 0),
        TcpContent::FinAck => TCP::new_finack(a, b, 0, 0),
        TcpContent::Data => TCP::new_data(a, b, 0, 0, 0, vec![1]),
    }
}

fn host() -> TcpHost {
    let mut h = TcpHost::build(Mac::new(OWN_MAC), "host", IpAddr::new(OWN_IP), SubnetMask::new(24));
    h.add_arp_entry(IpAddr::new(PEER_IP), Mac::new(PEER_MAC)).unwrap();
    h
}

fn deliver(h: &mut TcpHost, tcp: &TCP) {
    let ip = IP::new_byte(IpAddr::new(PEER_IP), IpAddr::new(OWN_IP), tcp.encode());
    let frame = EthernetFrame::new(Mac::new(OWN_MAC), Mac::new(PEER_MAC), 0x0800, ip.encode());
    for b in EthernetFrame::encode(&frame) {
        h.push_recv(Port::new(0), b);
    }
}

#[test]
fn socket_setters() {
    let mut s = Socket::new();
    assert_eq!(s, Socket { state: State::Closed, dst_port: TPort::new(0), dst_ip: IpAddr::new(0) });
    s.set_dst(TPort::new(3), IpAddr::new(4));
    s.set_state(State::Listening);
    assert_eq!(s, Socket { state: State::Listening, dst_port: TPort::new(3), dst_ip: IpAddr::new(4) });
}

#[test]
fn only_the_socket_instruction_works_without_a_socket() {
    assert_eq!(step_inst(None, &Inst::Socket(0)), Some((Socket::new(), None)));
    assert_eq!(step_inst(None, &Inst::Listen(0, TPort::new(1))), None);
    assert_eq!(step_inst(None, &Inst::Connect(0, IpAddr::new(1), TPort::new(1))), None);
    assert_eq!(step_inst(None, &Inst::Send(0, "x".to_string())), None);
    assert_eq!(step_inst(None, &Inst::Recv(0)), None);
    assert_eq!(step_inst(None, &Inst::Close(0)), None);
    // a second socket is not made
    assert_eq!(step_inst(Some(Socket::new()), &Inst::Socket(0)), None);
}

#[test]
fn a_closed_socket_connects_or_listens() {
    let closed = Some(Socket::new());
    let peer = IpAddr::new(PEER_IP);
    assert_eq!(
        step_inst(closed, &Inst::Connect(0, peer, TPort::new(80))),
        Some((
            Socket { state: State::SynSent, dst_port: TPort::new(80), dst_ip: peer },
            Some(TCP::new_syn(TPort::new(0), TPort::new(80), 0))
        ))
    );
    assert_eq!(
        step_inst(closed, &Inst::Listen(0, TPort::new(80))),
        Some((Socket { state: State::Listening, ..Socket::new() }, None))
    );
    assert_eq!(step_inst(closed, &Inst::Send(0, "x".to_string())), None);
    assert_eq!(step_inst(closed, &Inst::Recv(0)), None);
    assert_eq!(step_inst(closed, &Inst::Close(0)), None);
}

#[test]
fn an_established_socket_sends_receives_or_closes() {
    let s = socket(State::Established);
    assert_eq!(
        step_inst(Some(s), &Inst::Send(0, "hello".to_string())),
        Some((
            socket(State::DataSent),
            Some(TCP::new_data(TPort::new(0), TPort::new(9), 0, 0, 0, b"hello".to_vec()))
        ))
    );
    assert_eq!(step_inst(Some(s), &Inst::Recv(0)), Some((socket(State::DataReceiving), None)));
    assert_eq!(
        step_inst(Some(s), &Inst::Close(0)),
        Some((socket(State::FinSent), Some(TCP::new_fin(TPort::new(0), TPort::new(9), 0, 0))))
    );
    assert_eq!(step_inst(Some(s), &Inst::Listen(0, TPort::new(1))), None);
    assert_eq!(step_inst(Some(s), &Inst::Connect(0, IpAddr::new(1), TPort::new(1))), None);
}

#[test]
fn instructions_wait_in_every_other_state() {
    for state in [
        State::Listening,
        State::SynSent,
        State::SynAckSent,
        State::DataReceiving,
        State::DataSent,
        State::FinSent,
        State::FinAckSent,
    ] {
        for inst in [
            Inst::Socket(0),
            Inst::Connect(0, IpAddr::new(1), TPort::new(1)),
            Inst::Listen(0, TPort::new(1)),
            Inst::Send(0, "x".to_string()),
            Inst::Recv(0),
            Inst::Close(0),
        ] {
            assert_eq!(step_inst(Some(socket(state)), &inst), None);
        }
    }
}

#[test]
fn segments_move_the_connection() {
    let from = IpAddr::new(55);
    let ack = |c: TcpContent| Some(TCP::new_ack(segment(c).dst, segment(c).src, 0, 0));
    let rows = vec![
        (State::SynSent, TcpContent::SynAck, State::Established, ack(TcpContent::SynAck)),
        (State::SynAckSent, TcpContent::Ack, State::Established, None),
        (
            State::Established,
            TcpContent::Fin,
            State::FinAckSent,
            Some(TCP::new_finack(TPort::new(5), TPort::new(4), 0, 0)),
        ),
        (State::DataReceiving, TcpContent::Data, State::Established, ack(TcpContent::Data)),
        (State::DataSent, TcpContent::Ack, State::Established, None),
        (State::FinSent, TcpContent::FinAck, State::Closed, ack(TcpContent::FinAck)),
        (State::FinAckSent, TcpContent::Ack, State::Closed, None),
    ];
    for (state, content, next, answer) in rows {
        let (s, out) = transition(Some(socket(state)), &segment(content), from).unwrap();
        assert_eq!(s, socket(next));
        assert_eq!(out, answer);
    }
}

#[test]
fn a_listening_socket_takes_the_sender_of_the_syn_as_its_peer() {
    let from = IpAddr::new(55);
    let (s, out) = transition(Some(socket(State::Listening)), &segment(TcpContent::Syn), from).unwrap();
    assert_eq!(s, Socket { state: State::SynAckSent, dst_port: TPort::new(4), dst_ip: from });
    assert_eq!(out, Some(TCP::new_synack(TPort::new(5), TPort::new(4), 0)));
}

#[test]
fn every_other_segment_is_an_error() {
    let allowed = [
        (State::Listening, TcpContent::Syn),
        (State::SynSent, TcpContent::SynAck),
        (State::SynAckSent, TcpContent::Ack),
        (State::Established, TcpContent::Fin),
        (State::DataReceiving, TcpContent::Data),
        (State::DataSent, TcpContent::Ack),
        (State::FinSent, TcpContent::FinAck),
        (State::FinAckSent, TcpContent::Ack),
    ];
    let states = [
        State::Closed,
        State::Listening,
        State::SynSent,
        State::SynAckSent,
        State::Established,
        State::DataReceiving,
        State::DataSent,
        State::FinSent,
        State::FinAckSent,
    ];
    let contents = [
        TcpContent::Syn,
        TcpContent::SynAck,
        TcpContent::Ack,
        TcpContent::Fin,
        TcpContent::FinAck,
        TcpContent::Data,
    ];
    for state in states {
        for content in contents {
            let r = transition(Some(socket(state)), &segment(content), IpAddr::new(1));
            if allowed.contains(&(state, content)) {
                assert!(r.is_ok());
            } else {
                assert!(matches!(r, Err(Error::InvalidTcpReceived { .. })));
            }
        }
    }
    match transition(None, &segment(TcpContent::Syn), IpAddr::new(1)) {
        Err(Error::InvalidTcpReceived { msg }) => assert_eq!(msg, "state is NoConnection"),
        other => panic!("unexpected {:?}", other),
    }
    match transition(Some(socket(State::Closed)), &segment(TcpContent::Syn), IpAddr::new(1)) {
        Err(Error::InvalidTcpReceived { msg }) => assert_eq!(msg, "state is closed but TCP received"),
        other => panic!("unexpected {:?}", other),
    }
}

#[test]
fn host_cannot_send_without_a_socket() {
    let mut h = host();
    match h.send(TCP::new_syn(TPort::new(0), TPort::new(1), 0), &UpdateContext { t: 0 }) {
        Err(Error::InvalidTcpReceived { msg }) => assert_eq!(msg, "socket is None"),
        other => panic!("unexpected {:?}", other),
    }
    assert_eq!(h.get_send_log().len(), 0);
    assert_eq!(h.get_ip_addr(), IpAddr::new(OWN_IP));
}

#[test]
fn host_takes_one_instruction_per_tick_and_waits_for_the_state() {
    let mut h = host();
    h.add_inst(Inst::Socket(0));
    h.add_inst(Inst::Connect(0, IpAddr::new(PEER_IP), TPort::new(80)));
    h.add_inst(Inst::Send(0, "hi".to_string()));
    assert_eq!(h.get_socket(), None);
    h.update(&UpdateContext { t: 0 }).unwrap();
    assert_eq!(h.get_socket(), Some(Socket::new()));
    h.update(&UpdateContext { t: 1 }).unwrap();
    assert_eq!(h.get_socket().unwrap().state, State::SynSent);
    assert_eq!(h.get_send_log(), &vec![TCP::new_syn(TPort::new(0), TPort::new(80), 0)]);
    // the connection is not established, so the send instruction waits
    h.update(&UpdateContext { t: 2 }).unwrap();
    h.update(&UpdateContext { t: 3 }).unwrap();
    assert_eq!(h.get_socket().unwrap().state, State::SynSent);
    assert_eq!(h.get_send_log().len(), 1);
    // the answer of the peer establishes it
    deliver(&mut h, &TCP::new_synack(TPort::new(80), TPort::new(0), 0));
    h.update(&UpdateContext { t: 4 }).unwrap();
    assert_eq!(h.get_socket().unwrap().state, State::Established);
    assert_eq!(h.get_recv_log(), &vec![TCP::new_synack(TPort::new(80), TPort::new(0), 0)]);
    assert_eq!(h.get_send_log()[1], TCP::new_ack(TPort::new(0), TPort::new(80), 0, 0));
    h.update(&UpdateContext { t: 5 }).unwrap();
    assert_eq!(h.get_socket().unwrap().state, State::DataSent);
    assert_eq!(
        h.get_send_log()[2],
        TCP::new_data(TPort::new(0), TPort::new(80), 0, 0, 0, b"hi".to_vec())
    );
}

#[test]
fn host_stops_on_a_segment_that_does_not_fit() {
    let mut h = host();
    h.add_inst(Inst::Socket(0));
    h.add_inst(Inst::Listen(0, TPort::new(80)));
    h.update(&UpdateContext { t: 0 }).unwrap();
    h.update(&UpdateContext { t: 1 }).unwrap();
    deliver(&mut h, &TCP::new_ack(TPort::new(1), TPort::new(80), 0, 0));
    match h.update(&UpdateContext { t: 2 }) {
        Err(Error::InvalidTcpReceived { msg }) => {
            assert_eq!(msg, "segment does not fit the state of the connection")
        }
        other => panic!("unexpected {:?}", other),
    }
    assert_eq!(h.get_recv_log().len(), 1);
}

#[test]
fn host_stops_on_a_datagram_too_short_for_a_segment() {
    let mut h = host();
    let ip = IP::new_byte(IpAddr::new(PEER_IP), IpAddr::new(OWN_IP), vec![1, 2, 3]);
    let frame = EthernetFrame::new(Mac::new(OWN_MAC), Mac::new(PEER_MAC), 0x0800, ip.encode());
    for b in EthernetFrame::encode(&frame) {
        h.push_recv(Port::new(0), b);
    }
    assert!(matches!(h.update(&UpdateContext { t: 0 }), Err(Error::NotEnoughBytes)));
}
