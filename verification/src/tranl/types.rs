//! The states of a connection, the instructions of an application, and the
//! socket that holds the state of the one connection of a host.
use vstd::prelude::*;
use crate::netwl::ip_addr::IpAddr;
use crate::types::TPort;

verus! {

/// The state of a connection.
#[derive(Debug, Clone, Copy, PartialEq, Eq, Structural)]
pub enum State {
    Closed,
    Listening,
    SynSent,
    SynAckSent,
    Established,
    DataReceiving,
    DataSent,
    FinSent,
    FinAckSent,
}

/// What an application asks of its host. The number is that of the socket.
#[derive(Debug, PartialEq, Eq)]
pub enum Inst {
    Socket(u32),
    Connect(u32, IpAddr, TPort),
    Listen(u32, TPort),
    Close(u32),
    Send(u32, String),
    Recv(u32),
}

/// An instruction with its text as a sequence of characters.
pub enum InstView {
    Socket(u32),
    Connect(u32, IpAddr, TPort),
    Listen(u32, TPort),
    Close(u32),
    Send(u32, Seq<char>),
    Recv(u32),
}

impl View for Inst {
    type V = InstView;

    open spec fn view(&self) -> InstView {
        match *self {
            Inst::Socket(sid) => InstView::Socket(sid),
            Inst::Connect(sid, ip, port) => InstView::Connect(sid, ip, port),
            Inst::Listen(sid, port) => InstView::Listen(sid, port),
            Inst::Close(sid) => InstView::Close(sid),
            Inst::Send(sid, msg) => InstView::Send(sid, msg@),
            Inst::Recv(sid) => InstView::Recv(sid),
        }
    }
}

impl Clone for Inst {
    fn clone(&self) -> (r: Inst)
        ensures
            r@ == self@,
    {
        match self {
            Inst::Socket(sid) => Inst::Socket(*sid),
            Inst::Connect(sid, ip, port) => Inst::Connect(*sid, *ip, *port),
            Inst::Listen(sid, port) => Inst::Listen(*sid, *port),
            Inst::Close(sid) => Inst::Close(*sid),
            Inst::Send(sid, msg) => Inst::Send(*sid, msg.clone()),
            Inst::Recv(sid) => Inst::Recv(*sid),
        }
    }
}

/// The instructions of a queue, each by its view.
pub open spec fn insts_view(insts: Seq<Inst>) -> Seq<InstView> {
    insts.map_values(|i: Inst| i@)
}

/// The one connection of a host: its state and the peer.
#[derive(Debug, Clone, Copy, PartialEq, Eq, Structural)]
pub struct Socket {
    pub state: State,
    pub dst_port: TPort,
    pub dst_ip: IpAddr,
}

impl Socket {
    /// A closed socket without a peer.
    pub open spec fn spec_new() -> Socket {
        Socket { state: State::Closed, dst_port: TPort { value: 0 }, dst_ip: IpAddr { value: 0 } }
    }

    /// A closed socket without a peer.
    pub fn new() -> (s: Socket)
        ensures
            s == Socket::spec_new(),
    {
        Socket { state: State::Closed, dst_port: TPort::new(0), dst_ip: IpAddr::new(0) }
    }

    /// Names the peer of the connection.
    pub fn set_dst(&mut self, dst_port: TPort, dst_ip: IpAddr)
        ensures
            *final(self) == (Socket { dst_port, dst_ip, ..*old(self) }),
    {
        self.dst_port = dst_port;
        self.dst_ip = dst_ip;
    }

    pub fn set_state(&mut self, state: State)
        ensures
            *final(self) == (Socket { state, ..*old(self) }),
    {
        self.state = state;
    }
}

} // verus!
