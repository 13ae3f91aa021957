//! Addresses, the tick context and the error kinds shared by all layers.
use vstd::prelude::*;

verus! {

/// The current tick of the simulation clock.
#[derive(Debug, Clone, Copy, PartialEq, Eq, Structural)]
pub struct UpdateContext {
    pub t: usize,
}

/// A 48-bit hardware address carried in a 64-bit value.
#[derive(Debug, Clone, Copy, PartialEq, Eq, Hash, Structural)]
pub struct Mac {
    pub value: u64,
}

impl Mac {
    pub fn new(value: u64) -> (m: Mac)
        ensures
            m.value == value,
    {
        Mac { value }
    }
}

/// An index into a device's port array.
#[derive(Debug, Clone, Copy, PartialEq, Eq, Hash, Structural)]
pub struct Port {
    pub value: u32,
}

impl Port {
    pub fn new(value: u32) -> (p: Port)
        ensures
            p.value == value,
    {
        Port { value }
    }
}

/// A 16-bit transport port.
#[derive(Debug, Clone, Copy, PartialEq, Eq, Hash, Structural)]
pub struct TPort {
    pub value: u16,
}

impl TPort {
    pub fn new(value: u16) -> (p: TPort)
        ensures
            p.value == value,
    {
        TPort { value }
    }
}

/// The closed set of failures that the simulator reports.
#[derive(Debug)]
pub enum Error {
    /// A decoder saw fewer bytes than the format needs.
    NotEnoughBytes,
    /// No registered device has this address.
    DeviceNotFound { mac: Mac },
    /// A link was refused.
    NetworkConnectFailed { mac0: Mac, mac1: Mac, msg: String },
    /// No link starts at this port of this device.
    ConnectionNotFound { mac: Mac, port: Port },
    /// The bytes are there but break the format.
    InvalidBytes { msg: String },
    /// No next hop could be resolved for a datagram.
    MacNotFailed,
    /// An ICMP destination-unreachable message arrived.
    IpUnreashcable { code: u8, msg: String },
    /// A segment arrived that the connection state does not allow.
    InvalidTcpReceived { msg: String },
}

/// What an [`Error`] says, with its text as a sequence of characters.
pub enum ErrorView {
    NotEnoughBytes,
    DeviceNotFound { mac: Mac },
    NetworkConnectFailed { mac0: Mac, mac1: Mac, msg: Seq<char> },
    ConnectionNotFound { mac: Mac, port: Port },
    InvalidBytes { msg: Seq<char> },
    MacNotFailed,
    IpUnreashcable { code: u8, msg: Seq<char> },
    InvalidTcpReceived { msg: Seq<char> },
}

impl View for Error {
    type V = ErrorView;

    open spec fn view(&self) -> ErrorView {
        match *self {
            Error::NotEnoughBytes => ErrorView::NotEnoughBytes,
            Error::DeviceNotFound { mac } => ErrorView::DeviceNotFound { mac },
            Error::NetworkConnectFailed { mac0, mac1, msg } => ErrorView::NetworkConnectFailed {
                mac0,
                mac1,
                msg: msg@,
            },
            Error::ConnectionNotFound { mac, port } => ErrorView::ConnectionNotFound { mac, port },
            Error::InvalidBytes { msg } => ErrorView::InvalidBytes { msg: msg@ },
            Error::MacNotFailed => ErrorView::MacNotFailed,
            Error::IpUnreashcable { code, msg } => ErrorView::IpUnreashcable { code, msg: msg@ },
            Error::InvalidTcpReceived { msg } => ErrorView::InvalidTcpReceived { msg: msg@ },
        }
    }
}

pub type Res<T> = Result<T, Error>;

/// `InvalidBytes` with the given text.
pub fn invalid_bytes(msg: &str) -> (e: Error)
    ensures
        e@ == (ErrorView::InvalidBytes { msg: msg@ }),
{
    Error::InvalidBytes { msg: msg.to_string() }
}

} // verus!
