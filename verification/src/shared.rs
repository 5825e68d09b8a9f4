use vstd::prelude::*;

verus! {

/// Identifies a message channel; every native frame carries it in one byte.
#[derive(Clone, Copy, PartialEq, Eq, Hash, Debug)]
pub struct MessageChannelID {
    pub id: u8,
}

impl MessageChannelID {
    /// Creates a channel identifier from its byte.
    pub fn new(id: u8) -> (r: Self)
        ensures
            r.id == id,
    {
        Self { id }
    }
}

/// How a native channel carries its messages: over TCP (reliable) or UDP
/// (unreliable).
#[derive(Clone, Copy, PartialEq, Eq, Debug)]
pub enum ChannelType {
    Reliable,
    Unreliable,
}

/// The transport of a native connection.
#[derive(Clone, Copy, Debug, PartialEq, Eq, Hash)]
pub enum NativeConnectionType {
    Tcp,
    Udp,
}

/// A socket address held as plain values: the address octets, the port and,
/// for IPv6, the flow information and scope id.
#[allow(inconsistent_fields)]
#[derive(Clone, Copy, Debug, PartialEq, Eq, Hash)]
pub enum PeerAddr {
    V4 { ip: [u8; 4], port: u16 },
    V6 { ip: [u8; 16], port: u16, flowinfo: u32, scope_id: u32 },
}

/// Identifies one native connection: an id, the peer's address and the
/// transport.
#[derive(Clone, Copy, Debug, PartialEq, Eq, Hash)]
pub struct ConnID {
    pub uuid: u32,
    pub addr: PeerAddr,
    pub mode: NativeConnectionType,
}

impl ConnID {
    /// Builds a connection id from its parts.
    pub fn new(uuid: u32, addr: PeerAddr, mode: NativeConnectionType) -> (r: Self)
        ensures
            r.uuid == uuid,
            r.addr == addr,
            r.mode == mode,
    {
        Self { uuid, addr, mode }
    }
}

/// A connection handle: either a native (TCP/UDP) connection or a naia
/// (WebRTC) one, named by its naia handle.
#[derive(Clone, Copy, Debug)]
pub enum SuperConnectionHandle {
    Native(ConnID),
    Naia(u32),
}

/// The handle that received messages are tagged with.
pub type ConnectionHandle = SuperConnectionHandle;

impl SuperConnectionHandle {
    /// A handle for a native connection.
    pub fn new_native(conn_id: ConnID) -> (r: Self)
        ensures
            r == SuperConnectionHandle::Native(conn_id),
    {
        SuperConnectionHandle::Native(conn_id)
    }

    /// A handle for a naia connection.
    pub fn new_naia(handle: u32) -> (r: Self)
        ensures
            r == SuperConnectionHandle::Naia(handle),
    {
        SuperConnectionHandle::Naia(handle)
    }

    /// The native connection id; only a native handle has one.
    pub fn native(&self) -> (r: &ConnID)
        requires
            self is Native,
        ensures
            *r == self->Native_0,
    {
        match self {
            SuperConnectionHandle::Native(id) => id,
            SuperConnectionHandle::Naia(_) => vstd::pervasive::unreached(),
        }
    }

    /// The naia handle; only a naia handle has one.
    pub fn naia(&self) -> (r: &u32)
        requires
            self is Naia,
        ensures
            *r == self->Naia_0,
    {
        match self {
            SuperConnectionHandle::Naia(handle) => handle,
            SuperConnectionHandle::Native(_) => vstd::pervasive::unreached(),
        }
    }

    /// Whether this is a native handle.
    pub fn is_native(&self) -> (r: bool)
        ensures
            r == (self is Native),
    {
        match self {
            SuperConnectionHandle::Native(_) => true,
            SuperConnectionHandle::Naia(_) => false,
        }
    }

    /// Whether this is a naia handle: exactly when it is not a native one.
    pub fn is_naia(&self) -> (r: bool)
        ensures
            r == (self is Naia),
            r == !(self is Native),
    {
        !self.is_native()
    }
}

/// Why a disconnect was refused.
#[derive(Debug, PartialEq, Eq)]
pub enum DisconnectError {
    NotConnected,
}

/// Why a message could not be sent.
#[derive(Debug)]
pub enum SendMessageError {
    /// The message could not be serialized.
    Bincode(Box<bincode::ErrorKind>),
    /// The task that writes to the socket is gone; the frame is handed back.
    Mpsc(tokio::sync::mpsc::error::SendError<Vec<u8>>),
    /// There is no connection to send over.
    NotConnected,
    /// The message type was not registered with naia.
    MessageTypeUnregistered,
    /// The framed message is longer than a WebRTC packet allows.
    MessageTooLarge,
}

} // verus!
