use vstd::prelude::*;
use turbulence::message_channels::MessageChannelMode;

use crate::crate_specs::{is_unreliable_mode, mode_is_unreliable};
use crate::shared::{ChannelType, DisconnectError, SendMessageError};

verus! {

impl ChannelType {
    /// The native transport of a channel: UDP for an unreliable channel, TCP
    /// for every other.
    pub fn from_unreliable(unreliable: bool) -> (r: ChannelType)
        ensures
            r == (if unreliable { ChannelType::Unreliable } else { ChannelType::Reliable }),
    {
        if unreliable {
            ChannelType::Unreliable
        } else {
            ChannelType::Reliable
        }
    }
}

/// The native transport for a turbulence channel mode: UDP for
/// `MessageChannelMode::Unreliable`, TCP for the reliable and compressed modes.
pub fn channel_type_for_mode(mode: &MessageChannelMode) -> (r: ChannelType)
    ensures
        r == (if mode_is_unreliable(*mode) {
            ChannelType::Unreliable
        } else {
            ChannelType::Reliable
        }),
{
    ChannelType::from_unreliable(is_unreliable_mode(mode))
}

/// Whether a network resource is a server or a client, and whether it has
/// been set up by listening or connecting.
#[derive(Clone, Copy, Debug)]
pub struct NetworkRole {
    is_server: bool,
    is_setup: bool,
}

impl NetworkRole {
    /// Whether the resource is a server.
    pub closed spec fn server(self) -> bool {
        self.is_server
    }

    /// Whether the resource has listened or connected.
    pub closed spec fn setup(self) -> bool {
        self.is_setup
    }

    /// The role of a server that has not listened yet.
    pub fn new_server() -> (r: Self)
        ensures
            r.server(),
            !r.setup(),
    {
        NetworkRole { is_server: true, is_setup: false }
    }

    /// The role of a client that has not connected yet.
    pub fn new_client() -> (r: Self)
        ensures
            !r.server(),
            !r.setup(),
    {
        NetworkRole { is_server: false, is_setup: false }
    }

    /// Whether it is a server.
    pub fn is_server(&self) -> (r: bool)
        ensures
            r == self.server(),
    {
        self.is_server
    }

    /// Whether it is a client: exactly when it is not a server.
    pub fn is_client(&self) -> (r: bool)
        ensures
            r == !self.server(),
    {
        !self.is_server
    }

    /// Whether `listen` or `connect` has run.
    pub fn is_setup(&self) -> (r: bool)
        ensures
            r == self.setup(),
    {
        self.is_setup
    }

    /// Records that a server has started listening. Only a server listens.
    pub fn listen(&mut self)
        requires
            old(self).server(),
        ensures
            final(self).server(),
            final(self).setup(),
    {
        self.is_setup = true;
    }

    /// Records that a client has connected. Only a client connects.
    pub fn connect(&mut self)
        requires
            !old(self).server(),
        ensures
            !final(self).server(),
            final(self).setup(),
    {
        self.is_setup = true;
    }

    /// Records a disconnect: a client is no longer set up, a server still is
    /// what it was.
    pub fn after_disconnect(&mut self)
        ensures
            final(self).server() == old(self).server(),
            final(self).setup() == (old(self).setup() && old(self).server()),
    {
        if !self.is_server {
            self.is_setup = false;
        }
    }
}

/// Whether a resource is connected: over a native socket or over naia.
pub fn combine_connected(native_connected: bool, naia_connected: bool) -> (r: bool)
    ensures
        r == (native_connected || naia_connected),
{
    native_connected || naia_connected
}

/// The outcome of a naia broadcast before any message is handed to a
/// connection: a client without a naia connection is not connected; in every
/// other case the broadcast goes on.
pub fn naia_broadcast_check(naia_connections: usize, role: &NetworkRole) -> (r: Result<(), SendMessageError>)
    ensures
        r is Err <==> (naia_connections == 0 && !role.server()),
        r is Err ==> (r matches Err(SendMessageError::NotConnected)),
{
    if naia_connections == 0 && role.is_client() {
        Err(SendMessageError::NotConnected)
    } else {
        Ok(())
    }
}

/// The outcome of disconnecting a naia handle: refused when the resource has
/// no naia side.
pub fn naia_disconnect_check(has_naia: bool) -> (r: Result<(), DisconnectError>)
    ensures
        r is Err <==> !has_naia,
        r is Err ==> r == Err::<(), DisconnectError>(DisconnectError::NotConnected),
{
    if has_naia {
        Ok(())
    } else {
        Err(DisconnectError::NotConnected)
    }
}

} // verus!
