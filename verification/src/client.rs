use vstd::prelude::*;
use std::sync::Arc;
use tokio::runtime::Runtime;
use tokio::sync::mpsc::UnboundedSender;
use tokio::task::JoinHandle;
use turbulence::message_channels::{ChannelAlreadyRegistered, MessageChannelMode};

use crate::crate_specs::{
    channel_already_registered, queue_map_clear, queue_map_insert, queue_map_new,
    queue_map_remove, queue_view, queued, mode_is_unreliable, registered, registry_contains, registry_get,
    registry_insert, registry_new, frame_sender_send, task_abort, is_channel_variant, ChannelRegistry,
    FrameSender, RecvQueue,
};
use crate::frame::{encode_frame, generate_message_bin, lemma_frame_layout, lemma_u32_from_be_value};
use crate::resource::channel_type_for_mode;
use crate::shared::{ChannelType, ConnID, ConnectionHandle, DisconnectError, MessageChannelID, SendMessageError};

verus! {

/// A writer slot of the client: the channel sender to its socket task, and
/// every frame that channel has accepted from it, oldest first.
pub struct WriterModel {
    pub sender: UnboundedSender<Vec<u8>>,
    pub accepted: Seq<Seq<u8>>,
}

/// The model of a writer slot holding `writer`.
pub open spec fn writer_model(writer: Option<FrameSender>) -> Option<WriterModel> {
    match writer {
        Some(w) => Some(WriterModel { sender: w.channel(), accepted: w.accepted() }),
        None => None,
    }
}

/// What a native client holds, as mathematical values.
#[verifier::ext_equal]
pub struct ClientModel {
    /// The transport registered for each channel id.
    pub channels: Map<u8, ChannelType>,
    /// The received, not yet processed frames of each channel, oldest first.
    pub queues: Map<u8, Seq<(ConnectionHandle, Seq<u8>)>>,
    /// The writer of the TCP task, if the client has one.
    pub tcp: Option<WriterModel>,
    /// The writer of the UDP task, if the client has one.
    pub udp: Option<WriterModel>,
    /// The runtime that the socket tasks run on.
    pub runtime: Arc<Runtime>,
}

impl ClientModel {
    /// The writer slot that carries channels of transport `mode`: TCP for
    /// reliable channels, UDP for unreliable ones.
    pub open spec fn writer_for(self, mode: ChannelType) -> Option<WriterModel> {
        match mode {
            ChannelType::Reliable => self.tcp,
            ChannelType::Unreliable => self.udp,
        }
    }

    /// Whether the client has a writer for transport `mode`.
    pub open spec fn open_for(self, mode: ChannelType) -> bool {
        self.writer_for(mode) is Some
    }

    /// The state after the writer of `mode` had `frame` accepted: that
    /// writer keeps its sender and records the frame; nothing else changes.
    pub open spec fn with_accepted(self, mode: ChannelType, frame: Seq<u8>) -> ClientModel
        recommends
            self.open_for(mode),
    {
        match mode {
            ChannelType::Reliable => ClientModel {
                tcp: Some(WriterModel { sender: self.tcp->0.sender, accepted: self.tcp->0.accepted.push(frame) }),
                ..self
            },
            ChannelType::Unreliable => ClientModel {
                udp: Some(WriterModel { sender: self.udp->0.sender, accepted: self.udp->0.accepted.push(frame) }),
                ..self
            },
        }
    }

    /// What sending the serialized message `message` on the registered
    /// channel `channel` does, going from this state to `after` with result
    /// `r`: without a writer for the channel's transport nothing changes and
    /// the client is not connected; otherwise the frame of the message goes to
    /// that writer, and either its channel accepts it (Ok) or the writer task
    /// is gone and nothing changes (Mpsc).
    pub open spec fn sends(self, after: ClientModel, channel: u8, message: Seq<u8>, r: Result<(), SendMessageError>) -> bool {
        let mode = self.channels[channel];
        &&& !self.open_for(mode) ==> ((r matches Err(SendMessageError::NotConnected)) && after == self)
        &&& self.open_for(mode) ==> {
            ||| (r is Ok && after == self.with_accepted(mode, encode_frame(channel, message)))
            ||| ((r matches Err(SendMessageError::Mpsc(_))) && after == self)
        }
    }

    /// The state after registering `channel` with transport `mode`: the
    /// channel gets that transport and an empty queue.
    pub open spec fn with_channel(self, channel: u8, mode: ChannelType) -> ClientModel {
        ClientModel {
            channels: self.channels.insert(channel, mode),
            queues: self.queues.insert(channel, Seq::empty()),
            ..self
        }
    }

    /// The state after a frame arrives over TCP on `channel`: it joins the
    /// end of the channel's queue, which is created if missing.
    pub open spec fn with_received(self, channel: u8, item: (ConnectionHandle, Seq<u8>)) -> ClientModel {
        ClientModel { queues: self.queues.insert(channel, self.queue_of(channel).push(item)), ..self }
    }

    /// The state after a frame arrives over UDP on `channel`: it joins the
    /// channel's queue if there is one, and is dropped otherwise.
    pub open spec fn with_datagram(self, channel: u8, item: (ConnectionHandle, Seq<u8>)) -> ClientModel {
        if self.queues.dom().contains(channel) {
            self.with_received(channel, item)
        } else {
            self
        }
    }

    /// The state after `items` arrive over TCP on `channel`, in order.
    pub open spec fn with_all_received(self, channel: u8, items: Seq<(ConnectionHandle, Seq<u8>)>) -> ClientModel
        decreases items.len(),
    {
        if items.len() == 0 {
            self
        } else {
            self.with_all_received(channel, items.drop_last()).with_received(channel, items.last())
        }
    }

    /// The state after `items` arrive over UDP on `channel`, in order.
    pub open spec fn with_all_datagrams(self, channel: u8, items: Seq<(ConnectionHandle, Seq<u8>)>) -> ClientModel
        decreases items.len(),
    {
        if items.len() == 0 {
            self
        } else {
            self.with_all_datagrams(channel, items.drop_last()).with_datagram(channel, items.last())
        }
    }

    /// The state after the queue of `channel` has been taken: it is empty.
    pub open spec fn drained(self, channel: u8) -> ClientModel {
        ClientModel { queues: self.queues.insert(channel, Seq::empty()), ..self }
    }

    /// The state after disconnecting: no queue and no writer is left; the
    /// registrations stay.
    pub open spec fn disconnected(self) -> ClientModel {
        ClientModel { queues: Map::empty(), tcp: None, udp: None, ..self }
    }

    /// The queue of `channel`; a channel without one reads as empty.
    pub open spec fn queue_of(self, channel: u8) -> Seq<(ConnectionHandle, Seq<u8>)> {
        if self.queues.dom().contains(channel) {
            self.queues[channel]
        } else {
            Seq::empty()
        }
    }
}

/// The native (TCP/UDP) client: its registered channels, its queues of
/// received frames and the senders that reach its socket writer tasks.
pub struct NativeClient {
    /// The runtime that the socket tasks run on.
    pub task_pool: Arc<Runtime>,
    write_task_handle: Option<JoinHandle<()>>,
    read_task_handle: Option<JoinHandle<()>>,
    tcp_msg_sender: Option<FrameSender>,
    udp_msg_sender: Option<FrameSender>,
    unprocessed_messages: RecvQueue,
    registered_channels: ChannelRegistry,
}

impl View for NativeClient {
    type V = ClientModel;

    closed spec fn view(&self) -> ClientModel {
        ClientModel {
            channels: registered(self.registered_channels),
            queues: queued(self.unprocessed_messages),
            tcp: writer_model(self.tcp_msg_sender),
            udp: writer_model(self.udp_msg_sender),
            runtime: self.task_pool,
        }
    }
}

impl NativeClient {
    /// A client with no channel registered, no frame queued and no connection.
    pub fn new(task_pool: Arc<Runtime>) -> (r: Self)
        ensures
            r@.channels.dom().is_empty(),
            r@.queues.dom().is_empty(),
            r@.tcp is None,
            r@.udp is None,
            r@.runtime == task_pool,
    {
        Self {
            task_pool,
            write_task_handle: None,
            read_task_handle: None,
            tcp_msg_sender: None,
            udp_msg_sender: None,
            unprocessed_messages: queue_map_new(),
            registered_channels: registry_new(),
        }
    }

    /// Whether the client is connected: its TCP writer can be reached.
    pub fn is_connected(&self) -> (r: bool)
        ensures
            r == (self@.tcp is Some),
    {
        self.tcp_msg_sender.is_some()
    }

    /// Whether `channel` has been registered.
    pub fn is_registered(&self, channel: &MessageChannelID) -> (r: bool)
        ensures
            r == self@.channels.dom().contains(channel.id),
    {
        registry_contains(&self.registered_channels, channel.id)
    }

    /// Installs the senders of freshly started writer tasks: `tcp` in the
    /// TCP slot and `udp` in the UDP slot, each with nothing sent yet; the
    /// client is connected afterwards.
    pub fn set_senders(&mut self, tcp: UnboundedSender<Vec<u8>>, udp: UnboundedSender<Vec<u8>>)
        ensures
            final(self)@ == (ClientModel {
                tcp: Some(WriterModel { sender: tcp, accepted: Seq::empty() }),
                udp: Some(WriterModel { sender: udp, accepted: Seq::empty() }),
                ..old(self)@
            }),
    {
        self.tcp_msg_sender = Some(FrameSender::new(tcp));
        self.udp_msg_sender = Some(FrameSender::new(udp));
        assert(self@ =~= (ClientModel {
            tcp: Some(WriterModel { sender: tcp, accepted: Seq::empty() }),
            udp: Some(WriterModel { sender: udp, accepted: Seq::empty() }),
            ..old(self)@
        }));
    }

    /// Forgets both senders, as when the writer tasks shut down; the client is
    /// not connected afterwards.
    pub fn clear_senders(&mut self)
        ensures
            final(self)@ == (ClientModel { tcp: None, udp: None, ..old(self)@ }),
    {
        self.tcp_msg_sender = None;
        self.udp_msg_sender = None;
        assert(self@ =~= (ClientModel { tcp: None, udp: None, ..old(self)@ }));
    }

    /// Registers `channel` with transport `mode` and gives it an empty queue.
    /// A channel registers once: a second registration is refused and changes
    /// nothing.
    pub fn register_message(&mut self, channel: &MessageChannelID, mode: ChannelType) -> (r: Result<(), ChannelAlreadyRegistered>)
        ensures
            r is Err <==> old(self)@.channels.dom().contains(channel.id),
            r matches Err(e) ==> is_channel_variant(e),
            r is Err ==> final(self)@ == old(self)@,
            r is Ok ==> final(self)@ == old(self)@.with_channel(channel.id, mode),
    {
        if registry_contains(&self.registered_channels, channel.id) {
            Err(channel_already_registered())
        } else {
            let _ = registry_insert(&mut self.registered_channels, channel.id, mode);
            let empty: Vec<(ConnectionHandle, Vec<u8>)> = Vec::new();
            assert(queue_view(empty@) =~= Seq::empty());
            let _ = queue_map_insert(&mut self.unprocessed_messages, channel.id, empty);
            assert(self@ =~= old(self)@.with_channel(channel.id, mode));
            Ok(())
        }
    }

    /// Registers `channel` with the native transport that its turbulence mode
    /// calls for: UDP for an unreliable channel, TCP otherwise.
    pub fn register_message_channel_native(&mut self, mode: &MessageChannelMode, channel: &MessageChannelID) -> (r: Result<(), ChannelAlreadyRegistered>)
        ensures
            r is Err <==> old(self)@.channels.dom().contains(channel.id),
            r matches Err(e) ==> is_channel_variant(e),
            r is Err ==> final(self)@ == old(self)@,
            r is Ok ==> final(self)@ == old(self)@.with_channel(
                channel.id,
                if mode_is_unreliable(*mode) { ChannelType::Unreliable } else { ChannelType::Reliable },
            ),
    {
        let kind = channel_type_for_mode(mode);
        self.register_message(channel, kind)
    }

    /// Frames the serialized message `message_bin` for `channel` and sends
    /// the frame on the writer of the channel's transport. Without that
    /// writer the client is not connected and nothing is sent.
    pub fn broadcast_message(&mut self, message_bin: &[u8], channel: &MessageChannelID) -> (r: Result<(), SendMessageError>)
        requires
            old(self)@.channels.dom().contains(channel.id),
            message_bin@.len() <= u32::MAX,
        ensures
            old(self)@.sends(final(self)@, channel.id, message_bin@, r),
    {
        let message = generate_message_bin(message_bin, channel);
        let mode = match registry_get(&self.registered_channels, channel.id) {
            Some(m) => m,
            None => vstd::pervasive::unreached(),
        };
        let slot = match mode {
            ChannelType::Reliable => &mut self.tcp_msg_sender,
            ChannelType::Unreliable => &mut self.udp_msg_sender,
        };
        let taken = slot.take();
        match taken {
            Some(mut writer) => {
                let res = frame_sender_send(&mut writer, message);
                *slot = Some(writer);
                match res {
                    Ok(()) => {
                        assert(self@ =~= old(self)@.with_accepted(mode, encode_frame(channel.id, message_bin@)));
                        Ok(())
                    },
                    Err(e) => {
                        assert(self@ =~= old(self)@);
                        Err(SendMessageError::Mpsc(e))
                    },
                }
            },
            None => {
                assert(self@ =~= old(self)@);
                Err(SendMessageError::NotConnected)
            },
        }
    }

    /// Sends the serialized message `message_bin` on `channel`. A client has
    /// one connection, so `conn_id` is not looked at and this does exactly
    /// what `broadcast_message` does.
    pub fn send_message(&mut self, message_bin: &[u8], channel: &MessageChannelID, _conn_id: &ConnID) -> (r: Result<(), SendMessageError>)
        requires
            old(self)@.channels.dom().contains(channel.id),
            message_bin@.len() <= u32::MAX,
        ensures
            old(self)@.sends(final(self)@, channel.id, message_bin@, r),
    {
        self.broadcast_message(message_bin, channel)
    }

    /// Queues a frame received over TCP on `channel`; a channel without a
    /// queue gets one.
    pub fn queue_tcp_message(&mut self, channel: &MessageChannelID, handle: ConnectionHandle, bytes: Vec<u8>)
        ensures
            final(self)@ == old(self)@.with_received(channel.id, (handle, bytes@)),
    {
        let ghost item = (handle, bytes@);
        let mut q: Vec<(ConnectionHandle, Vec<u8>)> = match queue_map_remove(&mut self.unprocessed_messages, channel.id) {
            Some((_, v)) => v,
            None => Vec::new(),
        };
        assert(queue_view(q@) =~= old(self)@.queue_of(channel.id));
        let ghost before = q@;
        q.push((handle, bytes));
        assert(queue_view(q@) =~= queue_view(before).push(item));
        let _ = queue_map_insert(&mut self.unprocessed_messages, channel.id, q);
        assert(self@ =~= old(self)@.with_received(channel.id, item));
    }

    /// Queues a frame received over UDP on `channel`; frames of a channel
    /// without a queue are dropped.
    pub fn queue_udp_message(&mut self, channel: &MessageChannelID, handle: ConnectionHandle, bytes: Vec<u8>)
        ensures
            final(self)@ == old(self)@.with_datagram(channel.id, (handle, bytes@)),
    {
        let ghost item = (handle, bytes@);
        match queue_map_remove(&mut self.unprocessed_messages, channel.id) {
            Some((_, q)) => {
                let mut q = q;
                let ghost before = q@;
                q.push((handle, bytes));
                assert(queue_view(q@) =~= queue_view(before).push(item));
                let _ = queue_map_insert(&mut self.unprocessed_messages, channel.id, q);
                assert(self@ =~= old(self)@.with_received(channel.id, item));
            },
            None => {
                assert(self@ =~= old(self)@);
            },
        }
    }

    /// Takes every queued frame of `channel`, oldest first, and leaves the
    /// channel with an empty queue (creating it where there was none).
    pub fn drain_channel(&mut self, channel: &MessageChannelID) -> (r: Vec<(ConnectionHandle, Vec<u8>)>)
        ensures
            queue_view(r@) == old(self)@.queue_of(channel.id),
            final(self)@ == old(self)@.drained(channel.id),
    {
        let taken: Vec<(ConnectionHandle, Vec<u8>)> = match queue_map_remove(&mut self.unprocessed_messages, channel.id) {
            Some((_, v)) => v,
            None => Vec::new(),
        };
        assert(queue_view(taken@) =~= old(self)@.queue_of(channel.id));
        let empty: Vec<(ConnectionHandle, Vec<u8>)> = Vec::new();
        assert(queue_view(empty@) =~= Seq::empty());
        let _ = queue_map_insert(&mut self.unprocessed_messages, channel.id, empty);
        assert(self@ =~= old(self)@.drained(channel.id));
        taken
    }

    /// Stops the socket tasks, forgets both senders and drops every queued
    /// frame; registered channels stay registered.
    pub fn disconnect_from_all(&mut self)
        ensures
            final(self)@ == old(self)@.disconnected(),
    {
        if let Some(handle) = &self.write_task_handle {
            task_abort(handle);
        }
        if let Some(handle) = &self.read_task_handle {
            task_abort(handle);
        }
        self.read_task_handle = None;
        self.write_task_handle = None;
        self.tcp_msg_sender = None;
        self.udp_msg_sender = None;
        queue_map_clear(&mut self.unprocessed_messages);
        assert(self@ =~= old(self)@.disconnected());
    }

    /// A client has one connection: disconnecting from it disconnects from
    /// everything, and always succeeds.
    pub fn disconnect_from(&mut self, _conn_id: &ConnID) -> (r: Result<(), DisconnectError>)
        ensures
            r is Ok,
            final(self)@ == old(self)@.disconnected(),
    {
        self.disconnect_from_all();
        Ok(())
    }
}

/// Frames that arrive over TCP on a channel come back from the next drain of
/// that channel, all of them and in arrival order; a drain right after finds
/// nothing; frames of other channels are untouched.
pub proof fn lemma_drain_returns_received(m: ClientModel, channel: u8, items: Seq<(ConnectionHandle, Seq<u8>)>, other: u8)
    requires
        other != channel,
    ensures
        m.drained(channel).with_all_received(channel, items).queue_of(channel) == items,
        m.drained(channel).with_all_received(channel, items).drained(channel).queue_of(channel)
            == Seq::<(ConnectionHandle, Seq<u8>)>::empty(),
        m.drained(channel).with_all_received(channel, items).queue_of(other) == m.queue_of(other),
        m.drained(channel).with_all_received(channel, items).channels == m.channels,
    decreases items.len(),
{
    if items.len() == 0 {
    } else {
        lemma_drain_returns_received(m, channel, items.drop_last(), other);
        assert(items.drop_last().push(items.last()) =~= items);
    }
}

/// A registered channel keeps the datagrams that arrive on it, until a
/// disconnect; registering again is refused.
pub proof fn lemma_registered_channel_keeps_datagrams(m: ClientModel, channel: u8, mode: ChannelType, item: (ConnectionHandle, Seq<u8>))
    ensures
        m.with_channel(channel, mode).with_datagram(channel, item).queue_of(channel) == seq![item],
        m.with_channel(channel, mode).channels.dom().contains(channel),
        m.with_channel(channel, mode).channels[channel] == mode,
{
    assert(Seq::<(ConnectionHandle, Seq<u8>)>::empty().push(item) =~= seq![item]);
}

/// A disconnect drops every queued frame and both writers, and keeps every
/// registration; datagrams that arrive before the next drain of their channel
/// are dropped.
pub proof fn lemma_disconnect_drops_queues(m: ClientModel, channel: u8, item: (ConnectionHandle, Seq<u8>))
    ensures
        m.disconnected().queue_of(channel) == Seq::<(ConnectionHandle, Seq<u8>)>::empty(),
        m.disconnected().channels == m.channels,
        !m.disconnected().open_for(ChannelType::Reliable),
        !m.disconnected().open_for(ChannelType::Unreliable),
        m.disconnected().with_datagram(channel, item) == m.disconnected(),
{
}

/// A frame that arrives over TCP is always queued, in every state: it joins
/// the end of its channel's queue (the queue is created if missing, as after
/// a disconnect), and no other channel's queue, registration or writer
/// changes.
pub proof fn lemma_tcp_frame_always_queued(m: ClientModel, channel: u8, item: (ConnectionHandle, Seq<u8>), other: u8)
    requires
        other != channel,
    ensures
        m.with_received(channel, item).queue_of(channel) == m.queue_of(channel).push(item),
        m.with_received(channel, item).queue_of(channel).len() == m.queue_of(channel).len() + 1,
        m.with_received(channel, item).queue_of(channel).last() == item,
        m.with_received(channel, item).queues.dom().contains(channel),
        m.with_received(channel, item).queue_of(other) == m.queue_of(other),
        m.with_received(channel, item).channels == m.channels,
        m.with_received(channel, item).tcp == m.tcp,
        m.with_received(channel, item).udp == m.udp,
        m.disconnected().with_received(channel, item).queue_of(channel) == seq![item],
{
    assert(Seq::<(ConnectionHandle, Seq<u8>)>::empty().push(item) =~= seq![item]);
}

/// A datagram on a channel that has a queue joins the end of that queue; no
/// other channel's queue changes.
pub proof fn lemma_datagram_appended(m: ClientModel, channel: u8, item: (ConnectionHandle, Seq<u8>), other: u8)
    requires
        m.queues.dom().contains(channel),
        other != channel,
    ensures
        m.with_datagram(channel, item).queue_of(channel) == m.queue_of(channel).push(item),
        m.with_datagram(channel, item).queue_of(channel).len() == m.queue_of(channel).len() + 1,
        m.with_datagram(channel, item).queues.dom().contains(channel),
        m.with_datagram(channel, item).queue_of(other) == m.queue_of(other),
        m.with_datagram(channel, item).channels == m.channels,
{
}

/// Datagrams `items` that arrive, in order, on a channel that has a queue
/// are appended to it in that order, and the channel keeps its queue.
pub proof fn lemma_datagrams_appended_in_order(m: ClientModel, channel: u8, items: Seq<(ConnectionHandle, Seq<u8>)>)
    requires
        m.queues.dom().contains(channel),
    ensures
        m.with_all_datagrams(channel, items).queue_of(channel) == m.queue_of(channel) + items,
        m.with_all_datagrams(channel, items).queues.dom().contains(channel),
        m.with_all_datagrams(channel, items).channels == m.channels,
    decreases items.len(),
{
    if items.len() == 0 {
        assert(m.queue_of(channel) + items =~= m.queue_of(channel));
    } else {
        lemma_datagrams_appended_in_order(m, channel, items.drop_last());
        assert(m.queue_of(channel) + items =~= (m.queue_of(channel) + items.drop_last()).push(items.last()));
    }
}

/// A drain leaves the channel with an empty queue in place, registered or
/// not: the datagrams that arrive after it are kept, in order, and are what
/// the next drain returns.
pub proof fn lemma_datagrams_after_drain(m: ClientModel, channel: u8, items: Seq<(ConnectionHandle, Seq<u8>)>, item: (ConnectionHandle, Seq<u8>))
    ensures
        m.drained(channel).queue_of(channel) == Seq::<(ConnectionHandle, Seq<u8>)>::empty(),
        m.drained(channel).queues.dom().contains(channel),
        m.drained(channel).channels == m.channels,
        m.drained(channel).with_datagram(channel, item).queue_of(channel) == seq![item],
        m.drained(channel).with_all_datagrams(channel, items).queue_of(channel) == items,
        m.drained(channel).with_all_datagrams(channel, items).drained(channel).queue_of(channel)
            == Seq::<(ConnectionHandle, Seq<u8>)>::empty(),
{
    assert(Seq::<(ConnectionHandle, Seq<u8>)>::empty().push(item) =~= seq![item]);
    lemma_datagrams_appended_in_order(m.drained(channel), channel, items);
    assert(Seq::<(ConnectionHandle, Seq<u8>)>::empty() + items =~= items);
}

/// A channel just registered keeps every datagram that arrives on it, in
/// arrival order, until it is drained or the client disconnects.
pub proof fn lemma_registered_channel_collects_datagrams(m: ClientModel, channel: u8, mode: ChannelType, items: Seq<(ConnectionHandle, Seq<u8>)>)
    ensures
        m.with_channel(channel, mode).with_all_datagrams(channel, items).queue_of(channel) == items,
{
    lemma_datagrams_appended_in_order(m.with_channel(channel, mode), channel, items);
    assert(Seq::<(ConnectionHandle, Seq<u8>)>::empty() + items =~= items);
}

/// A send on a channel whose transport has a writer, for a message of any
/// length that fits the frame's length prefix, has exactly two outcomes: the
/// writer's channel accepts the frame (four big-endian length bytes, the
/// channel id, the message), which is appended to that writer's record with
/// the writer, the other writer, the queues and the registrations unchanged;
/// or the writer task is gone (Mpsc) and nothing changes. No other error is
/// possible.
pub proof fn lemma_send_on_open_writer(m: ClientModel, after: ClientModel, channel: u8, message: Seq<u8>, r: Result<(), SendMessageError>)
    requires
        m.channels.dom().contains(channel),
        m.open_for(m.channels[channel]),
        message.len() <= u32::MAX,
        m.sends(after, channel, message, r),
    ensures
        r is Ok || (r matches Err(SendMessageError::Mpsc(_))),
        (r matches Err(SendMessageError::Mpsc(_))) ==> after == m,
        r is Ok ==> ({
            let mode = m.channels[channel];
            let w = m.writer_for(mode)->0;
            let frame = after.writer_for(mode)->0.accepted.last();
            &&& after.writer_for(mode) is Some
            &&& after.writer_for(mode)->0.sender == w.sender
            &&& after.writer_for(mode)->0.accepted.len() == w.accepted.len() + 1
            &&& after.writer_for(mode)->0.accepted.drop_last() == w.accepted
            &&& frame.len() == message.len() + 5
            &&& frame[0] * 0x1000000 + frame[1] * 0x10000 + frame[2] * 0x100 + frame[3]
                == message.len()
            &&& frame[4] == channel
            &&& frame.subrange(5, frame.len() as int) == message
            &&& after.channels == m.channels
            &&& after.queues == m.queues
            &&& (mode == ChannelType::Reliable ==> after.udp == m.udp)
            &&& (mode == ChannelType::Unreliable ==> after.tcp == m.tcp)
        }),
{
    let mode = m.channels[channel];
    if r is Ok {
        let f = encode_frame(channel, message);
        lemma_frame_layout(channel, message);
        lemma_u32_from_be_value(f[0], f[1], f[2], f[3]);
        let w = m.writer_for(mode)->0;
        assert(w.accepted.push(f).drop_last() =~= w.accepted);
    }
}

} // verus!
