//! Declarations of the types of other crates that the library holds, and the
//! contracts of the calls it makes into those crates.
use vstd::prelude::*;

verus! {

/// The error that bincode reports when a message cannot be serialized.
#[verifier::external_type_specification]
#[verifier::external_body]
pub struct ExErrorKind(bincode::ErrorKind);

/// What tokio's channel hands back when the receiver is gone.
#[verifier::external_type_specification]
#[verifier::external_body]
#[verifier::reject_recursive_types(T)]
pub struct ExSendError<T>(tokio::sync::mpsc::error::SendError<T>);

} // verus!

use dashmap::DashMap;
use tokio::sync::mpsc::error::SendError;
use tokio::sync::mpsc::UnboundedSender;
use tokio::task::JoinHandle;
use turbulence::message_channels::{ChannelAlreadyRegistered, MessageChannelMode};

use crate::shared::{ChannelType, ConnectionHandle};

verus! {

/// dashmap's concurrent hash map.
#[verifier::external_type_specification]
#[verifier::external_body]
#[verifier::reject_recursive_types(K)]
#[verifier::reject_recursive_types(V)]
#[verifier::reject_recursive_types(S)]
pub struct ExDashMap<K, V, S>(dashmap::DashMap<K, V, S>);

/// tokio's multi-threaded runtime, which runs the socket tasks.
#[verifier::external_type_specification]
#[verifier::external_body]
pub struct ExRuntime(tokio::runtime::Runtime);

/// The sending half of a tokio unbounded channel.
#[verifier::external_type_specification]
#[verifier::external_body]
#[verifier::reject_recursive_types(T)]
pub struct ExUnboundedSender<T>(tokio::sync::mpsc::UnboundedSender<T>);

/// A handle to a spawned tokio task.
#[verifier::external_type_specification]
#[verifier::external_body]
#[verifier::reject_recursive_types(T)]
pub struct ExJoinHandle<T>(tokio::task::JoinHandle<T>);

/// The error a tokio task yields when it was cancelled or panicked; it is the
/// output type of `JoinHandle`.
#[verifier::external_type_specification]
#[verifier::external_body]
pub struct ExJoinError(tokio::task::JoinError);

/// turbulence's error for a channel that is registered twice.
#[verifier::external_type_specification]
#[verifier::external_body]
pub struct ExChannelAlreadyRegistered(turbulence::message_channels::ChannelAlreadyRegistered);

/// turbulence's description of how a channel delivers its messages.
#[verifier::external_type_specification]
#[verifier::external_body]
pub struct ExMessageChannelMode(turbulence::message_channels::MessageChannelMode);

/// The received frames of each channel, keyed by channel id, each tagged with
/// the connection it came from.
pub type RecvQueue = DashMap<u8, Vec<(ConnectionHandle, Vec<u8>)>>;

/// The transport registered for each channel id.
pub type ChannelRegistry = DashMap<u8, ChannelType>;

/// A queue of received frames with each payload taken by its view.
pub open spec fn queue_view(q: Seq<(ConnectionHandle, Vec<u8>)>) -> Seq<(ConnectionHandle, Seq<u8>)> {
    q.map_values(|m: (ConnectionHandle, Vec<u8>)| (m.0, m.1@))
}

/// What a receive-queue map holds: for each channel id, its queue.
pub uninterp spec fn queued(map: DashMap<u8, Vec<(ConnectionHandle, Vec<u8>)>>) -> Map<u8, Seq<(ConnectionHandle, Seq<u8>)>>;

/// What a channel registry holds: for each channel id, its transport.
pub uninterp spec fn registered(map: DashMap<u8, ChannelType>) -> Map<u8, ChannelType>;

/// Whether a turbulence registration error is
/// `ChannelAlreadyRegistered::Channel` (and not `MessageType`).
pub uninterp spec fn is_channel_variant(e: ChannelAlreadyRegistered) -> bool;

/// Whether a turbulence channel mode is `MessageChannelMode::Unreliable`.
pub uninterp spec fn mode_is_unreliable(mode: MessageChannelMode) -> bool;

/// `DashMap::new` for the receive queues: the map starts empty.
#[verifier::external_body]
pub(crate) fn queue_map_new() -> (r: RecvQueue)
    ensures
        queued(r).dom().is_empty(),
{
    DashMap::new()
}

/// `DashMap::insert` on the receive queues: the key now maps to the new
/// queue; the old queue of that key, if any, is handed back.
#[verifier::external_body]
pub(crate) fn queue_map_insert(map: &mut RecvQueue, key: u8, value: Vec<(ConnectionHandle, Vec<u8>)>) -> (r: Option<Vec<(ConnectionHandle, Vec<u8>)>>)
    ensures
        queued(*final(map)) == queued(*old(map)).insert(key, queue_view(value@)),
        r is Some <==> queued(*old(map)).dom().contains(key),
        r matches Some(v) ==> queue_view(v@) == queued(*old(map))[key],
{
    map.insert(key, value)
}

/// `DashMap::remove` on the receive queues: the key leaves the map; its entry,
/// if any, is handed back.
#[verifier::external_body]
pub(crate) fn queue_map_remove(map: &mut RecvQueue, key: u8) -> (r: Option<(u8, Vec<(ConnectionHandle, Vec<u8>)>)>)
    ensures
        queued(*final(map)) == queued(*old(map)).remove(key),
        r is Some <==> queued(*old(map)).dom().contains(key),
        r matches Some(e) ==> e.0 == key && queue_view(e.1@) == queued(*old(map))[key],
{
    map.remove(&key)
}

/// `DashMap::clear` on the receive queues: the map is empty afterwards.
#[verifier::external_body]
pub(crate) fn queue_map_clear(map: &mut RecvQueue)
    ensures
        queued(*final(map)).dom().is_empty(),
{
    map.clear()
}

/// `DashMap::new` for the channel registry: the map starts empty.
#[verifier::external_body]
pub(crate) fn registry_new() -> (r: ChannelRegistry)
    ensures
        registered(r).dom().is_empty(),
{
    DashMap::new()
}

/// `DashMap::insert` on the channel registry: the key now maps to `value`;
/// the old transport of that key, if any, is handed back.
#[verifier::external_body]
pub(crate) fn registry_insert(map: &mut ChannelRegistry, key: u8, value: ChannelType) -> (r: Option<ChannelType>)
    ensures
        registered(*final(map)) == registered(*old(map)).insert(key, value),
        r == (if registered(*old(map)).dom().contains(key) {
            Some(registered(*old(map))[key])
        } else {
            None
        }),
{
    map.insert(key, value)
}

/// `DashMap::contains_key` on the channel registry.
#[verifier::external_body]
pub(crate) fn registry_contains(map: &ChannelRegistry, key: u8) -> (r: bool)
    ensures
        r == registered(*map).dom().contains(key),
{
    map.contains_key(&key)
}

/// `DashMap::view` on the channel registry, reading the transport of `key`.
#[verifier::external_body]
pub(crate) fn registry_get(map: &ChannelRegistry, key: u8) -> (r: Option<ChannelType>)
    ensures
        r == (if registered(*map).dom().contains(key) {
            Some(registered(*map)[key])
        } else {
            None
        }),
{
    map.view(&key, |_k, v| *v)
}

/// The sending half of a writer task's channel, with the record of every
/// frame that the channel has accepted from it.
pub struct FrameSender {
    sender: UnboundedSender<Vec<u8>>,
    accepted: Ghost<Seq<Seq<u8>>>,
}

impl FrameSender {
    /// The channel sender this writer sends on.
    pub closed spec fn channel(self) -> UnboundedSender<Vec<u8>> {
        self.sender
    }

    /// Every frame the channel has accepted from this writer, oldest first.
    pub closed spec fn accepted(self) -> Seq<Seq<u8>> {
        self.accepted@
    }

    /// A writer on `sender` that has sent nothing yet.
    pub fn new(sender: UnboundedSender<Vec<u8>>) -> (r: Self)
        ensures
            r.channel() == sender,
            r.accepted() == Seq::<Seq<u8>>::empty(),
    {
        FrameSender { sender, accepted: Ghost(Seq::empty()) }
    }
}

/// `UnboundedSender::send` on the writer's channel: hands `frame` to the
/// channel. On success the channel holds the frame, which is recorded as
/// accepted; when the receiving task is gone the call fails, the frame is
/// handed back inside the error and nothing is recorded. Which of the two
/// happens is not known before the call.
#[verifier::external_body]
pub(crate) fn frame_sender_send(writer: &mut FrameSender, frame: Vec<u8>) -> (r: Result<(), SendError<Vec<u8>>>)
    ensures
        final(writer).channel() == old(writer).channel(),
        r is Ok ==> final(writer).accepted() == old(writer).accepted().push(frame@),
        r is Err ==> final(writer).accepted() == old(writer).accepted(),
{
    writer.sender.send(frame)
}

/// `JoinHandle::abort`: asks the runtime to cancel the task.
#[verifier::external_body]
pub(crate) fn task_abort(handle: &JoinHandle<()>)
{
    handle.abort()
}

/// Builds turbulence's `ChannelAlreadyRegistered::Channel`.
#[verifier::external_body]
pub(crate) fn channel_already_registered() -> (r: ChannelAlreadyRegistered)
    ensures
        is_channel_variant(r),
{
    ChannelAlreadyRegistered::Channel
}

/// Tells `MessageChannelMode::Unreliable` apart from the reliable and
/// compressed modes.
#[verifier::external_body]
pub(crate) fn is_unreliable_mode(mode: &MessageChannelMode) -> (r: bool)
    ensures
        r == mode_is_unreliable(*mode),
{
    match mode {
        MessageChannelMode::Unreliable => true,
        _ => false,
    }
}

} // verus!
