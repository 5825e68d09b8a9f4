use std::sync::Arc;

use bootleg_networking::client::NativeClient;
use bootleg_networking::frame::parse_datagram;
use bootleg_networking::resource::channel_type_for_mode;
use bootleg_networking::shared::{
    ChannelType, ConnID, MessageChannelID, NativeConnectionType, PeerAddr, SendMessageError,
    SuperConnectionHandle,
};
use tokio::sync::mpsc::unbounded_channel;
use turbulence::message_channels::{ChannelAlreadyRegistered, MessageChannelMode};
use turbulence::reliable_channel::Settings;

fn client() -> NativeClient {
    let rt = tokio::runtime::Builder::new_current_thread().build().unwrap();
    NativeClient::new(Arc::new(rt))
}

fn handle(uuid: u32) -> SuperConnectionHandle {
    SuperConnectionHandle::new_native(ConnID::new(
        uuid,
        PeerAddr::V4 { ip: [10, 0, 0, 1], port: 4000 },
        NativeConnectionType::Tcp,
    ))
}

fn uuid_of(h: &SuperConnectionHandle) -> u32 {
    h.native().uuid
}

fn reliable_settings() -> Settings {
    Settings {
        bandwidth: 4096,
        recv_window_size: 1024,
        send_window_size: 1024,
        burst_bandwidth: 1024,
        init_send: 512,
        wakeup_time: std::time::Duration::from_millis(100),
        initial_rtt: std::time::Duration::from_millis(200),
        max_rtt: std::time::Duration::from_secs(2),
        rtt_update_factor: 0.1,
        rtt_resend_factor: 1.5,
    }
}

#[test]
fn new_client_is_not_connected() {
    let c = client();
    assert!(!c.is_connected());
    assert!(!c.is_registered(&MessageChannelID::new(0)));
}

#[test]
fn channel_registers_once() {
    let mut c = client();
    let ch = MessageChannelID::new(3);
    assert!(c.register_message(&ch, ChannelType::Reliable).is_ok());
    assert!(c.is_registered(&ch));
    match c.register_message(&ch, ChannelType::Unreliable) {
        Err(ChannelAlreadyRegistered::Channel) => {}
        other => panic!("unexpected {:?}", other),
    }
}

#[test]
fn turbulence_modes_map_to_transports() {
    assert_eq!(channel_type_for_mode(&MessageChannelMode::Unreliable), ChannelType::Unreliable);
    let reliable = MessageChannelMode::Reliable {
        reliability_settings: reliable_settings(),
        max_message_len: 1024,
    };
    assert_eq!(channel_type_for_mode(&reliable), ChannelType::Reliable);
    let compressed = MessageChannelMode::Compressed {
        reliability_settings: reliable_settings(),
        max_chunk_len: 1024,
    };
    assert_eq!(channel_type_for_mode(&compressed), ChannelType::Reliable);
}

#[test]
fn register_native_uses_mode() {
    let mut c = client();
    let (tcp_tx, mut tcp_rx) = unbounded_channel::<Vec<u8>>();
    let (udp_tx, mut udp_rx) = unbounded_channel::<Vec<u8>>();
    c.set_senders(tcp_tx, udp_tx);
    let ch = MessageChannelID::new(1);
    assert!(c.register_message_channel_native(&MessageChannelMode::Unreliable, &ch).is_ok());
    assert!(c.register_message_channel_native(&MessageChannelMode::Unreliable, &ch).is_err());
    c.broadcast_message(&[8, 9], &ch).unwrap();
    assert_eq!(udp_rx.try_recv().unwrap(), vec![0, 0, 0, 2, 1, 8, 9]);
    assert!(tcp_rx.try_recv().is_err());
}

#[test]
fn tcp_frames_come_back_in_order() {
    let mut c = client();
    let ch = MessageChannelID::new(5);
    c.queue_tcp_message(&ch, handle(1), vec![1]);
    c.queue_tcp_message(&ch, handle(2), vec![2, 2]);
    c.queue_tcp_message(&MessageChannelID::new(6), handle(3), vec![3]);
    let got = c.drain_channel(&ch);
    assert_eq!(got.len(), 2);
    assert_eq!(uuid_of(&got[0].0), 1);
    assert_eq!(got[0].1, vec![1]);
    assert_eq!(uuid_of(&got[1].0), 2);
    assert_eq!(got[1].1, vec![2, 2]);
    assert!(c.drain_channel(&ch).is_empty());
    assert_eq!(c.drain_channel(&MessageChannelID::new(6)).len(), 1);
}

#[test]
fn datagrams_need_a_queue() {
    let mut c = client();
    let ch = MessageChannelID::new(7);
    c.queue_udp_message(&ch, handle(1), vec![1]);
    assert!(c.drain_channel(&ch).is_empty());
    // the drain created the queue: later datagrams are kept
    c.queue_udp_message(&ch, handle(2), vec![2]);
    let got = c.drain_channel(&ch);
    assert_eq!(got.len(), 1);
    assert_eq!(got[0].1, vec![2]);
}

#[test]
fn registered_channel_keeps_datagrams() {
    let mut c = client();
    let ch = MessageChannelID::new(8);
    c.register_message(&ch, ChannelType::Unreliable).unwrap();
    c.queue_udp_message(&ch, handle(4), vec![4, 4]);
    let got = c.drain_channel(&ch);
    assert_eq!(got.len(), 1);
    assert_eq!(uuid_of(&got[0].0), 4);
}

#[test]
fn broadcast_without_connection() {
    let mut c = client();
    let ch = MessageChannelID::new(2);
    c.register_message(&ch, ChannelType::Reliable).unwrap();
    match c.broadcast_message(&[1, 2, 3], &ch) {
        Err(SendMessageError::NotConnected) => {}
        other => panic!("unexpected {:?}", other),
    }
}

#[test]
fn broadcast_frames_reach_the_writer_and_decode() {
    let mut c = client();
    let (tcp_tx, mut tcp_rx) = unbounded_channel::<Vec<u8>>();
    let (udp_tx, mut udp_rx) = unbounded_channel::<Vec<u8>>();
    c.set_senders(tcp_tx, udp_tx);
    assert!(c.is_connected());
    let ch = MessageChannelID::new(11);
    c.register_message(&ch, ChannelType::Reliable).unwrap();
    c.broadcast_message(b"ping", &ch).unwrap();
    let frame = tcp_rx.try_recv().unwrap();
    assert_eq!(frame, vec![0, 0, 0, 4, 11, b'p', b'i', b'n', b'g']);
    let (got_ch, payload) = parse_datagram(&frame, 2048).unwrap();
    assert_eq!(got_ch.id, 11);
    assert_eq!(payload, b"ping".to_vec());
    assert!(udp_rx.try_recv().is_err());
    let id = ConnID::new(0, PeerAddr::V4 { ip: [1, 2, 3, 4], port: 1 }, NativeConnectionType::Tcp);
    c.send_message(b"pong", &ch, &id).unwrap();
    assert_eq!(tcp_rx.try_recv().unwrap(), vec![0, 0, 0, 4, 11, b'p', b'o', b'n', b'g']);
}

#[test]
fn broadcast_to_closed_writer_gives_frame_back() {
    let mut c = client();
    let (tcp_tx, tcp_rx) = unbounded_channel::<Vec<u8>>();
    let (udp_tx, _udp_rx) = unbounded_channel::<Vec<u8>>();
    c.set_senders(tcp_tx, udp_tx);
    drop(tcp_rx);
    let ch = MessageChannelID::new(1);
    c.register_message(&ch, ChannelType::Reliable).unwrap();
    match c.broadcast_message(&[7], &ch) {
        Err(SendMessageError::Mpsc(e)) => assert_eq!(e.0, vec![0, 0, 0, 1, 1, 7]),
        other => panic!("unexpected {:?}", other),
    }
}

#[test]
fn disconnect_drops_queues_and_senders() {
    let mut c = client();
    let (tcp_tx, _tcp_rx) = unbounded_channel::<Vec<u8>>();
    let (udp_tx, _udp_rx) = unbounded_channel::<Vec<u8>>();
    c.set_senders(tcp_tx, udp_tx);
    let ch = MessageChannelID::new(3);
    c.register_message(&ch, ChannelType::Unreliable).unwrap();
    c.queue_tcp_message(&ch, handle(1), vec![1]);
    let id = ConnID::new(0, PeerAddr::V4 { ip: [1, 2, 3, 4], port: 1 }, NativeConnectionType::Tcp);
    assert!(c.disconnect_from(&id).is_ok());
    assert!(!c.is_connected());
    assert!(c.is_registered(&ch));
    // the queue is gone, so a datagram before the next drain is dropped
    c.queue_udp_message(&ch, handle(2), vec![2]);
    assert!(c.drain_channel(&ch).is_empty());
    match c.broadcast_message(&[1], &ch) {
        Err(SendMessageError::NotConnected) => {}
        other => panic!("unexpected {:?}", other),
    }
}

#[test]
fn clear_senders_disconnects() {
    let mut c = client();
    let (tcp_tx, _a) = unbounded_channel::<Vec<u8>>();
    let (udp_tx, _b) = unbounded_channel::<Vec<u8>>();
    c.set_senders(tcp_tx, udp_tx);
    c.clear_senders();
    assert!(!c.is_connected());
}

#[test]
fn send_without_connection_is_like_broadcast() {
    let mut c = client();
    let ch = MessageChannelID::new(2);
    c.register_message(&ch, ChannelType::Unreliable).unwrap();
    let id = ConnID::new(9, PeerAddr::V4 { ip: [1, 2, 3, 4], port: 1 }, NativeConnectionType::Udp);
    match c.send_message(&[1, 2, 3], &ch, &id) {
        Err(SendMessageError::NotConnected) => {}
        other => panic!("unexpected {:?}", other),
    }
}

#[test]
fn frames_go_to_the_writer_of_their_transport() {
    let mut c = client();
    let (tcp_tx, mut tcp_rx) = unbounded_channel::<Vec<u8>>();
    let (udp_tx, mut udp_rx) = unbounded_channel::<Vec<u8>>();
    c.set_senders(tcp_tx, udp_tx);
    let reliable = MessageChannelID::new(1);
    let unreliable = MessageChannelID::new(2);
    c.register_message(&reliable, ChannelType::Reliable).unwrap();
    c.register_message(&unreliable, ChannelType::Unreliable).unwrap();
    c.broadcast_message(&[10], &unreliable).unwrap();
    c.broadcast_message(&[20], &reliable).unwrap();
    assert_eq!(tcp_rx.try_recv().unwrap(), vec![0, 0, 0, 1, 1, 20]);
    assert_eq!(udp_rx.try_recv().unwrap(), vec![0, 0, 0, 1, 2, 10]);
    assert!(tcp_rx.try_recv().is_err());
    assert!(udp_rx.try_recv().is_err());
}
