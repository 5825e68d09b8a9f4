use bootleg_networking::ports::get_available_port;
use bootleg_networking::shared::{ConnID, NativeConnectionType, PeerAddr, SuperConnectionHandle};

fn local_addr() -> PeerAddr {
    PeerAddr::V4 { ip: [127, 0, 0, 1], port: 9000 }
}

#[test]
fn conn_id_keeps_its_parts() {
    let id = ConnID::new(7, local_addr(), NativeConnectionType::Udp);
    assert_eq!(id.uuid, 7);
    assert_eq!(id.addr, local_addr());
    assert_eq!(id.mode, NativeConnectionType::Udp);
}

#[test]
fn native_handle() {
    let id = ConnID::new(0, local_addr(), NativeConnectionType::Tcp);
    let h = SuperConnectionHandle::new_native(id);
    assert!(h.is_native());
    assert!(!h.is_naia());
    assert_eq!(*h.native(), id);
}

#[test]
fn naia_handle() {
    let h = SuperConnectionHandle::new_naia(12);
    assert!(h.is_naia());
    assert!(!h.is_native());
    assert_eq!(*h.naia(), 12);
}

#[test]
fn first_free_port_is_returned() {
    let port = get_available_port("127.0.0.1", |ip: &str, p: u16| {
        assert_eq!(ip, "127.0.0.1");
        p >= 8005
    });
    assert_eq!(port, Some(8005));
}

#[test]
fn lowest_port_when_all_free() {
    assert_eq!(get_available_port("0.0.0.0", |_: &str, _: u16| true), Some(8000));
}

#[test]
fn last_candidate_port() {
    assert_eq!(get_available_port("0.0.0.0", |_: &str, p: u16| p == 8999), Some(8999));
    assert_eq!(get_available_port("0.0.0.0", |_: &str, p: u16| p == 9000), None);
}

#[test]
fn no_free_port() {
    let probed = std::cell::Cell::new(0u32);
    let port = get_available_port("0.0.0.0", |_: &str, _: u16| {
        probed.set(probed.get() + 1);
        false
    });
    assert_eq!(port, None);
    assert_eq!(probed.get(), 1000);
}
