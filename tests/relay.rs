use leed_controller::common::sniffer::LinkRelay;
use leed_controller::event_logger::get_ports;

#[test]
fn failed_write_is_retried_before_newer_frames() {
    let mut r: LinkRelay<[u8; 6]> = LinkRelay::new();
    assert_eq!(r.next_write(), None);
    let a = [2, 0x31, 0, 1, 2 ^ 0x31 ^ 1, 3];
    let b = [2, 0x32, 0, 2, 2 ^ 0x32 ^ 2, 3];
    r.accept(a);
    r.accept(b);
    assert_eq!(r.next_write(), Some(a));
    r.write_done(false);
    assert_eq!(r.next_write(), Some(a));
    r.write_done(true);
    assert_eq!(r.next_write(), Some(b));
    r.write_done(true);
    assert_eq!(r.next_write(), None);
}

#[test]
fn sniffer_ports() {
    assert_eq!(
        get_ports(),
        Some(("/dev/ttyUSB1".to_string(), "/dev/ttyUSB0".to_string()))
    );
}
