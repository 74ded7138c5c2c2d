use lanshare::banner::{show_addresses, Interface, InterfaceAddr, Ipv4Octets};
use lanshare::signal::CaptureSignal;

fn v4(a: u8, b: u8, c: u8, d: u8) -> Ipv4Octets {
    Ipv4Octets { a, b, c, d }
}

#[test]
fn loopback_is_recognised() {
    assert!(v4(127, 0, 0, 1).is_loopback());
    assert!(v4(127, 255, 0, 3).is_loopback());
    assert!(!v4(10, 0, 0, 1).is_loopback());
    assert!(!v4(192, 168, 1, 5).is_loopback());
}

#[test]
fn banner_skips_loopback_and_non_ipv4() {
    let interfaces = vec![
        Interface { name: String::from("lo"), addr: InterfaceAddr::V4(v4(127, 0, 0, 1)) },
        Interface { name: String::from("eth0"), addr: InterfaceAddr::V4(v4(192, 168, 1, 5)) },
        Interface { name: String::from("eth0"), addr: InterfaceAddr::Other },
    ];
    let rows = show_addresses(&interfaces, 9000);
    assert_eq!(rows.len(), 1);
    assert_eq!(rows[0].interface, "eth0");
    assert_eq!(rows[0].address, v4(192, 168, 1, 5));
    assert_eq!(rows[0].port, 9000);
}

#[test]
fn banner_keeps_interface_order() {
    let interfaces = vec![
        Interface { name: String::from("eth1"), addr: InterfaceAddr::V4(v4(10, 0, 0, 7)) },
        Interface { name: String::from("lo"), addr: InterfaceAddr::V4(v4(127, 0, 0, 1)) },
        Interface { name: String::from("wlan0"), addr: InterfaceAddr::V4(v4(172, 16, 0, 2)) },
    ];
    let rows = show_addresses(&interfaces, 8080);
    assert_eq!(rows.len(), 2);
    assert_eq!(rows[0].interface, "eth1");
    assert_eq!(rows[1].interface, "wlan0");
    assert_eq!(rows[0].port, 8080);
    assert_eq!(rows[1].port, 8080);
}

#[test]
fn banner_of_no_interfaces_is_empty() {
    let rows = show_addresses(&Vec::new(), 9000);
    assert!(rows.is_empty());
}

#[test]
fn signal_starts_incomplete_and_stays_complete() {
    let mut s = CaptureSignal::new();
    assert!(!s.complete());
    s.mark_complete();
    assert!(s.complete());
    s.mark_complete();
    assert!(s.complete());
}
