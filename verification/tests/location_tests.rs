use prayer_times::location::{has_private_prefix, select_public_ip, InterfaceAddress};

fn addr(is_loopback: bool, ip: &str) -> InterfaceAddress {
    InterfaceAddress { is_loopback, ip: ip.to_string() }
}

#[test]
fn private_prefix_is_recognised() {
    assert!(has_private_prefix("192.168.1.10"));
    assert!(has_private_prefix("192.168"));
    assert!(!has_private_prefix("192.16"));
    assert!(!has_private_prefix("10.0.0.1"));
    assert!(!has_private_prefix("fe80::1"));
    assert!(!has_private_prefix(""));
}

#[test]
fn public_ip_skips_loopback_and_private_addresses() {
    let addresses = vec![
        addr(true, "127.0.0.1"),
        addr(false, "192.168.0.12"),
        addr(false, "203.0.113.7"),
        addr(true, "::1"),
    ];
    assert_eq!(select_public_ip(&addresses), Some("203.0.113.7".to_string()));
}

#[test]
fn public_ip_is_the_last_candidate() {
    let addresses = vec![
        addr(false, "203.0.113.7"),
        addr(false, "198.51.100.1"),
        addr(false, "192.168.1.1"),
    ];
    assert_eq!(select_public_ip(&addresses), Some("198.51.100.1".to_string()));
}

#[test]
fn no_public_ip_without_candidates() {
    assert_eq!(select_public_ip(&vec![]), None);
    let addresses = vec![addr(true, "127.0.0.1"), addr(false, "192.168.2.3")];
    assert_eq!(select_public_ip(&addresses), None);
}
