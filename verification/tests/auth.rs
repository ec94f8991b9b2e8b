use ntfy_sender::auth::{guard, HttpStatus, IpAddress};

/// The client address of a socket address such as `SocketAddr::from((ip, 1234))`;
/// the port plays no part in the decision.
fn addr(ip: [u8; 4]) -> IpAddress {
    IpAddress::V4(ip)
}

#[test]
fn loopback_ipv4_allowed() {
    assert!(guard(&addr([127, 0, 0, 1])).is_ok());
}

#[test]
fn loopback_ipv6_allowed() {
    // "[::1]:1234"
    let addr = IpAddress::V6([0, 0, 0, 0, 0, 0, 0, 1]);
    assert!(guard(&addr).is_ok());
}

#[test]
fn lan_ip_rejected() {
    assert!(guard(&addr([192, 168, 1, 5])).is_err());
}

#[test]
fn public_ip_rejected() {
    assert!(guard(&addr([8, 8, 8, 8])).is_err());
}

#[test]
fn rejection_is_forbidden() {
    assert_eq!(guard(&IpAddress::V4([10, 0, 0, 1])), Err(HttpStatus::Forbidden));
    assert_eq!(HttpStatus::Forbidden.code(), 403);
    assert_eq!(HttpStatus::Created.code(), 201);
}

#[test]
fn whole_loopback_block_and_only_ipv6_one() {
    assert!(guard(&IpAddress::V4([127, 255, 0, 9])).is_ok());
    assert!(guard(&IpAddress::V6([0, 0, 0, 0, 0, 0, 0, 2])).is_err());
    // ::ffff:127.0.0.1 is not a loopback address for IPv6
    assert!(guard(&IpAddress::V6([0, 0, 0, 0, 0, 0xffff, 0x7f00, 1])).is_err());
    assert!(guard(&IpAddress::V6([1, 0, 0, 0, 0, 0, 0, 1])).is_err());
}
