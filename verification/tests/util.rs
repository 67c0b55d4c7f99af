use netstack_lwip::lwip::{ip_addr_any_type, IpAddrT};
use netstack_lwip::util::{
    round_trip, to_ip_addr_t, to_socket_addr, to_socket_addr_with, DualStackPolicy, SocketAddr,
};

fn v4(a: u8, b: u8, c: u8, d: u8, port: u16) -> SocketAddr {
    SocketAddr::V4 { ip: [a, b, c, d], port }
}

fn v6(ip: [u8; 16], port: u16, scope_id: u32) -> SocketAddr {
    SocketAddr::V6 { ip, port, scope_id }
}

fn loopback6() -> [u8; 16] {
    let mut ip = [0u8; 16];
    ip[15] = 1;
    ip
}

fn link_local() -> [u8; 16] {
    let mut ip = [0u8; 16];
    ip[0] = 0xfe;
    ip[1] = 0x80;
    ip[15] = 1;
    ip
}

#[test]
fn test_to_socket_addr() {
    let addr = to_socket_addr(&ip_addr_any_type(), 80);
    assert_eq!(addr, v4(0, 0, 0, 0, 80));
    let mut v6_addr = ip_addr_any_type();
    v6_addr.type_ = 6;
    let addr = to_socket_addr(&v6_addr, 80);
    assert_eq!(addr, v6([0u8; 16], 80, 0));
}

#[test]
fn test_to_ip_addr_t() {
    let addr = v4(0, 0, 0, 0, 0);
    assert_eq!(to_ip_addr_t(&addr).type_, 0);
    let addr = v6([0u8; 16], 0, 0);
    assert_eq!(to_ip_addr_t(&addr).type_, 6);
}

#[test]
fn round_trip_is_identity_on_the_six_addresses() {
    let all = [
        v4(0, 0, 0, 0, 0),
        v4(127, 0, 0, 1, 8080),
        v4(255, 255, 255, 255, 65535),
        v6([0u8; 16], 0, 0),
        v6(loopback6(), 53, 0),
        v6(link_local(), 443, 2),
    ];
    for a in all.iter() {
        assert_eq!(to_socket_addr(&to_ip_addr_t(a), a.port()), *a);
        assert_eq!(round_trip(a), *a);
    }
}

#[test]
fn native_words_hold_the_bytes_in_memory_order() {
    let native = to_ip_addr_t(&v4(127, 0, 0, 1, 8080));
    assert_eq!(
        native,
        IpAddrT { addr: [u32::from_ne_bytes([127, 0, 0, 1]), 0, 0, 0], zone: 0, type_: 0 }
    );
    let native = to_ip_addr_t(&v6(link_local(), 443, 2));
    assert_eq!(
        native,
        IpAddrT {
            addr: [
                u32::from_ne_bytes([0xfe, 0x80, 0, 0]),
                0,
                0,
                u32::from_ne_bytes([0, 0, 0, 1]),
            ],
            zone: 2,
            type_: 6,
        }
    );
}

#[test]
fn portable_form_reads_the_words_in_memory_order() {
    let native = IpAddrT { addr: [u32::from_ne_bytes([10, 0, 0, 2]), 7, 8, 9], zone: 5, type_: 0 };
    assert_eq!(to_socket_addr(&native, 40000), v4(10, 0, 0, 2, 40000));
    let native = IpAddrT {
        addr: [
            u32::from_ne_bytes([1, 2, 3, 4]),
            u32::from_ne_bytes([5, 6, 7, 8]),
            u32::from_ne_bytes([9, 10, 11, 12]),
            u32::from_ne_bytes([13, 14, 15, 16]),
        ],
        zone: 9,
        type_: 6,
    };
    assert_eq!(
        to_socket_addr(&native, 1),
        v6([1, 2, 3, 4, 5, 6, 7, 8, 9, 10, 11, 12, 13, 14, 15, 16], 1, 9)
    );
}

#[test]
fn a_scope_that_one_byte_cannot_hold_becomes_no_zone() {
    let a = v6(link_local(), 443, 256);
    assert_eq!(to_ip_addr_t(&a).zone, 0);
    assert_eq!(round_trip(&a), v6(link_local(), 443, 0));
    let b = v6(link_local(), 443, 255);
    assert_eq!(to_ip_addr_t(&b).zone, 255);
    assert_eq!(round_trip(&b), b);
}

#[test]
fn an_unknown_family_is_the_unspecified_v4_address() {
    let native = IpAddrT { addr: [u32::from_ne_bytes([9, 9, 9, 9]), 0, 0, 0], zone: 0, type_: 5 };
    assert_eq!(to_socket_addr(&native, 7), v4(0, 0, 0, 0, 7));
    assert_eq!(to_socket_addr_with(DualStackPolicy::MappedV4, &native, 7), v4(0, 0, 0, 0, 7));
}

#[test]
fn dual_stack_follows_the_policy() {
    let mapped = IpAddrT {
        addr: [0, 0, u32::from_ne_bytes([0, 0, 0xff, 0xff]), u32::from_ne_bytes([10, 0, 0, 1])],
        zone: 0,
        type_: 46,
    };
    assert_eq!(to_socket_addr(&mapped, 80), v4(0, 0, 0, 0, 80));
    assert_eq!(to_socket_addr_with(DualStackPolicy::Unspecified, &mapped, 80), v4(0, 0, 0, 0, 80));
    assert_eq!(to_socket_addr_with(DualStackPolicy::MappedV4, &mapped, 80), v4(10, 0, 0, 1, 80));
    let malformed = IpAddrT { addr: [1, 0, mapped.addr[2], mapped.addr[3]], zone: 0, type_: 46 };
    assert_eq!(to_socket_addr_with(DualStackPolicy::MappedV4, &malformed, 80), v4(0, 0, 0, 0, 80));
    assert_eq!(
        to_socket_addr_with(DualStackPolicy::MappedV4, &ip_addr_any_type(), 80),
        v4(0, 0, 0, 0, 80)
    );
}
