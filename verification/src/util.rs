//! Conversion between the stack's native address form and the portable one.
//!
//! The stack keeps address bytes in memory order inside 32-bit words, so a
//! word's numeric value depends on the host's byte order. Both directions go
//! through the host's own byte order, and the round trip is the identity on
//! little- and big-endian hosts alike.

use crate::lwip::{IpAddrT, IPADDR_TYPE_ANY, IPADDR_TYPE_V4, IPADDR_TYPE_V6};
use vstd::endian::{endianness, Endian};
use vstd::prelude::*;

verus! {

/// A socket address in portable form: the address bytes in network order,
/// the port and, for IPv6, the scope.
#[derive(Clone, Copy, Debug, PartialEq, Eq, Hash)]
#[allow(inconsistent_fields)]
pub enum SocketAddr {
    V4 { ip: [u8; 4], port: u16 },
    V6 { ip: [u8; 16], port: u16, scope_id: u32 },
}

impl SocketAddr {
    /// The port of either family.
    pub open spec fn spec_port(&self) -> u16 {
        match *self {
            SocketAddr::V4 { port, .. } => port,
            SocketAddr::V6 { port, .. } => port,
        }
    }

    /// The port of either family.
    #[verifier::when_used_as_spec(spec_port)]
    pub fn port(&self) -> (p: u16)
        ensures
            p == self.spec_port(),
    {
        match *self {
            SocketAddr::V4 { port, .. } => port,
            SocketAddr::V6 { port, .. } => port,
        }
    }

    /// Whether the stack's one-byte zone can hold this address's scope.
    pub open spec fn zone_fits(&self) -> bool {
        self matches SocketAddr::V6 { scope_id, .. } ==> scope_id <= 0xff
    }
}

/// What a dual-stack address is read as.
#[derive(Clone, Copy, Debug, PartialEq, Eq, Structural)]
pub enum DualStackPolicy {
    /// Always the unspecified IPv4 address.
    Unspecified,
    /// The IPv4 address held in an IPv4-mapped IPv6 address, and the
    /// unspecified IPv4 address where the words hold no such address.
    MappedV4,
}

/// The four bytes of a word, least significant first.
pub open spec fn word_digits(w: u32) -> Seq<u8> {
    seq![
        (w % 0x100) as u8,
        (w / 0x100 % 0x100) as u8,
        (w / 0x100 / 0x100 % 0x100) as u8,
        (w / 0x100 / 0x100 / 0x100) as u8,
    ]
}

/// The word that four bytes spell, least significant first.
pub open spec fn digits_word(d: Seq<u8>) -> u32
    recommends
        d.len() == 4,
{
    (d[0] + 0x100 * (d[1] + 0x100 * (d[2] + 0x100 * d[3]))) as u32
}

/// The four bytes that a word occupies in memory under a byte order.
pub open spec fn word_bytes(order: Endian, w: u32) -> Seq<u8> {
    match order {
        Endian::Little => word_digits(w),
        Endian::Big => word_digits(w).reverse(),
    }
}

/// The word that four bytes in memory spell under a byte order.
pub open spec fn bytes_word(order: Endian, b: Seq<u8>) -> u32
    recommends
        b.len() == 4,
{
    match order {
        Endian::Little => digits_word(b),
        Endian::Big => digits_word(b.reverse()),
    }
}

/// The sixteen bytes that four words occupy in memory.
pub open spec fn words_bytes(order: Endian, words: Seq<u32>) -> Seq<u8>
    recommends
        words.len() == 4,
{
    word_bytes(order, words[0]) + word_bytes(order, words[1]) + word_bytes(order, words[2])
        + word_bytes(order, words[3])
}

/// Whether four words hold an IPv4-mapped IPv6 address (`::ffff:a.b.c.d`).
pub open spec fn is_mapped_v4(order: Endian, words: Seq<u32>) -> bool
    recommends
        words.len() == 4,
{
    words[0] == 0 && words[1] == 0 && word_bytes(order, words[2]) == seq![0u8, 0u8, 0xffu8, 0xffu8]
}

/// The unspecified IPv4 address with a port.
pub open spec fn unspecified_v4(port: u16) -> SocketAddr {
    SocketAddr::V4 { ip: [0u8, 0u8, 0u8, 0u8], port }
}

/// An IPv4 socket address from four bytes.
pub open spec fn v4_of(b: Seq<u8>, port: u16) -> SocketAddr
    recommends
        b.len() == 4,
{
    SocketAddr::V4 { ip: [b[0], b[1], b[2], b[3]], port }
}

/// An IPv6 socket address from sixteen bytes.
pub open spec fn v6_of(b: Seq<u8>, port: u16, scope_id: u32) -> SocketAddr
    recommends
        b.len() == 16,
{
    SocketAddr::V6 {
        ip: [
            b[0],
            b[1],
            b[2],
            b[3],
            b[4],
            b[5],
            b[6],
            b[7],
            b[8],
            b[9],
            b[10],
            b[11],
            b[12],
            b[13],
            b[14],
            b[15],
        ],
        port,
        scope_id,
    }
}

/// The portable form of a native address under a byte order: by the family
/// tag, four bytes of the first word, or all sixteen bytes and the zone; a
/// dual-stack address by the policy; any other tag as unspecified IPv4.
pub open spec fn spec_to_socket_addr(
    order: Endian,
    policy: DualStackPolicy,
    addr: IpAddrT,
    port: u16,
) -> SocketAddr {
    if addr.type_ == IPADDR_TYPE_V4 {
        v4_of(word_bytes(order, addr.words()[0]), port)
    } else if addr.type_ == IPADDR_TYPE_V6 {
        v6_of(words_bytes(order, addr.words()), port, addr.zone as u32)
    } else if addr.type_ == IPADDR_TYPE_ANY && policy == DualStackPolicy::MappedV4 && is_mapped_v4(
        order,
        addr.words(),
    ) {
        v4_of(word_bytes(order, addr.words()[3]), port)
    } else {
        unspecified_v4(port)
    }
}

/// The portable form of a native address on this host, a dual-stack address
/// read as the unspecified IPv4 address.
pub open spec fn host_socket_addr(addr: IpAddrT, port: u16) -> SocketAddr {
    spec_to_socket_addr(endianness(), DualStackPolicy::Unspecified, addr, port)
}

/// The native form of a portable address on this host.
pub open spec fn host_ip_addr_t(sa: SocketAddr) -> IpAddrT {
    spec_to_ip_addr_t(endianness(), sa)
}

/// The zone that stands for a scope: the scope where one byte holds it, and
/// no zone otherwise.
pub open spec fn zone_of(scope_id: u32) -> u8 {
    if scope_id <= 0xff {
        scope_id as u8
    } else {
        0
    }
}

/// The native form of a portable address under a byte order.
pub open spec fn spec_to_ip_addr_t(order: Endian, sa: SocketAddr) -> IpAddrT {
    match sa {
        SocketAddr::V4 { ip, .. } => IpAddrT {
            addr: [bytes_word(order, ip@), 0u32, 0u32, 0u32],
            zone: 0,
            type_: IPADDR_TYPE_V4,
        },
        SocketAddr::V6 { ip, scope_id, .. } => IpAddrT {
            addr: [
                bytes_word(order, ip@.subrange(0, 4)),
                bytes_word(order, ip@.subrange(4, 8)),
                bytes_word(order, ip@.subrange(8, 12)),
                bytes_word(order, ip@.subrange(12, 16)),
            ],
            zone: zone_of(scope_id),
            type_: IPADDR_TYPE_V6,
        },
    }
}

/// Digits and word determine each other.
pub proof fn lemma_word_digits_round_trip(w: u32, d: Seq<u8>)
    ensures
        word_digits(w).len() == 4,
        digits_word(word_digits(w)) == w,
        d.len() == 4 ==> word_digits(digits_word(d)) == d,
{
    let q1 = w / 0x100;
    let q2 = q1 / 0x100;
    let q3 = q2 / 0x100;
    assert(w == (w % 0x100) + 0x100 * q1);
    assert(q1 == (q1 % 0x100) + 0x100 * q2);
    assert(q2 == (q2 % 0x100) + 0x100 * q3);
    assert(q3 < 0x100);
    if d.len() == 4 {
        let t2 = d[2] + 0x100 * d[3];
        let t1 = d[1] + 0x100 * t2;
        let v = d[0] + 0x100 * t1;
        assert(v % 0x100 == d[0] && v / 0x100 == t1);
        assert(t1 % 0x100 == d[1] && t1 / 0x100 == t2);
        assert(t2 % 0x100 == d[2] && t2 / 0x100 == d[3]);
        assert(word_digits(digits_word(d)) =~= d);
    }
}

/// Bytes and word determine each other under either byte order.
pub proof fn lemma_word_bytes_round_trip(order: Endian, w: u32, b: Seq<u8>)
    ensures
        word_bytes(order, w).len() == 4,
        bytes_word(order, word_bytes(order, w)) == w,
        b.len() == 4 ==> word_bytes(order, bytes_word(order, b)) == b,
{
    lemma_word_digits_round_trip(w, b);
    lemma_word_digits_round_trip(w, b.reverse());
    assert(word_digits(w).reverse().reverse() =~= word_digits(w));
    if b.len() == 4 {
        assert(b.reverse().reverse() =~= b);
    }
}

/// Address conversion preserves bit identity: a portable address taken to
/// the native form and back is the same address, under either byte order and
/// either policy, provided the stack's one-byte zone can hold its scope.
pub proof fn lemma_address_round_trip(order: Endian, policy: DualStackPolicy, sa: SocketAddr)
    requires
        sa.zone_fits(),
    ensures
        spec_to_socket_addr(order, policy, spec_to_ip_addr_t(order, sa), sa.port()) == sa,
{
    let native = spec_to_ip_addr_t(order, sa);
    let back = spec_to_socket_addr(order, policy, native, sa.port());
    match sa {
        SocketAddr::V4 { ip, port } => {
            lemma_word_bytes_round_trip(order, 0, ip@);
            assert(native.words()[0] == bytes_word(order, ip@));
            assert(back == v4_of(ip@, port));
            assert(back is V4);
            assert(back->V4_ip@ =~= ip@);
            assert(back->V4_ip == ip);
        },
        SocketAddr::V6 { ip, port, scope_id } => {
            lemma_word_bytes_round_trip(order, 0, ip@.subrange(0, 4));
            lemma_word_bytes_round_trip(order, 0, ip@.subrange(4, 8));
            lemma_word_bytes_round_trip(order, 0, ip@.subrange(8, 12));
            lemma_word_bytes_round_trip(order, 0, ip@.subrange(12, 16));
            assert(native.words()[0] == bytes_word(order, ip@.subrange(0, 4)));
            assert(native.words()[1] == bytes_word(order, ip@.subrange(4, 8)));
            assert(native.words()[2] == bytes_word(order, ip@.subrange(8, 12)));
            assert(native.words()[3] == bytes_word(order, ip@.subrange(12, 16)));
            assert(words_bytes(order, native.words()) =~= ip@);
            assert(back == v6_of(ip@, port, scope_id));
            assert(back->V6_ip@ =~= ip@);
            assert(back->V6_scope_id == scope_id);
            assert(back->V6_ip == ip);
        },
    }
}

/// `u32::to_ne_bytes`: the bytes of the word's memory representation in the
/// host's byte order.
#[verifier::external_body]
fn u32_to_ne_bytes(w: u32) -> (b: [u8; 4])
    ensures
        b@ == word_bytes(endianness(), w),
{
    w.to_ne_bytes()
}

/// `u32::from_ne_bytes`: the word whose memory representation in the host's
/// byte order is these bytes.
#[verifier::external_body]
fn u32_from_ne_bytes(b: [u8; 4]) -> (w: u32)
    ensures
        w == bytes_word(endianness(), b@),
{
    u32::from_ne_bytes(b)
}

/// The unspecified IPv4 address with a port.
fn unspecified(port: u16) -> (sa: SocketAddr)
    ensures
        sa == unspecified_v4(port),
{
    let ip: [u8; 4] = [0, 0, 0, 0];
    let sa = SocketAddr::V4 { ip, port };
    assert(ip@ =~= unspecified_v4(port)->V4_ip@);
    assert(ip == unspecified_v4(port)->V4_ip);
    sa
}

/// Converts a native address and a port to the portable form, reading a
/// dual-stack address as the unspecified IPv4 address.
pub fn to_socket_addr(addr: &IpAddrT, port: u16) -> (sa: SocketAddr)
    ensures
        sa == host_socket_addr(*addr, port),
{
    to_socket_addr_with(DualStackPolicy::Unspecified, addr, port)
}

/// Converts a native address and a port to the portable form under a policy
/// for dual-stack addresses. Never fails: a tag that names no family gives
/// the unspecified IPv4 address.
pub fn to_socket_addr_with(policy: DualStackPolicy, addr: &IpAddrT, port: u16) -> (sa: SocketAddr)
    ensures
        sa == spec_to_socket_addr(endianness(), policy, *addr, port),
{
    let ghost order = endianness();
    let ghost want = spec_to_socket_addr(order, policy, *addr, port);
    if addr.type_ == IPADDR_TYPE_V4 {
        let ip = u32_to_ne_bytes(addr.addr[0]);
        proof {
            lemma_word_bytes_round_trip(order, addr.addr[0], seq![]);
            assert(ip@ =~= want->V4_ip@);
        }
        assert(ip == want->V4_ip);
        SocketAddr::V4 { ip, port }
    } else if addr.type_ == IPADDR_TYPE_V6 {
        let first = u32_to_ne_bytes(addr.addr[0]);
        let second = u32_to_ne_bytes(addr.addr[1]);
        let third = u32_to_ne_bytes(addr.addr[2]);
        let fourth = u32_to_ne_bytes(addr.addr[3]);
        let ip: [u8; 16] = [
            first[0],
            first[1],
            first[2],
            first[3],
            second[0],
            second[1],
            second[2],
            second[3],
            third[0],
            third[1],
            third[2],
            third[3],
            fourth[0],
            fourth[1],
            fourth[2],
            fourth[3],
        ];
        proof {
            lemma_word_bytes_round_trip(order, addr.addr[0], seq![]);
            lemma_word_bytes_round_trip(order, addr.addr[1], seq![]);
            lemma_word_bytes_round_trip(order, addr.addr[2], seq![]);
            lemma_word_bytes_round_trip(order, addr.addr[3], seq![]);
            assert(ip@ =~= words_bytes(order, addr.words()));
            assert(ip@ =~= want->V6_ip@);
        }
        assert(ip == want->V6_ip);
        SocketAddr::V6 { ip, port, scope_id: addr.zone as u32 }
    } else if addr.type_ == IPADDR_TYPE_ANY && policy == DualStackPolicy::MappedV4 {
        let marker = u32_to_ne_bytes(addr.addr[2]);
        if addr.addr[0] == 0 && addr.addr[1] == 0 && marker[0] == 0 && marker[1] == 0 && marker[2]
            == 0xff && marker[3] == 0xff {
            let ip = u32_to_ne_bytes(addr.addr[3]);
            proof {
                lemma_word_bytes_round_trip(order, addr.addr[3], seq![]);
                assert(marker@ =~= seq![0u8, 0u8, 0xffu8, 0xffu8]);
                assert(is_mapped_v4(order, addr.words()));
                assert(ip@ =~= want->V4_ip@);
            }
            assert(ip == want->V4_ip);
            SocketAddr::V4 { ip, port }
        } else {
            proof {
                lemma_word_bytes_round_trip(order, addr.addr[2], seq![]);
                assert(!is_mapped_v4(order, addr.words()));
            }
            unspecified(port)
        }
    } else {
        unspecified(port)
    }
}

/// Converts a portable address to the native form. The port is not part of
/// the native form. A scope that one byte cannot hold becomes no zone.
pub fn to_ip_addr_t(sa: &SocketAddr) -> (ip: IpAddrT)
    ensures
        ip == host_ip_addr_t(*sa),
{
    let ghost want = spec_to_ip_addr_t(endianness(), *sa);
    match *sa {
        SocketAddr::V4 { ip, .. } => {
            let w = u32_from_ne_bytes(ip);
            let native = IpAddrT { addr: [w, 0, 0, 0], zone: 0, type_: IPADDR_TYPE_V4 };
            proof {
                assert(native.addr@ =~= want.addr@);
            }
            native
        },
        SocketAddr::V6 { ip, scope_id, .. } => {
            let w0 = u32_from_ne_bytes([ip[0], ip[1], ip[2], ip[3]]);
            let w1 = u32_from_ne_bytes([ip[4], ip[5], ip[6], ip[7]]);
            let w2 = u32_from_ne_bytes([ip[8], ip[9], ip[10], ip[11]]);
            let w3 = u32_from_ne_bytes([ip[12], ip[13], ip[14], ip[15]]);
            let zone: u8 = if scope_id <= 0xff {
                scope_id as u8
            } else {
                0
            };
            let native = IpAddrT { addr: [w0, w1, w2, w3], zone, type_: IPADDR_TYPE_V6 };
            proof {
                assert([ip[0], ip[1], ip[2], ip[3]]@ =~= ip@.subrange(0, 4));
                assert([ip[4], ip[5], ip[6], ip[7]]@ =~= ip@.subrange(4, 8));
                assert([ip[8], ip[9], ip[10], ip[11]]@ =~= ip@.subrange(8, 12));
                assert([ip[12], ip[13], ip[14], ip[15]]@ =~= ip@.subrange(12, 16));
                assert(native.addr@ =~= want.addr@);
            }
            native
        },
    }
}

/// The round trip as the two conversions perform it on this host.
pub fn round_trip(sa: &SocketAddr) -> (back: SocketAddr)
    ensures
        sa.zone_fits() ==> back == *sa,
{
    let native = to_ip_addr_t(sa);
    proof {
        if sa.zone_fits() {
            lemma_address_round_trip(endianness(), DualStackPolicy::Unspecified, *sa);
        }
    }
    to_socket_addr(&native, sa.port())
}

} // verus!
