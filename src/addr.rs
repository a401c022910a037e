use vstd::prelude::*;

use byteorder::ByteOrder;

use crate::error::Error;

verus! {

/// Size in bytes of the OS's IPv4 socket-address structure.
pub const SOCKADDR_IN_LEN: u8 = 16;

/// Size in bytes of the OS's IPv6 socket-address structure.
pub const SOCKADDR_IN6_LEN: u8 = 28;

/// An address family.
#[derive(Clone, Copy, Debug, PartialEq, Eq, Structural)]
pub enum AddrFamily {
    Inet,
    Inet6,
}

/// A resolved endpoint: a numeric address of one family and a port.
#[derive(Clone, Copy, Debug)]
pub enum Endpoint {
    V4 { addr: [u8; 4], port: u16 },
    V6 { addr: [u8; 16], port: u16 },
}

impl Endpoint {
    pub open spec fn family_spec(self) -> AddrFamily {
        match self {
            Endpoint::V4 { .. } => AddrFamily::Inet,
            Endpoint::V6 { .. } => AddrFamily::Inet6,
        }
    }

    pub open spec fn port_spec(self) -> u16 {
        match self {
            Endpoint::V4 { port, .. } => port,
            Endpoint::V6 { port, .. } => port,
        }
    }

    /// The endpoint's address family.
    pub fn family(&self) -> (r: AddrFamily)
        ensures
            r == self.family_spec(),
    {
        match self {
            Endpoint::V4 { .. } => AddrFamily::Inet,
            Endpoint::V6 { .. } => AddrFamily::Inet6,
        }
    }

    /// The endpoint's port, in host order.
    pub fn port(&self) -> (r: u16)
        ensures
            r == self.port_spec(),
    {
        match self {
            Endpoint::V4 { port, .. } => *port,
            Endpoint::V6 { port, .. } => *port,
        }
    }
}

/// The OS's IPv4 socket address, field by field. `len` is the structure's
/// own length, which BSD-derived systems store and others leave out.
#[derive(Clone, Copy, Debug)]
pub struct SockaddrV4 {
    pub len: u8,
    pub family: AddrFamily,
    /// The port in network byte order.
    pub port: [u8; 2],
    pub addr: [u8; 4],
    pub zero: [u8; 8],
}

/// The OS's IPv6 socket address, field by field.
#[derive(Clone, Copy, Debug)]
pub struct SockaddrV6 {
    pub len: u8,
    pub family: AddrFamily,
    /// The port in network byte order.
    pub port: [u8; 2],
    pub flowinfo: u32,
    pub addr: [u8; 16],
    pub scope_id: u32,
}

/// A raw socket address of either family, as handed to the OS.
#[derive(Clone, Copy, Debug)]
pub enum RawAddress {
    V4(SockaddrV4),
    V6(SockaddrV6),
}

/// The two bytes of `n`, most significant first.
pub open spec fn be_bytes(n: u16) -> Seq<u8> {
    seq![(n / 256) as u8, (n % 256) as u8]
}

impl SockaddrV4 {
    /// A zeroed IPv4 address of the IPv4 family.
    pub open spec fn is_fresh(self) -> bool {
        &&& self.len == SOCKADDR_IN_LEN
        &&& self.family == AddrFamily::Inet
        &&& forall|i: int| 0 <= i < 2 ==> self.port[i] == 0
        &&& forall|i: int| 0 <= i < 4 ==> self.addr[i] == 0
        &&& forall|i: int| 0 <= i < 8 ==> self.zero[i] == 0
    }
}

impl SockaddrV6 {
    /// A zeroed IPv6 address of the IPv6 family.
    pub open spec fn is_fresh(self) -> bool {
        &&& self.len == SOCKADDR_IN6_LEN
        &&& self.family == AddrFamily::Inet6
        &&& forall|i: int| 0 <= i < 2 ==> self.port[i] == 0
        &&& self.flowinfo == 0
        &&& forall|i: int| 0 <= i < 16 ==> self.addr[i] == 0
        &&& self.scope_id == 0
    }
}

impl RawAddress {
    /// The tag agrees with the family stored in the structure, and the
    /// stored length is the structure's size.
    pub open spec fn wf(self) -> bool {
        match self {
            RawAddress::V4(s) => s.family == AddrFamily::Inet && s.len == SOCKADDR_IN_LEN,
            RawAddress::V6(s) => s.family == AddrFamily::Inet6 && s.len == SOCKADDR_IN6_LEN,
        }
    }

    pub open spec fn byte_len_spec(self) -> u8 {
        match self {
            RawAddress::V4(_) => SOCKADDR_IN_LEN,
            RawAddress::V6(_) => SOCKADDR_IN6_LEN,
        }
    }

    /// The size in bytes of the structure this address is handed to the OS as.
    pub fn byte_len(&self) -> (r: u8)
        ensures
            r == self.byte_len_spec(),
    {
        match self {
            RawAddress::V4(_) => SOCKADDR_IN_LEN,
            RawAddress::V6(_) => SOCKADDR_IN6_LEN,
        }
    }
}

/// `r` is the raw form of `ep`: the family's structure with the port in
/// network byte order, the address bytes, and every other field zero.
pub open spec fn raw_address_of(r: RawAddress, ep: Endpoint) -> bool {
    match (r, ep) {
        (RawAddress::V4(s), Endpoint::V4 { addr, port }) => {
            &&& s.len == SOCKADDR_IN_LEN
            &&& s.family == AddrFamily::Inet
            &&& s.port@ == be_bytes(port)
            &&& s.addr@ == addr@
            &&& forall|i: int| 0 <= i < 8 ==> s.zero[i] == 0
        },
        (RawAddress::V6(s), Endpoint::V6 { addr, port }) => {
            &&& s.len == SOCKADDR_IN6_LEN
            &&& s.family == AddrFamily::Inet6
            &&& s.port@ == be_bytes(port)
            &&& s.flowinfo == 0
            &&& s.addr@ == addr@
            &&& s.scope_id == 0
        },
        _ => false,
    }
}

/// Whether the address-conversion status `status` reports success for
/// `family`: exactly 1 for IPv4, any positive value for IPv6.
pub open spec fn conversion_succeeded(family: AddrFamily, status: i32) -> bool {
    match family {
        AddrFamily::Inet => status == 1,
        AddrFamily::Inet6 => status > 0,
    }
}

/// What translating `ep` gives, where converting its textual address
/// reported `status` and wrote `ep`'s address bytes.
pub open spec fn translation(r: Result<RawAddress, Error>, ep: Endpoint, status: i32) -> bool {
    if conversion_succeeded(ep.family_spec(), status) {
        r is Ok && raw_address_of(r->Ok_0, ep)
    } else {
        r == Err::<RawAddress, Error>(Error::AddrConversion(ep.family_spec()))
    }
}

/// Translating the same endpoint twice, with the same conversion outcome,
/// gives the same raw address both times, field for field.
pub proof fn lemma_translation_deterministic(
    ep: Endpoint,
    status: i32,
    r1: Result<RawAddress, Error>,
    r2: Result<RawAddress, Error>,
)
    requires
        translation(r1, ep, status),
        translation(r2, ep, status),
    ensures
        r1 == r2,
{
    broadcast use vstd::array::group_array_axioms;

    if let (Ok(RawAddress::V4(s1)), Ok(RawAddress::V4(s2))) = (r1, r2) {
        assert(s1.port =~= s2.port);
        assert(s1.addr =~= s2.addr);
        assert(s1.zero =~= s2.zero);
    }
    if let (Ok(RawAddress::V6(s1)), Ok(RawAddress::V6(s2))) = (r1, r2) {
        assert(s1.port =~= s2.port);
        assert(s1.addr =~= s2.addr);
    }
}

/// Relies on byteorder's `BigEndian::write_u16`: writes `n` into the first
/// two bytes of the buffer, most significant byte first.
#[verifier::external_body]
fn write_u16_be(n: u16) -> (r: [u8; 2])
    ensures
        r@ == be_bytes(n),
{
    let mut buf = [0u8; 2];
    byteorder::BigEndian::write_u16(&mut buf, n);
    buf
}

/// The port `host` in network byte order.
pub fn to_be(host: u16) -> (r: [u8; 2])
    ensures
        r@ == be_bytes(host),
{
    write_u16_be(host)
}

/// A zeroed IPv4 socket address of the IPv4 family.
pub fn new_sockaddr_in() -> (r: SockaddrV4)
    ensures
        r.is_fresh(),
{
    SockaddrV4 { len: SOCKADDR_IN_LEN, family: AddrFamily::Inet, port: [0; 2], addr: [0; 4], zero: [0; 8] }
}

/// A zeroed IPv6 socket address of the IPv6 family.
pub fn new_sockaddr_in6() -> (r: SockaddrV6)
    ensures
        r.is_fresh(),
{
    SockaddrV6 {
        len: SOCKADDR_IN6_LEN,
        family: AddrFamily::Inet6,
        port: [0; 2],
        flowinfo: 0,
        addr: [0; 16],
        scope_id: 0,
    }
}

/// Translates `ep` into the raw address the OS expects. `status` is what
/// converting the endpoint's textual address to network form reported; the
/// bytes that conversion wrote are `ep`'s address.
pub fn into_sockaddr_in(ep: &Endpoint, status: i32) -> (r: Result<RawAddress, Error>)
    ensures
        translation(r, *ep, status),
        r is Ok ==> r->Ok_0.wf(),
{
    match ep {
        Endpoint::V4 { addr, port } => {
            let mut s = new_sockaddr_in();
            s.port = to_be(*port);
            if status == 1 {
                s.addr = *addr;
                Ok(RawAddress::V4(s))
            } else {
                Err(Error::AddrConversion(AddrFamily::Inet))
            }
        },
        Endpoint::V6 { addr, port } => {
            let mut s = new_sockaddr_in6();
            s.port = to_be(*port);
            if status > 0 {
                s.addr = *addr;
                Ok(RawAddress::V6(s))
            } else {
                Err(Error::AddrConversion(AddrFamily::Inet6))
            }
        },
    }
}

} // verus!
