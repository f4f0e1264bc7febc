//! UDP endpoints and their wire form.
//!
//! An endpoint travels as a family tag, the address bytes and the port:
//!
//! | family | tag (4 bytes)  | address  | port (little endian) | total |
//! |--------|----------------|----------|----------------------|-------|
//! | IPv4   | `00 00 00 00`  | 4 bytes  | 2 bytes              | 10    |
//! | IPv6   | `01 00 00 00`  | 16 bytes | 2 bytes              | 22    |
//!
//! [`endpoint_wire`] is that table as a spec function, [`parse_endpoint`] its
//! inverse. [`encode_endpoint`] and [`decode_endpoint`] compute the two.

use vstd::prelude::*;

verus! {

/// An IP address, by family, as its bytes in network order.
#[derive(Clone, Copy, Debug, PartialEq, Eq, Hash)]
pub enum IpAddress {
    V4([u8; 4]),
    V6([u8; 16]),
}

/// One side of a UDP exchange: an address and a port.
#[derive(Clone, Copy, Debug, PartialEq, Eq, Hash)]
pub struct Endpoint {
    pub ip: IpAddress,
    pub port: u16,
}

/// Why bytes were not accepted: they are not the wire form of anything that
/// was expected at that point.
#[derive(Clone, Copy, Debug, PartialEq, Eq, Structural)]
pub enum DecodeError {
    Malformed,
}

/// Length of an encoded IPv4 endpoint.
pub const V4_WIRE_LEN: usize = 10;

/// Length of an encoded IPv6 endpoint.
pub const V6_WIRE_LEN: usize = 22;

/// The four bytes that announce the address family.
pub open spec fn family_tag(ip: IpAddress) -> Seq<u8> {
    match ip {
        IpAddress::V4(_) => seq![0u8, 0u8, 0u8, 0u8],
        IpAddress::V6(_) => seq![1u8, 0u8, 0u8, 0u8],
    }
}

/// The address bytes, 4 or 16 of them.
pub open spec fn address_bytes(ip: IpAddress) -> Seq<u8> {
    match ip {
        IpAddress::V4(octets) => octets@,
        IpAddress::V6(octets) => octets@,
    }
}

/// A port as two bytes, low byte first.
pub open spec fn port_wire(port: u16) -> Seq<u8> {
    seq![(port % 256) as u8, (port / 256) as u8]
}

/// The wire form of an endpoint: tag, address, port.
pub open spec fn endpoint_wire(e: Endpoint) -> Seq<u8> {
    family_tag(e.ip) + address_bytes(e.ip) + port_wire(e.port)
}

/// The endpoint that `bytes` is the wire form of, if there is one. Every byte
/// counts: a prefix or an extension of a wire form is not a wire form.
pub open spec fn parse_endpoint(bytes: Seq<u8>) -> Option<Endpoint> {
    if exists|e: Endpoint| bytes == endpoint_wire(e) {
        Some(choose|e: Endpoint| bytes == endpoint_wire(e))
    } else {
        None
    }
}

/// A wire form is 10 bytes long for IPv4 and 22 for IPv6, and starts with the
/// tag of its family.
pub proof fn lemma_wire_shape(e: Endpoint)
    ensures
        e.ip is V4 ==> endpoint_wire(e).len() == V4_WIRE_LEN,
        e.ip is V6 ==> endpoint_wire(e).len() == V6_WIRE_LEN,
        endpoint_wire(e).subrange(0, 4) == family_tag(e.ip),
        endpoint_wire(e)[0] == (if e.ip is V4 { 0u8 } else { 1u8 }),
{
}

/// Two endpoints with the same wire form are the same endpoint.
pub proof fn lemma_wire_injective(a: Endpoint, b: Endpoint)
    requires
        endpoint_wire(a) == endpoint_wire(b),
    ensures
        a == b,
{
    let wa = endpoint_wire(a);
    let wb = endpoint_wire(b);
    lemma_wire_shape(a);
    lemma_wire_shape(b);
    match (a.ip, b.ip) {
        (IpAddress::V4(x), IpAddress::V4(y)) => {
            assert forall|i: int| 0 <= i < 4 implies x[i] == y[i] by {
                assert(wa[4 + i] == x@[i]);
                assert(wb[4 + i] == y@[i]);
            }
            assert(x =~= y);
            assert(wa[8] == (a.port % 256) as u8 && wa[9] == (a.port / 256) as u8);
            assert(wb[8] == (b.port % 256) as u8 && wb[9] == (b.port / 256) as u8);
        },
        (IpAddress::V6(x), IpAddress::V6(y)) => {
            assert forall|i: int| 0 <= i < 16 implies x[i] == y[i] by {
                assert(wa[4 + i] == x@[i]);
                assert(wb[4 + i] == y@[i]);
            }
            assert(x =~= y);
            assert(wa[20] == (a.port % 256) as u8 && wa[21] == (a.port / 256) as u8);
            assert(wb[20] == (b.port % 256) as u8 && wb[21] == (b.port / 256) as u8);
        },
        _ => {},
    }
}

/// Round trip: the wire form of an endpoint parses back to that endpoint, for
/// both address families.
pub proof fn lemma_parse_wire(e: Endpoint)
    ensures
        parse_endpoint(endpoint_wire(e)) == Some(e),
{
    let found = choose|x: Endpoint| endpoint_wire(e) == endpoint_wire(x);
    lemma_wire_injective(e, found);
}

/// Whatever parses is the wire form of what it parses to, byte for byte.
pub proof fn lemma_parse_exact(bytes: Seq<u8>)
    ensures
        parse_endpoint(bytes) matches Some(e) ==> endpoint_wire(e) == bytes,
        parse_endpoint(bytes) is None ==> forall|e: Endpoint| #[trigger] endpoint_wire(e) != bytes,
{
}

/// How many bytes the wire form of `e` takes.
pub fn wire_len(e: &Endpoint) -> (len: usize)
    ensures
        len == endpoint_wire(*e).len(),
{
    match e.ip {
        IpAddress::V4(_) => V4_WIRE_LEN,
        IpAddress::V6(_) => V6_WIRE_LEN,
    }
}

/// Writes an endpoint in its wire form.
pub fn encode_endpoint(e: &Endpoint) -> (bytes: Vec<u8>)
    ensures
        bytes@ == endpoint_wire(*e),
        parse_endpoint(bytes@) == Some(*e),
{
    let mut bytes: Vec<u8> = Vec::new();
    match e.ip {
        IpAddress::V4(octets) => {
            bytes.push(0);
            bytes.push(0);
            bytes.push(0);
            bytes.push(0);
            let mut i: usize = 0;
            while i < 4
                invariant
                    i <= 4,
                    bytes@ == family_tag(e.ip) + octets@.subrange(0, i as int),
                decreases 4 - i,
            {
                bytes.push(octets[i]);
                i = i + 1;
            }
        },
        IpAddress::V6(octets) => {
            bytes.push(1);
            bytes.push(0);
            bytes.push(0);
            bytes.push(0);
            let mut i: usize = 0;
            while i < 16
                invariant
                    i <= 16,
                    bytes@ == family_tag(e.ip) + octets@.subrange(0, i as int),
                decreases 16 - i,
            {
                bytes.push(octets[i]);
                i = i + 1;
            }
        },
    }
    bytes.push((e.port % 256) as u8);
    bytes.push((e.port / 256) as u8);
    proof {
        assert(bytes@ =~= endpoint_wire(*e));
        lemma_parse_wire(*e);
    }
    bytes
}

/// Reads an endpoint from its wire form. Fails on everything else, trailing
/// bytes included.
pub fn decode_endpoint(bytes: &[u8]) -> (r: Result<Endpoint, DecodeError>)
    ensures
        parse_endpoint(bytes@) matches Some(e) ==> r == Ok::<Endpoint, DecodeError>(e),
        parse_endpoint(bytes@) is None ==> r == Err::<Endpoint, DecodeError>(DecodeError::Malformed),
{
    let n: usize = bytes.len();
    if n == V4_WIRE_LEN && bytes[0] == 0 && bytes[1] == 0 && bytes[2] == 0 && bytes[3] == 0 {
        let octets: [u8; 4] = [bytes[4], bytes[5], bytes[6], bytes[7]];
        let port: u16 = (bytes[8] as u16) + 256 * (bytes[9] as u16);
        let e = Endpoint { ip: IpAddress::V4(octets), port };
        proof {
            assert(bytes@ =~= endpoint_wire(e));
            lemma_parse_wire(e);
        }
        Ok(e)
    } else if n == V6_WIRE_LEN && bytes[0] == 1 && bytes[1] == 0 && bytes[2] == 0 && bytes[3] == 0 {
        let octets: [u8; 16] = [
            bytes[4],
            bytes[5],
            bytes[6],
            bytes[7],
            bytes[8],
            bytes[9],
            bytes[10],
            bytes[11],
            bytes[12],
            bytes[13],
            bytes[14],
            bytes[15],
            bytes[16],
            bytes[17],
            bytes[18],
            bytes[19],
        ];
        let port: u16 = (bytes[20] as u16) + 256 * (bytes[21] as u16);
        let e = Endpoint { ip: IpAddress::V6(octets), port };
        proof {
            assert(bytes@ =~= endpoint_wire(e));
            lemma_parse_wire(e);
        }
        Ok(e)
    } else {
        proof {
            assert forall|e: Endpoint| #[trigger] endpoint_wire(e) != bytes@ by {
                lemma_wire_shape(e);
            }
        }
        Err(DecodeError::Malformed)
    }
}

} // verus!
