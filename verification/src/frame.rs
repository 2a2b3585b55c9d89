//! Link-layer frame formats: parsing of Ethernet, IPv4, UDP and ARP headers
//! from raw bytes, and construction of the gratuitous ARP announcement the
//! owner broadcasts while it holds the shared address.

use vstd::prelude::*;
use vstd::slice::slice_subrange;
use vstd::slice::slice_to_vec;

verus! {

pub const ETHERTYPE_IPV4: u16 = 0x0800;

pub const ETHERTYPE_ARP: u16 = 0x0806;

pub const IP_PROTO_UDP: u8 = 17;

pub const ARP_OP_REQUEST: u16 = 1;

pub const ARP_OP_REPLY: u16 = 2;

/// The big-endian 16-bit value at offset `i` of `b`.
pub open spec fn be16(b: Seq<u8>, i: int) -> int
    recommends
        0 <= i,
        i + 2 <= b.len(),
{
    b[i] * 256 + b[i + 1]
}

/// Reads the big-endian 16-bit value at offset `i`.
fn read_be16(b: &[u8], i: usize) -> (r: u16)
    requires
        i + 2 <= b@.len(),
    ensures
        r == be16(b@, i as int),
{
    (b[i] as u16) * 256 + (b[i + 1] as u16)
}

/// An Ethernet frame split into its header fields and payload.
pub struct EthernetFrame {
    pub destination: Vec<u8>,
    pub source: Vec<u8>,
    pub ethertype: u16,
    pub payload: Vec<u8>,
}

impl EthernetFrame {
    /// The fields are exactly those of the 14-byte Ethernet header of `b`,
    /// and the payload is everything after it.
    pub open spec fn parses_from(self, b: Seq<u8>) -> bool {
        &&& b.len() >= 14
        &&& self.destination@ == b.subrange(0, 6)
        &&& self.source@ == b.subrange(6, 12)
        &&& self.ethertype == be16(b, 12)
        &&& self.payload@ == b.skip(14)
    }
}

/// Parses the 14-byte Ethernet header; fails exactly on a short buffer.
pub fn parse_ethernet(b: &[u8]) -> (r: Option<EthernetFrame>)
    ensures
        match r {
            Some(f) => f.parses_from(b@),
            None => b@.len() < 14,
        },
{
    if b.len() < 14 {
        return None;
    }
    let destination = slice_to_vec(slice_subrange(b, 0, 6));
    let source = slice_to_vec(slice_subrange(b, 6, 12));
    let ethertype = read_be16(b, 12);
    let payload = slice_to_vec(slice_subrange(b, 14, b.len()));
    proof {
        assert(payload@ =~= b@.skip(14));
    }
    Some(EthernetFrame { destination, source, ethertype, payload })
}

/// An IPv4 packet split into the fields the observer reads and its payload.
pub struct Ipv4Datagram {
    pub protocol: u8,
    pub source: Vec<u8>,
    pub destination: Vec<u8>,
    pub payload: Vec<u8>,
}

/// The header length in bytes that the low nibble of the first byte declares.
pub open spec fn ipv4_header_len(b: Seq<u8>) -> int
    recommends
        b.len() >= 1,
{
    (b[0] % 16) * 4
}

/// A buffer holds a well-formed IPv4 header when it is at least 20 bytes
/// long, declares a header of at least the minimum length, and is long
/// enough to contain the header it declares.
pub open spec fn ipv4_well_formed(b: Seq<u8>) -> bool {
    &&& b.len() >= 20
    &&& b[0] % 16 >= 5
    &&& b.len() >= ipv4_header_len(b)
}

impl Ipv4Datagram {
    /// The fields are exactly those of the IPv4 header of `b`, and the
    /// payload is everything after the declared header length.
    pub open spec fn parses_from(self, b: Seq<u8>) -> bool {
        &&& ipv4_well_formed(b)
        &&& self.protocol == b[9]
        &&& self.source@ == b.subrange(12, 16)
        &&& self.destination@ == b.subrange(16, 20)
        &&& self.payload@ == b.skip(ipv4_header_len(b))
    }
}

/// Parses an IPv4 header; fails exactly on a buffer that is too short or
/// declares an impossible header length.
pub fn parse_ipv4(b: &[u8]) -> (r: Option<Ipv4Datagram>)
    ensures
        match r {
            Some(d) => d.parses_from(b@),
            None => !ipv4_well_formed(b@),
        },
{
    if b.len() < 20 {
        return None;
    }
    let ihl = b[0] % 16;
    let header_len: usize = (ihl as usize) * 4;
    if ihl < 5 || b.len() < header_len {
        return None;
    }
    let protocol = b[9];
    let source = slice_to_vec(slice_subrange(b, 12, 16));
    let destination = slice_to_vec(slice_subrange(b, 16, 20));
    let payload = slice_to_vec(slice_subrange(b, header_len, b.len()));
    proof {
        assert(payload@ =~= b@.skip(ipv4_header_len(b@)));
    }
    Some(Ipv4Datagram { protocol, source, destination, payload })
}

/// A UDP datagram split into its ports and payload.
pub struct UdpDatagram {
    pub source_port: u16,
    pub destination_port: u16,
    pub payload: Vec<u8>,
}

impl UdpDatagram {
    /// The ports are those of the 8-byte UDP header of `b`, and the payload
    /// is everything after it.
    pub open spec fn parses_from(self, b: Seq<u8>) -> bool {
        &&& b.len() >= 8
        &&& self.source_port == be16(b, 0)
        &&& self.destination_port == be16(b, 2)
        &&& self.payload@ == b.skip(8)
    }
}

/// Parses the 8-byte UDP header; fails exactly on a short buffer.
pub fn parse_udp(b: &[u8]) -> (r: Option<UdpDatagram>)
    ensures
        match r {
            Some(d) => d.parses_from(b@),
            None => b@.len() < 8,
        },
{
    if b.len() < 8 {
        return None;
    }
    let source_port = read_be16(b, 0);
    let destination_port = read_be16(b, 2);
    let payload = slice_to_vec(slice_subrange(b, 8, b.len()));
    proof {
        assert(payload@ =~= b@.skip(8));
    }
    Some(UdpDatagram { source_port, destination_port, payload })
}

/// An ARP packet for IPv4 over Ethernet, split into its fields.
pub struct ArpMessage {
    pub operation: u16,
    pub sender_hardware: Vec<u8>,
    pub sender_protocol: Vec<u8>,
    pub target_hardware: Vec<u8>,
    pub target_protocol: Vec<u8>,
}

impl ArpMessage {
    /// The fields are exactly those of the 28-byte ARP packet at the start
    /// of `b`.
    pub open spec fn parses_from(self, b: Seq<u8>) -> bool {
        &&& b.len() >= 28
        &&& self.operation == be16(b, 6)
        &&& self.sender_hardware@ == b.subrange(8, 14)
        &&& self.sender_protocol@ == b.subrange(14, 18)
        &&& self.target_hardware@ == b.subrange(18, 24)
        &&& self.target_protocol@ == b.subrange(24, 28)
    }
}

/// Parses a 28-byte ARP packet; fails exactly on a short buffer.
pub fn parse_arp(b: &[u8]) -> (r: Option<ArpMessage>)
    ensures
        match r {
            Some(m) => m.parses_from(b@),
            None => b@.len() < 28,
        },
{
    if b.len() < 28 {
        return None;
    }
    let operation = read_be16(b, 6);
    let sender_hardware = slice_to_vec(slice_subrange(b, 8, 14));
    let sender_protocol = slice_to_vec(slice_subrange(b, 14, 18));
    let target_hardware = slice_to_vec(slice_subrange(b, 18, 24));
    let target_protocol = slice_to_vec(slice_subrange(b, 24, 28));
    Some(ArpMessage { operation, sender_hardware, sender_protocol, target_hardware, target_protocol })
}

/// The broadcast hardware address.
pub open spec fn broadcast_mac() -> Seq<u8> {
    seq![0xffu8, 0xffu8, 0xffu8, 0xffu8, 0xffu8, 0xffu8]
}

/// The 28-byte gratuitous ARP reply announcing that `mac` holds `ip`:
/// hardware type Ethernet, protocol type IPv4, operation reply, sender
/// `mac`/`ip`, target hardware broadcast, target protocol `ip` again.
pub open spec fn announcement_arp(mac: Seq<u8>, ip: Seq<u8>) -> Seq<u8>
    recommends
        mac.len() == 6,
        ip.len() == 4,
{
    seq![0u8, 1u8, 8u8, 0u8, 6u8, 4u8, 0u8, 2u8] + mac + ip + broadcast_mac() + ip
}

/// The 42-byte broadcast Ethernet frame that carries the announcement.
pub open spec fn announcement_frame(mac: Seq<u8>, ip: Seq<u8>) -> Seq<u8>
    recommends
        mac.len() == 6,
        ip.len() == 4,
{
    broadcast_mac() + mac + seq![8u8, 6u8] + announcement_arp(mac, ip)
}

/// Appends every byte of `src` to `dst`.
fn push_all(dst: &mut Vec<u8>, src: &[u8])
    ensures
        final(dst)@ == old(dst)@ + src@,
{
    let mut i: usize = 0;
    while i < src.len()
        invariant
            i <= src@.len(),
            dst@ == old(dst)@ + src@.take(i as int),
        decreases src@.len() - i,
    {
        dst.push(src[i]);
        i = i + 1;
        proof {
            assert(dst@ =~= old(dst)@ + src@.take(i as int));
        }
    }
    proof {
        assert(dst@ =~= old(dst)@ + src@);
    }
}

/// Builds the gratuitous ARP announcement for `mac` and `ip`: a broadcast
/// Ethernet frame with ethertype ARP whose payload is an ARP reply naming
/// `mac` as the holder of `ip`, targeted at the broadcast hardware address.
pub fn build_announcement(mac: &[u8; 6], ip: &[u8; 4]) -> (r: Vec<u8>)
    ensures
        r@ == announcement_frame(mac@, ip@),
        r@.len() == 42,
        be16(r@, 12) == ETHERTYPE_ARP,
        r@.subrange(0, 6) == broadcast_mac(),
        r@.subrange(6, 12) == mac@,
        be16(r@.skip(14), 6) == ARP_OP_REPLY,
        r@.skip(14).subrange(8, 14) == mac@,
        r@.skip(14).subrange(14, 18) == ip@,
        r@.skip(14).subrange(18, 24) == broadcast_mac(),
        r@.skip(14).subrange(24, 28) == ip@,
{
    let mut r: Vec<u8> = Vec::new();
    // Ethernet header: broadcast destination, our source, ethertype ARP.
    let bcast: [u8; 6] = [0xff, 0xff, 0xff, 0xff, 0xff, 0xff];
    push_all(&mut r, bcast.as_slice());
    push_all(&mut r, mac.as_slice());
    r.push(0x08);
    r.push(0x06);
    // ARP: Ethernet/IPv4, address lengths 6 and 4, operation reply.
    r.push(0x00);
    r.push(0x01);
    r.push(0x08);
    r.push(0x00);
    r.push(6);
    r.push(4);
    r.push(0x00);
    r.push(0x02);
    push_all(&mut r, mac.as_slice());
    push_all(&mut r, ip.as_slice());
    push_all(&mut r, bcast.as_slice());
    push_all(&mut r, ip.as_slice());
    proof {
        assert(bcast@ =~= broadcast_mac());
        assert(r@ =~= announcement_frame(mac@, ip@));
        assert(r@.subrange(0, 6) =~= broadcast_mac());
        assert(r@.subrange(6, 12) =~= mac@);
        assert(r@.skip(14).subrange(8, 14) =~= mac@);
        assert(r@.skip(14).subrange(14, 18) =~= ip@);
        assert(r@.skip(14).subrange(18, 24) =~= broadcast_mac());
        assert(r@.skip(14).subrange(24, 28) =~= ip@);
    }
    r
}

} // verus!
