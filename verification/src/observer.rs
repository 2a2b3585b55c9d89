//! The link observer: classifies an inbound frame against the configured
//! probe port and the current ownership flag, producing either a diagnostic
//! record or a parse error for the log.

use vstd::prelude::*;
use crate::frame::ETHERTYPE_ARP;
use crate::frame::ETHERTYPE_IPV4;
use crate::frame::IP_PROTO_UDP;
use crate::frame::ArpMessage;
use crate::frame::EthernetFrame;
use crate::frame::Ipv4Datagram;
use crate::frame::UdpDatagram;
use crate::frame::be16;
use crate::frame::ipv4_header_len;
use crate::frame::ipv4_well_formed;
use crate::frame::parse_arp;
use crate::frame::parse_ethernet;
use crate::frame::parse_ipv4;
use crate::frame::parse_udp;

verus! {

/// What the observer saw in one inbound frame.
#[derive(Debug, PartialEq, Eq)]
pub enum Observation {
    /// The frame is none of the observer's business.
    Irrelevant,
    /// A UDP datagram addressed to the probe port, tagged with whether it is
    /// consistent with the local ownership flag.
    Probe { source: Vec<u8>, destination: Vec<u8>, consistent: bool },
    /// An ARP packet, reported only when ARP printing is enabled.
    Arp {
        operation: u16,
        sender_hardware: Vec<u8>,
        sender_protocol: Vec<u8>,
        target_hardware: Vec<u8>,
        target_protocol: Vec<u8>,
    },
}

/// The layer at which an inbound frame failed to parse.
#[derive(Debug, PartialEq, Eq)]
pub enum ParseError {
    Ethernet,
    Ipv4,
    Udp,
    Arp,
}

/// The bytes after the Ethernet header.
pub open spec fn ip_part(b: Seq<u8>) -> Seq<u8> {
    b.skip(14)
}

/// The bytes after the IPv4 header inside the Ethernet payload.
pub open spec fn udp_part(b: Seq<u8>) -> Seq<u8> {
    ip_part(b).skip(ipv4_header_len(ip_part(b)))
}

/// Classifies one inbound frame. IPv4/UDP traffic to `ping_port` becomes a
/// probe record whose tag is `consistent` exactly when the ownership flag
/// `holding` is set; ARP traffic is reported when `print_arp` is set; a frame
/// that fails to parse at some layer reports that layer; everything else is
/// irrelevant.
pub fn classify_frame(b: &[u8], ping_port: u16, print_arp: bool, holding: bool) -> (r: Result<
    Observation,
    ParseError,
>)
    ensures
        b@.len() < 14 ==> r == Result::<Observation, ParseError>::Err(ParseError::Ethernet),
        b@.len() >= 14 && be16(b@, 12) == ETHERTYPE_IPV4 ==> {
            let p = ip_part(b@);
            let u = udp_part(b@);
            &&& !ipv4_well_formed(p) ==> r == Result::<Observation, ParseError>::Err(
                ParseError::Ipv4,
            )
            &&& ipv4_well_formed(p) && p[9] != IP_PROTO_UDP ==> r == Result::<
                Observation,
                ParseError,
            >::Ok(Observation::Irrelevant)
            &&& ipv4_well_formed(p) && p[9] == IP_PROTO_UDP && u.len() < 8 ==> r == Result::<
                Observation,
                ParseError,
            >::Err(ParseError::Udp)
            &&& ipv4_well_formed(p) && p[9] == IP_PROTO_UDP && u.len() >= 8 && be16(u, 2)
                != ping_port ==> r == Result::<Observation, ParseError>::Ok(
                Observation::Irrelevant,
            )
            &&& ipv4_well_formed(p) && p[9] == IP_PROTO_UDP && u.len() >= 8 && be16(u, 2)
                == ping_port ==> (r matches Ok(Observation::Probe { source, destination, consistent })
                && source@ == p.subrange(12, 16) && destination@ == p.subrange(16, 20)
                && consistent == holding)
        },
        b@.len() >= 14 && be16(b@, 12) == ETHERTYPE_ARP && print_arp ==> {
            let p = ip_part(b@);
            &&& p.len() < 28 ==> r == Result::<Observation, ParseError>::Err(ParseError::Arp)
            &&& p.len() >= 28 ==> (r matches Ok(Observation::Arp {
                operation,
                sender_hardware,
                sender_protocol,
                target_hardware,
                target_protocol,
            }) && operation == be16(p, 6) && sender_hardware@ == p.subrange(8, 14)
                && sender_protocol@ == p.subrange(14, 18) && target_hardware@ == p.subrange(18, 24)
                && target_protocol@ == p.subrange(24, 28))
        },
        b@.len() >= 14 && be16(b@, 12) != ETHERTYPE_IPV4 && !(be16(b@, 12) == ETHERTYPE_ARP
            && print_arp) ==> r == Result::<Observation, ParseError>::Ok(Observation::Irrelevant),
{
    let eth: EthernetFrame = match parse_ethernet(b) {
        Some(f) => f,
        None => {
            return Err(ParseError::Ethernet);
        },
    };
    if eth.ethertype == ETHERTYPE_IPV4 {
        let ip: Ipv4Datagram = match parse_ipv4(eth.payload.as_slice()) {
            Some(d) => d,
            None => {
                return Err(ParseError::Ipv4);
            },
        };
        if ip.protocol == IP_PROTO_UDP {
            let udp: UdpDatagram = match parse_udp(ip.payload.as_slice()) {
                Some(d) => d,
                None => {
                    return Err(ParseError::Udp);
                },
            };
            if udp.destination_port == ping_port {
                Ok(
                    Observation::Probe {
                        source: ip.source,
                        destination: ip.destination,
                        consistent: holding,
                    },
                )
            } else {
                Ok(Observation::Irrelevant)
            }
        } else {
            Ok(Observation::Irrelevant)
        }
    } else if print_arp && eth.ethertype == ETHERTYPE_ARP {
        let arp: ArpMessage = match parse_arp(eth.payload.as_slice()) {
            Some(m) => m,
            None => {
                return Err(ParseError::Arp);
            },
        };
        Ok(
            Observation::Arp {
                operation: arp.operation,
                sender_hardware: arp.sender_hardware,
                sender_protocol: arp.sender_protocol,
                target_hardware: arp.target_hardware,
                target_protocol: arp.target_protocol,
            },
        )
    } else {
        Ok(Observation::Irrelevant)
    }
}

} // verus!
