//! The Ethernet codec: a typed frame model with `parse` and `to_hex`.
//!
//! A frame is two MAC addresses, a 2-byte protocol tag, and a payload.
//! The only recognized tag is ARP's EtherType (`0x0806`); any other tag
//! is rejected rather than passed through. The payload bytes after the
//! 14-byte header are handed whole to the ARP codec.

use vstd::prelude::*;
use vstd::string::StringExecFns;
use crate::arp;
use crate::net::{MacAddr, Serializable};
use crate::parser::{be16, mac_at, ParseError, Parser};

verus! {

/// The Ethernet payload protocol tag; only ARP (EtherType `0x0806`) is
/// modeled.
#[derive(Clone, Copy, PartialEq, Eq, Structural, Debug)]
pub enum Protocol {
    ARP,
}

/// The payload of a frame: an ARP packet, or still empty. `Empty` is only
/// the pre-payload state of a frame under construction; a frame must have
/// its payload set before it can be serialized.
#[derive(Clone, Copy, Debug)]
pub enum Data {
    ARP(arp::Packet),
    Empty,
}

/// A typed Ethernet frame: destination and source MAC, protocol tag, and
/// the payload.
#[derive(Clone, Copy, Debug)]
#[verifier::ext_equal]
pub struct Packet {
    pub dest_addr: MacAddr,
    pub src_addr: MacAddr,
    pub protocol: Protocol,
    pub data: Data,
}

/// What parsing a frame yields: the frame, or the first failure. The
/// bytes after the 14-byte header are judged by `spec_parse_arp`.
pub open spec fn spec_parse_ether(b: Seq<u8>) -> Result<Packet, ParseError> {
    if b.len() < 14 {
        Err(ParseError::EndOfFile)
    } else if be16(b, 12) != 0x0806 {
        Err(ParseError::UnsupportedProtocol(be16(b, 12)))
    } else {
        match arp::spec_parse_arp(b.skip(14)) {
            Ok(p) => Ok(
                Packet {
                    dest_addr: mac_at(b, 0),
                    src_addr: mac_at(b, 6),
                    protocol: Protocol::ARP,
                    data: Data::ARP(p),
                },
            ),
            Err(e) => Err(e),
        }
    }
}

impl<'a> Parser<'a> {
    /// Read the 2-byte EtherType; only ARP (`0x0806`) is accepted, and any
    /// other tag fails with `UnsupportedProtocol` carrying the tag.
    pub fn parse_protocol(&mut self) -> (r: Result<Protocol, ParseError>)
        ensures
            final(self).buf() == old(self).buf(),
            final(self).pos() >= old(self).pos(),
            if old(self).pos() + 2 <= old(self).buf().len() {
                {
                    let tag = be16(old(self).buf(), old(self).pos());
                    if tag == 0x0806 {
                        r == Ok::<Protocol, ParseError>(Protocol::ARP) && final(self).pos() == old(
                            self,
                        ).pos() + 2
                    } else {
                        r == Err::<Protocol, ParseError>(ParseError::UnsupportedProtocol(tag))
                    }
                }
            } else {
                r == Err::<Protocol, ParseError>(ParseError::EndOfFile)
            },
    {
        let tag = self.parse_u16()?;
        if tag == 0x0806 {
            Ok(Protocol::ARP)
        } else {
            Err(ParseError::UnsupportedProtocol(tag))
        }
    }

    /// Hand the unread bytes to the payload codec named by `protocol` and
    /// wrap the result; the cursor itself does not move.
    pub fn parse_data(&mut self, protocol: &Protocol) -> (r: Result<Data, ParseError>)
        requires
            old(self).pos() <= old(self).buf().len(),
        ensures
            final(self).buf() == old(self).buf(),
            final(self).pos() == old(self).pos(),
            protocol is ARP ==> match arp::spec_parse_arp(old(self).buf().skip(old(self).pos())) {
                Ok(p) => r == Ok::<Data, ParseError>(Data::ARP(p)),
                Err(e) => r == Err::<Data, ParseError>(e),
            },
    {
        match protocol {
            Protocol::ARP => {
                let bytes = self.rest();
                match arp::Packet::parse(&bytes) {
                    Ok(p) => Ok(Data::ARP(p)),
                    Err(e) => Err(e),
                }
            },
        }
    }
}

impl Packet {
    /// Parse a frame: destination MAC, source MAC, EtherType, then the
    /// payload, exactly as `spec_parse_ether` lays down. Fails on the
    /// first short read or unrecognized tag; never returns a partially
    /// populated frame.
    pub fn parse(packet: &Vec<u8>) -> (r: Result<Packet, ParseError>)
        ensures
            r == spec_parse_ether(packet@),
    {
        let mut parser = Parser::new(packet);
        let dest_mac = parser.parse_mac()?;
        let src_mac = parser.parse_mac()?;
        let protocol = parser.parse_protocol()?;
        let data = parser.parse_data(&protocol)?;
        Ok(Packet { dest_addr: dest_mac, src_addr: src_mac, protocol, data })
    }

    /// A fresh frame addressed to the broadcast MAC, with a zeroed source,
    /// the ARP tag, and no payload yet.
    pub fn new() -> (r: Self)
        ensures
            r == (Packet {
                dest_addr: MacAddr(0xff, 0xff, 0xff, 0xff, 0xff, 0xff),
                src_addr: MacAddr(0, 0, 0, 0, 0, 0),
                protocol: Protocol::ARP,
                data: Data::Empty,
            }),
    {
        Packet {
            dest_addr: MacAddr(0xff, 0xff, 0xff, 0xff, 0xff, 0xff),
            src_addr: MacAddr(0, 0, 0, 0, 0, 0),
            protocol: Protocol::ARP,
            data: Data::Empty,
        }
    }

    /// Replace the payload; every other field keeps its value.
    pub fn set_packet_content(&mut self, data: Data)
        ensures
            *final(self) == (Packet { data, ..*old(self) }),
    {
        self.data = data;
    }

    /// Replace the destination MAC; every other field keeps its value.
    pub fn set_dest_addr(&mut self, mac: MacAddr)
        ensures
            *final(self) == (Packet { dest_addr: mac, ..*old(self) }),
    {
        self.dest_addr = mac;
    }

    /// Replace the source MAC; every other field keeps its value.
    pub fn set_src_addr(&mut self, mac: MacAddr)
        ensures
            *final(self) == (Packet { src_addr: mac, ..*old(self) }),
    {
        self.src_addr = mac;
    }
}

impl Serializable for Protocol {
    open spec fn ready(&self) -> bool {
        true
    }

    open spec fn spec_hex(&self) -> Seq<u8> {
        match *self {
            Protocol::ARP => seq![0x08u8, 0x06u8],
        }
    }

    fn to_hex(&self) -> (r: Vec<u8>) {
        let mut out: Vec<u8> = Vec::new();
        out.push(0x08);
        out.push(0x06);
        proof {
            assert(out@ =~= self.spec_hex());
        }
        out
    }
}

impl Serializable for Packet {
    /// A frame is ready for the wire only once its payload is set:
    /// serializing an `Empty` frame is a caller error, prevented here
    /// rather than silently emitting a payloadless frame.
    open spec fn ready(&self) -> bool {
        self.data is ARP
    }

    open spec fn spec_hex(&self) -> Seq<u8> {
        self.dest_addr.spec_hex() + self.src_addr.spec_hex() + self.protocol.spec_hex() + match (
        self.data) {
            Data::ARP(p) => p.spec_hex(),
            Data::Empty => Seq::<u8>::empty(),
        }
    }

    /// Emit destination MAC, source MAC, protocol tag, then the payload
    /// bytes: always exactly 42 bytes for an ARP payload.
    fn to_hex(&self) -> (r: Vec<u8>) {
        let mut packet: Vec<u8> = Vec::new();
        let mut part = self.dest_addr.to_hex();
        packet.append(&mut part);
        let mut part = self.src_addr.to_hex();
        packet.append(&mut part);
        let mut part = self.protocol.to_hex();
        packet.append(&mut part);
        match &self.data {
            Data::ARP(p) => {
                let mut part = p.to_hex();
                packet.append(&mut part);
            },
            Data::Empty => {},
        }
        proof {
            assert(packet@ =~= self.spec_hex());
        }
        packet
    }
}

impl Protocol {
    /// Display name of the tag.
    pub open spec fn spec_text(&self) -> Seq<char> {
        match *self {
            Protocol::ARP => "ARP"@,
        }
    }

    /// Emit the display name.
    pub fn to_text(&self) -> (r: &'static str)
        ensures
            r@ == self.spec_text(),
    {
        "ARP"
    }
}

impl Packet {
    /// The frame's display: a banner, one labeled line per header field,
    /// then the payload's display or a note that none is set.
    pub open spec fn spec_text(&self) -> Seq<char> {
        "\n===============Ether Packet================\n"@ + "dest mac:    "@
            + self.dest_addr.spec_text() + "\n"@ + "src mac:     "@ + self.src_addr.spec_text()
            + "\n"@ + "protocol:    "@ + self.protocol.spec_text() + "\n"@ + (match self.data {
            Data::ARP(p) => "===============ARP Packet==================\n"@ + p.spec_text(),
            Data::Empty => "no data"@,
        }) + "===========================================\n"@
    }

    /// Emit the display text of the frame and its payload.
    pub fn to_text(&self) -> (r: String)
        ensures
            r@ == self.spec_text(),
    {
        let mut s = String::from_str("\n===============Ether Packet================\n");
        s.append("dest mac:    ");
        s.append(self.dest_addr.to_text().as_str());
        s.append("\n");
        s.append("src mac:     ");
        s.append(self.src_addr.to_text().as_str());
        s.append("\n");
        s.append("protocol:    ");
        s.append(self.protocol.to_text());
        s.append("\n");
        match &self.data {
            Data::ARP(p) => {
                s.append("===============ARP Packet==================\n");
                s.append(p.to_text().as_str());
            },
            Data::Empty => {
                s.append("no data");
            },
        }
        s.append("===========================================\n");
        proof {
            assert(s@ =~= self.spec_text());
        }
        s
    }
}

/// Serializing any frame whose payload is an ARP packet yields exactly
/// 42 bytes: the 14-byte header and the 28-byte payload.
pub proof fn lemma_ether_hex_len(f: Packet)
    requires
        f.data is ARP,
    ensures
        f.spec_hex().len() == 42,
{
    match f.data {
        Data::ARP(p) => {
            arp::lemma_arp_hex_len(p);
        },
        Data::Empty => {},
    }
}

/// Round trip: for every frame with an ARP payload, parsing its
/// serialization gives the frame back, addresses, tags and operation
/// unchanged.
pub proof fn lemma_ether_round_trip(f: Packet)
    requires
        f.data is ARP,
    ensures
        spec_parse_ether(f.spec_hex()) == Ok::<Packet, ParseError>(f),
{
    let b = f.spec_hex();
    match f.data {
        Data::ARP(p) => {
            arp::lemma_arp_hex_len(p);
            assert(b.len() == 42);
            assert(b.skip(14) =~= p.spec_hex());
            arp::lemma_arp_round_trip(p);
            assert(be16(b, 12) == 0x0806);
            assert(mac_at(b, 0) =~= f.dest_addr);
            assert(mac_at(b, 6) =~= f.src_addr);
            assert(spec_parse_ether(b)->Ok_0 =~= f);
        },
        Data::Empty => {},
    }
}

/// A buffer of 14 or more bytes whose EtherType is not ARP's (`0x0806`)
/// fails with `UnsupportedProtocol` carrying the tag: no packet comes
/// back.
pub proof fn lemma_unsupported_protocol(b: Seq<u8>)
    requires
        b.len() >= 14,
        be16(b, 12) != 0x0806,
    ensures
        spec_parse_ether(b) == Err::<Packet, ParseError>(ParseError::UnsupportedProtocol(
            be16(b, 12),
        )),
{
}

} // verus!

