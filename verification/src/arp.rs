//! The ARP codec: a typed packet model with `parse` and `to_hex`.
//!
//! An ARP payload is 28 bytes: hardware type, protocol type, the two
//! address sizes, the operation, and the four addresses, in that order.
//! `parse` fails on the first short read or unsupported tag and never
//! returns a partially populated packet; `to_hex` is total.

use vstd::prelude::*;
use vstd::string::StringExecFns;
use crate::net::{IpAddr, MacAddr, Serializable};
use crate::parser::{be16, ip_at, mac_at, ParseError, Parser};
use crate::text::{dec_u8, spec_dec_u8};

verus! {

/// The ARP hardware-type tag; only Ethernet (wire value `0x0001`) is
/// modeled today, as a closed variant so new link layers extend the enum.
#[derive(Clone, Copy, PartialEq, Eq, Structural, Debug)]
pub enum HardwareType {
    Ether,
}

/// The ARP protocol-type tag; only IPv4 (wire value `0x0800`) is modeled.
#[derive(Clone, Copy, PartialEq, Eq, Structural, Debug)]
pub enum ProtocolType {
    IPV4,
}

/// The ARP operation: request (wire value 1) or reply (wire value 2).
#[derive(Clone, Copy, PartialEq, Eq, Structural, Debug)]
pub enum Operation {
    Request,
    Reply,
}

/// A typed ARP packet: the nine wire fields in wire order. The address
/// sizes are carried as explicit fields to mirror the wire format exactly.
#[derive(Clone, Copy, Debug)]
#[verifier::ext_equal]
pub struct Packet {
    pub hardware_type: HardwareType,
    pub protocol_type: ProtocolType,
    pub hardware_size: u8,
    pub protocol_size: u8,
    pub op: Operation,
    pub sender_mac: MacAddr,
    pub sender_ip: IpAddr,
    pub target_mac: MacAddr,
    pub target_ip: IpAddr,
}

/// The packet denoted by a buffer on which every check of `spec_parse_arp`
/// passes.
pub open spec fn arp_of(b: Seq<u8>) -> Packet
    recommends
        b.len() >= 28,
{
    Packet {
        hardware_type: HardwareType::Ether,
        protocol_type: ProtocolType::IPV4,
        hardware_size: b[4],
        protocol_size: b[5],
        op: if be16(b, 6) == 1 {
            Operation::Request
        } else {
            Operation::Reply
        },
        sender_mac: mac_at(b, 8),
        sender_ip: ip_at(b, 14),
        target_mac: mac_at(b, 18),
        target_ip: ip_at(b, 24),
    }
}

/// What parsing an ARP payload yields: the packet, or the first failure
/// in field order.
pub open spec fn spec_parse_arp(b: Seq<u8>) -> Result<Packet, ParseError> {
    if b.len() < 2 {
        Err(ParseError::EndOfFile)
    } else if be16(b, 0) != 0x0001 {
        Err(ParseError::UnsupportedHardwareType)
    } else if b.len() < 4 {
        Err(ParseError::EndOfFile)
    } else if be16(b, 2) != 0x0800 {
        Err(ParseError::UnsupportedProtocolType)
    } else if b.len() < 8 {
        Err(ParseError::EndOfFile)
    } else if be16(b, 6) != 1 && be16(b, 6) != 2 {
        Err(ParseError::UnrecognizedOperation(be16(b, 6)))
    } else if b.len() < 28 {
        Err(ParseError::EndOfFile)
    } else {
        Ok(arp_of(b))
    }
}

impl<'a> Parser<'a> {
    /// Read the 2-byte hardware type; only Ethernet (`0x0001`) is accepted.
    pub fn parse_hardware_type(&mut self) -> (r: Result<HardwareType, ParseError>)
        ensures
            final(self).buf() == old(self).buf(),
            final(self).pos() >= old(self).pos(),
            if old(self).pos() + 2 <= old(self).buf().len() {
                if be16(old(self).buf(), old(self).pos()) == 0x0001 {
                    r == Ok::<HardwareType, ParseError>(HardwareType::Ether) && final(self).pos()
                        == old(self).pos() + 2
                } else {
                    r == Err::<HardwareType, ParseError>(ParseError::UnsupportedHardwareType)
                }
            } else {
                r == Err::<HardwareType, ParseError>(ParseError::EndOfFile)
            },
    {
        let v = self.parse_u16()?;
        if v == 0x0001 {
            Ok(HardwareType::Ether)
        } else {
            Err(ParseError::UnsupportedHardwareType)
        }
    }

    /// Read the 2-byte protocol type; only IPv4 (`0x0800`) is accepted.
    pub fn parse_protocol_type(&mut self) -> (r: Result<ProtocolType, ParseError>)
        ensures
            final(self).buf() == old(self).buf(),
            final(self).pos() >= old(self).pos(),
            if old(self).pos() + 2 <= old(self).buf().len() {
                if be16(old(self).buf(), old(self).pos()) == 0x0800 {
                    r == Ok::<ProtocolType, ParseError>(ProtocolType::IPV4) && final(self).pos()
                        == old(self).pos() + 2
                } else {
                    r == Err::<ProtocolType, ParseError>(ParseError::UnsupportedProtocolType)
                }
            } else {
                r == Err::<ProtocolType, ParseError>(ParseError::EndOfFile)
            },
    {
        let v = self.parse_u16()?;
        if v == 0x0800 {
            Ok(ProtocolType::IPV4)
        } else {
            Err(ParseError::UnsupportedProtocolType)
        }
    }

    /// Read the 2-byte operation code: 1 is a request, 2 a reply, and any
    /// other value fails with `UnrecognizedOperation`.
    pub fn parse_operation(&mut self) -> (r: Result<Operation, ParseError>)
        ensures
            final(self).buf() == old(self).buf(),
            final(self).pos() >= old(self).pos(),
            if old(self).pos() + 2 <= old(self).buf().len() {
                {
                    let code = be16(old(self).buf(), old(self).pos());
                    if code == 1 {
                        r == Ok::<Operation, ParseError>(Operation::Request) && final(self).pos()
                            == old(self).pos() + 2
                    } else if code == 2 {
                        r == Ok::<Operation, ParseError>(Operation::Reply) && final(self).pos()
                            == old(self).pos() + 2
                    } else {
                        r == Err::<Operation, ParseError>(ParseError::UnrecognizedOperation(code))
                    }
                }
            } else {
                r == Err::<Operation, ParseError>(ParseError::EndOfFile)
            },
    {
        let op_code = self.parse_u16()?;
        if op_code == 1 {
            Ok(Operation::Request)
        } else if op_code == 2 {
            Ok(Operation::Reply)
        } else {
            Err(ParseError::UnrecognizedOperation(op_code))
        }
    }
}

impl Packet {
    /// Parse an ARP payload: reads the nine fields in wire order, failing
    /// on the first short read or unsupported value, exactly as
    /// `spec_parse_arp` lays down.
    pub fn parse(packet: &Vec<u8>) -> (r: Result<Packet, ParseError>)
        ensures
            r == spec_parse_arp(packet@),
    {
        let mut parser = Parser::new(packet);
        let hardware_type = parser.parse_hardware_type()?;
        let protocol_type = parser.parse_protocol_type()?;
        let hardware_size = parser.parse_u8()?;
        let protocol_size = parser.parse_u8()?;
        let op = parser.parse_operation()?;
        let sender_mac = parser.parse_mac()?;
        let sender_ip = parser.parse_ip_v4()?;
        let target_mac = parser.parse_mac()?;
        let target_ip = parser.parse_ip_v4()?;
        Ok(
            Packet {
                hardware_type,
                protocol_type,
                hardware_size,
                protocol_size,
                op,
                sender_mac,
                sender_ip,
                target_mac,
                target_ip,
            },
        )
    }

    /// A fresh request packet with the supported type tags, the matching
    /// address sizes, and zeroed addresses, ready for the field setters.
    pub fn new() -> (r: Self)
        ensures
            r == (Packet {
                hardware_type: HardwareType::Ether,
                protocol_type: ProtocolType::IPV4,
                hardware_size: 6,
                protocol_size: 4,
                op: Operation::Request,
                sender_mac: MacAddr(0, 0, 0, 0, 0, 0),
                sender_ip: IpAddr(0, 0, 0, 0),
                target_mac: MacAddr(0, 0, 0, 0, 0, 0),
                target_ip: IpAddr(0, 0, 0, 0),
            }),
    {
        Packet {
            hardware_type: HardwareType::Ether,
            protocol_type: ProtocolType::IPV4,
            hardware_size: 6,
            protocol_size: 4,
            op: Operation::Request,
            sender_mac: MacAddr(0, 0, 0, 0, 0, 0),
            sender_ip: IpAddr(0, 0, 0, 0),
            target_mac: MacAddr(0, 0, 0, 0, 0, 0),
            target_ip: IpAddr(0, 0, 0, 0),
        }
    }

    /// Replace the operation; every other field keeps its value.
    pub fn set_operation(&mut self, op: Operation)
        ensures
            *final(self) == (Packet { op, ..*old(self) }),
    {
        self.op = op;
    }

    /// Replace the sender MAC; every other field keeps its value.
    pub fn set_sender_mac(&mut self, mac: MacAddr)
        ensures
            *final(self) == (Packet { sender_mac: mac, ..*old(self) }),
    {
        self.sender_mac = mac;
    }

    /// Replace the sender IP; every other field keeps its value.
    pub fn set_sender_ip(&mut self, ip: IpAddr)
        ensures
            *final(self) == (Packet { sender_ip: ip, ..*old(self) }),
    {
        self.sender_ip = ip;
    }

    /// Replace the target MAC; every other field keeps its value.
    pub fn set_target_mac(&mut self, mac: MacAddr)
        ensures
            *final(self) == (Packet { target_mac: mac, ..*old(self) }),
    {
        self.target_mac = mac;
    }

    /// Replace the target IP; every other field keeps its value.
    pub fn set_target_ip(&mut self, ip: IpAddr)
        ensures
            *final(self) == (Packet { target_ip: ip, ..*old(self) }),
    {
        self.target_ip = ip;
    }
}

impl Serializable for HardwareType {
    open spec fn ready(&self) -> bool {
        true
    }

    open spec fn spec_hex(&self) -> Seq<u8> {
        match *self {
            HardwareType::Ether => seq![0x00u8, 0x01u8],
        }
    }

    fn to_hex(&self) -> (r: Vec<u8>) {
        let mut out: Vec<u8> = Vec::new();
        out.push(0x00);
        out.push(0x01);
        proof {
            assert(out@ =~= self.spec_hex());
        }
        out
    }
}

impl Serializable for ProtocolType {
    open spec fn ready(&self) -> bool {
        true
    }

    open spec fn spec_hex(&self) -> Seq<u8> {
        match *self {
            ProtocolType::IPV4 => seq![0x08u8, 0x00u8],
        }
    }

    fn to_hex(&self) -> (r: Vec<u8>) {
        let mut out: Vec<u8> = Vec::new();
        out.push(0x08);
        out.push(0x00);
        proof {
            assert(out@ =~= self.spec_hex());
        }
        out
    }
}

impl Serializable for Operation {
    open spec fn ready(&self) -> bool {
        true
    }

    open spec fn spec_hex(&self) -> Seq<u8> {
        match *self {
            Operation::Request => seq![0x00u8, 0x01u8],
            Operation::Reply => seq![0x00u8, 0x02u8],
        }
    }

    fn to_hex(&self) -> (r: Vec<u8>) {
        let mut out: Vec<u8> = Vec::new();
        match *self {
            Operation::Request => {
                out.push(0x00);
                out.push(0x01);
            },
            Operation::Reply => {
                out.push(0x00);
                out.push(0x02);
            },
        }
        proof {
            assert(out@ =~= self.spec_hex());
        }
        out
    }
}

impl Serializable for Packet {
    open spec fn ready(&self) -> bool {
        true
    }

    open spec fn spec_hex(&self) -> Seq<u8> {
        self.hardware_type.spec_hex() + self.protocol_type.spec_hex() + seq![
            self.hardware_size,
            self.protocol_size,
        ] + self.op.spec_hex() + self.sender_mac.spec_hex() + self.sender_ip.spec_hex()
            + self.target_mac.spec_hex() + self.target_ip.spec_hex()
    }

    /// Emit the nine fields in wire order: always exactly 28 bytes.
    fn to_hex(&self) -> (r: Vec<u8>) {
        let mut packet: Vec<u8> = Vec::new();
        let mut part = self.hardware_type.to_hex();
        packet.append(&mut part);
        let mut part = self.protocol_type.to_hex();
        packet.append(&mut part);
        packet.push(self.hardware_size);
        packet.push(self.protocol_size);
        let mut part = self.op.to_hex();
        packet.append(&mut part);
        let mut part = self.sender_mac.to_hex();
        packet.append(&mut part);
        let mut part = self.sender_ip.to_hex();
        packet.append(&mut part);
        let mut part = self.target_mac.to_hex();
        packet.append(&mut part);
        let mut part = self.target_ip.to_hex();
        packet.append(&mut part);
        proof {
            assert(packet@ =~= self.spec_hex());
        }
        packet
    }
}

impl HardwareType {
    /// Display name of the tag.
    pub open spec fn spec_text(&self) -> Seq<char> {
        match *self {
            HardwareType::Ether => "ether"@,
        }
    }

    /// Emit the display name.
    pub fn to_text(&self) -> (r: &'static str)
        ensures
            r@ == self.spec_text(),
    {
        "ether"
    }
}

impl ProtocolType {
    /// Display name of the tag.
    pub open spec fn spec_text(&self) -> Seq<char> {
        match *self {
            ProtocolType::IPV4 => "ipv4"@,
        }
    }

    /// Emit the display name.
    pub fn to_text(&self) -> (r: &'static str)
        ensures
            r@ == self.spec_text(),
    {
        "ipv4"
    }
}

impl Operation {
    /// Display name of the operation.
    pub open spec fn spec_text(&self) -> Seq<char> {
        match *self {
            Operation::Request => "Request"@,
            Operation::Reply => "Reply"@,
        }
    }

    /// Emit the display name.
    pub fn to_text(&self) -> (r: &'static str)
        ensures
            r@ == self.spec_text(),
    {
        match *self {
            Operation::Request => "Request",
            Operation::Reply => "Reply",
        }
    }
}

impl Packet {
    /// The packet's display: one labeled line per field.
    pub open spec fn spec_text(&self) -> Seq<char> {
        "hardware type:   "@ + self.hardware_type.spec_text() + "\n"@ + "protocol type:   "@
            + self.protocol_type.spec_text() + "\n"@ + "hardware size:   "@ + spec_dec_u8(
            self.hardware_size,
        ) + "\n"@ + "protocol_size:   "@ + spec_dec_u8(self.protocol_size) + "\n"@
            + "operation:       "@ + self.op.spec_text() + "\n"@ + "sender mac:      "@
            + self.sender_mac.spec_text() + "\n"@ + "sender ip:       "@
            + self.sender_ip.spec_text() + "\n"@ + "target mac:      "@
            + self.target_mac.spec_text() + "\n"@ + "target ip:       "@
            + self.target_ip.spec_text() + "\n"@
    }

    /// Emit the display text, one labeled line per field.
    pub fn to_text(&self) -> (r: String)
        ensures
            r@ == self.spec_text(),
    {
        let mut s = String::from_str("hardware type:   ");
        s.append(self.hardware_type.to_text());
        s.append("\n");
        s.append("protocol type:   ");
        s.append(self.protocol_type.to_text());
        s.append("\n");
        s.append("hardware size:   ");
        s.append(dec_u8(self.hardware_size).as_str());
        s.append("\n");
        s.append("protocol_size:   ");
        s.append(dec_u8(self.protocol_size).as_str());
        s.append("\n");
        s.append("operation:       ");
        s.append(self.op.to_text());
        s.append("\n");
        s.append("sender mac:      ");
        s.append(self.sender_mac.to_text().as_str());
        s.append("\n");
        s.append("sender ip:       ");
        s.append(self.sender_ip.to_text().as_str());
        s.append("\n");
        s.append("target mac:      ");
        s.append(self.target_mac.to_text().as_str());
        s.append("\n");
        s.append("target ip:       ");
        s.append(self.target_ip.to_text().as_str());
        s.append("\n");
        proof {
            assert(s@ =~= self.spec_text());
        }
        s
    }
}

/// Serializing any ARP packet yields exactly 28 bytes.
pub proof fn lemma_arp_hex_len(p: Packet)
    ensures
        p.spec_hex().len() == 28,
{
}

/// Round trip: parsing the serialization of any ARP packet gives the
/// packet back unchanged.
pub proof fn lemma_arp_round_trip(p: Packet)
    ensures
        spec_parse_arp(p.spec_hex()) == Ok::<Packet, ParseError>(p),
{
    let b = p.spec_hex();
    assert(b.len() == 28);
    assert(be16(b, 0) == 0x0001);
    assert(be16(b, 2) == 0x0800);
    match p.op {
        Operation::Request => {
            assert(be16(b, 6) == 1);
        },
        Operation::Reply => {
            assert(be16(b, 6) == 2);
        },
    }
    assert(arp_of(b) =~= p);
}

/// A buffer that passes the hardware- and protocol-type checks but holds
/// an operation code other than 1 or 2 fails with `UnrecognizedOperation`
/// carrying that code.
pub proof fn lemma_unrecognized_operation(b: Seq<u8>)
    requires
        b.len() >= 8,
        be16(b, 0) == 0x0001,
        be16(b, 2) == 0x0800,
        be16(b, 6) != 1,
        be16(b, 6) != 2,
    ensures
        spec_parse_arp(b) == Err::<Packet, ParseError>(ParseError::UnrecognizedOperation(
            be16(b, 6),
        )),
{
}

} // verus!
