//! A verified codec for Ethernet frames carrying ARP payloads.
//!
//! The crate offers a bounds-checked byte cursor ([`parser::Parser`]),
//! fixed-width address value types ([`net::MacAddr`], [`net::IpAddr`]),
//! and two nested packet models ([`arp::Packet`], [`ether::Packet`]),
//! each with a fallible `parse` and a total `serialize` (`to_hex`).
//! Every parse and serialize call is a pure, stateless transformation of
//! one buffer, and parsing after serializing is proved to give the frame
//! back unchanged.

pub mod arp;
pub mod ether;
pub mod net;
pub mod parser;
pub mod text;
