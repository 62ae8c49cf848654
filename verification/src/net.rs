//! Fixed-width address value types: 6-octet MAC and 4-octet IPv4 addresses.

use vstd::prelude::*;
use vstd::string::StringExecFns;
use crate::text::{dec_u8, hex_u8, spec_dec_u8, spec_hex_u8};

verus! {

/// A link-layer hardware address: six ordered octets.
#[derive(Clone, Copy, Eq, Debug)]
#[verifier::ext_equal]
pub struct MacAddr(pub u8, pub u8, pub u8, pub u8, pub u8, pub u8);

/// An IPv4 network address: four ordered octets.
#[derive(Clone, Copy, Debug)]
#[verifier::ext_equal]
pub struct IpAddr(pub u8, pub u8, pub u8, pub u8);

impl PartialEq for MacAddr {
    /// Octet-wise equality: two addresses are equal exactly when all six
    /// octets agree, however each value was constructed.
    fn eq(&self, other: &Self) -> (r: bool) {
        self.0 == other.0 && self.1 == other.1 && self.2 == other.2 && self.3 == other.3
            && self.4 == other.4 && self.5 == other.5
    }
}

impl vstd::std_specs::cmp::PartialEqSpecImpl for MacAddr {
    open spec fn obeys_eq_spec() -> bool {
        true
    }

    open spec fn eq_spec(&self, other: &Self) -> bool {
        self.0 == other.0 && self.1 == other.1 && self.2 == other.2 && self.3 == other.3
            && self.4 == other.4 && self.5 == other.5
    }
}

/// Two `MacAddr` values compare equal exactly when their octets agree;
/// the construction path of either value plays no part.
pub proof fn lemma_mac_eq_octets(a: MacAddr, b: MacAddr)
    ensures
        (a == b) <==> (a.0 == b.0 && a.1 == b.1 && a.2 == b.2 && a.3 == b.3 && a.4 == b.4 && a.5
            == b.5),
{
}

/// Byte-level serialization: `to_hex` emits the exact wire bytes of a value.
pub trait Serializable {
    /// Whether the value is ready for the wire.
    spec fn ready(&self) -> bool;

    /// The wire bytes the value serializes to.
    spec fn spec_hex(&self) -> Seq<u8>;

    /// Emit the wire bytes.
    fn to_hex(&self) -> (r: Vec<u8>)
        requires
            self.ready(),
        ensures
            r@ == self.spec_hex(),
    ;
}

impl Serializable for MacAddr {
    open spec fn ready(&self) -> bool {
        true
    }

    open spec fn spec_hex(&self) -> Seq<u8> {
        seq![self.0, self.1, self.2, self.3, self.4, self.5]
    }

    fn to_hex(&self) -> (r: Vec<u8>) {
        let mut out: Vec<u8> = Vec::new();
        out.push(self.0);
        out.push(self.1);
        out.push(self.2);
        out.push(self.3);
        out.push(self.4);
        out.push(self.5);
        proof {
            assert(out@ =~= self.spec_hex());
        }
        out
    }
}

impl Serializable for IpAddr {
    open spec fn ready(&self) -> bool {
        true
    }

    open spec fn spec_hex(&self) -> Seq<u8> {
        seq![self.0, self.1, self.2, self.3]
    }

    fn to_hex(&self) -> (r: Vec<u8>) {
        let mut out: Vec<u8> = Vec::new();
        out.push(self.0);
        out.push(self.1);
        out.push(self.2);
        out.push(self.3);
        proof {
            assert(out@ =~= self.spec_hex());
        }
        out
    }
}

impl MacAddr {
    /// Canonical display: lowercase colon-separated hex, two digits per octet.
    pub open spec fn spec_text(&self) -> Seq<char> {
        spec_hex_u8(self.0) + ":"@ + spec_hex_u8(self.1) + ":"@ + spec_hex_u8(self.2) + ":"@
            + spec_hex_u8(self.3) + ":"@ + spec_hex_u8(self.4) + ":"@ + spec_hex_u8(self.5)
    }

    /// Emit the canonical colon-separated lowercase hex text.
    pub fn to_text(&self) -> (r: String)
        ensures
            r@ == self.spec_text(),
    {
        let mut s = hex_u8(self.0);
        s.append(":");
        s.append(hex_u8(self.1).as_str());
        s.append(":");
        s.append(hex_u8(self.2).as_str());
        s.append(":");
        s.append(hex_u8(self.3).as_str());
        s.append(":");
        s.append(hex_u8(self.4).as_str());
        s.append(":");
        s.append(hex_u8(self.5).as_str());
        proof {
            assert(s@ =~= self.spec_text());
        }
        s
    }
}

impl IpAddr {
    /// Canonical display: dotted decimal.
    pub open spec fn spec_text(&self) -> Seq<char> {
        spec_dec_u8(self.0) + "."@ + spec_dec_u8(self.1) + "."@ + spec_dec_u8(self.2) + "."@
            + spec_dec_u8(self.3)
    }

    /// Emit the canonical dotted-decimal text.
    pub fn to_text(&self) -> (r: String)
        ensures
            r@ == self.spec_text(),
    {
        let mut s = dec_u8(self.0);
        s.append(".");
        s.append(dec_u8(self.1).as_str());
        s.append(".");
        s.append(dec_u8(self.2).as_str());
        s.append(".");
        s.append(dec_u8(self.3).as_str());
        proof {
            assert(s@ =~= self.spec_text());
        }
        s
    }
}

} // verus!
