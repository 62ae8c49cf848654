//! A bounds-checked, forward-only byte cursor over an immutable buffer.
//!
//! Every primitive read either returns a value and moves the position
//! forward, or reports `EndOfFile`; no operation ever reads past the end
//! of the buffer or panics.

use vstd::prelude::*;
use vstd::string::StringExecFns;
use crate::net::{IpAddr, MacAddr};
use crate::text::{dec_u8, dec_usize, spec_dec_nat, spec_dec_u8};

verus! {

/// A sequential reader over a byte buffer: the buffer and a read position.
pub struct Parser<'a> {
    input: &'a Vec<u8>,
    index: usize,
}

/// Why a parse failed. Malformed or truncated input is always terminal
/// for the single parse call that meets it.
#[derive(Clone, Copy, PartialEq, Eq, Structural, Debug)]
pub enum ParseError {
    /// The buffer is shorter than the field that was being read.
    EndOfFile,
    /// A literal marker byte did not match.
    UnexpectedByte { position: usize, expected: u8, actual: u8 },
    /// The ARP hardware type is not Ethernet (`0x0001`).
    UnsupportedHardwareType,
    /// The ARP protocol type is not IPv4 (`0x0800`).
    UnsupportedProtocolType,
    /// The EtherType is not ARP (`0x0806`); the tag is carried along.
    UnsupportedProtocol(u16),
    /// The ARP operation code is neither request (1) nor reply (2).
    UnrecognizedOperation(u16),
}

impl ParseError {
    /// One-line description of the failure.
    pub open spec fn spec_text(&self) -> Seq<char> {
        match *self {
            ParseError::EndOfFile => "end of file"@,
            ParseError::UnexpectedByte { position, expected, actual } => "unexpected byte at "@
                + spec_dec_nat(position as nat) + ": expected "@ + spec_dec_u8(expected)
                + ", found "@ + spec_dec_u8(actual),
            ParseError::UnsupportedHardwareType => "unsupported hardware type"@,
            ParseError::UnsupportedProtocolType => "unsupported protocol type"@,
            ParseError::UnsupportedProtocol(_) => "unsupported protocol"@,
            ParseError::UnrecognizedOperation(code) => "unrecognized operation code: "@
                + spec_dec_nat((code / 256) as nat) + " "@ + spec_dec_nat((code % 256) as nat),
        }
    }

    /// Emit the one-line description.
    pub fn to_text(&self) -> (r: String)
        ensures
            r@ == self.spec_text(),
    {
        match *self {
            ParseError::EndOfFile => String::from_str("end of file"),
            ParseError::UnexpectedByte { position, expected, actual } => {
                let mut s = String::from_str("unexpected byte at ");
                s.append(dec_usize(position).as_str());
                s.append(": expected ");
                s.append(dec_u8(expected).as_str());
                s.append(", found ");
                s.append(dec_u8(actual).as_str());
                proof {
                    assert(s@ =~= self.spec_text());
                }
                s
            },
            ParseError::UnsupportedHardwareType => String::from_str("unsupported hardware type"),
            ParseError::UnsupportedProtocolType => String::from_str("unsupported protocol type"),
            ParseError::UnsupportedProtocol(_) => String::from_str("unsupported protocol"),
            ParseError::UnrecognizedOperation(code) => {
                let mut s = String::from_str("unrecognized operation code: ");
                s.append(dec_usize((code / 256) as usize).as_str());
                s.append(" ");
                s.append(dec_usize((code % 256) as usize).as_str());
                proof {
                    assert(s@ =~= self.spec_text());
                }
                s
            },
        }
    }
}

/// The big-endian 16-bit value formed by the two bytes at position `i`.
pub open spec fn be16(b: Seq<u8>, i: int) -> u16
    recommends
        0 <= i,
        i + 2 <= b.len(),
{
    ((b[i] as int) * 256 + (b[i + 1] as int)) as u16
}

impl<'a> Parser<'a> {
    /// The bytes the cursor reads over.
    pub closed spec fn buf(&self) -> Seq<u8> {
        self.input@
    }

    /// The current read position.
    pub closed spec fn pos(&self) -> int {
        self.index as int
    }

    /// A fresh cursor at the start of `input`.
    pub fn new(input: &'a Vec<u8>) -> (r: Self)
        ensures
            r.buf() == input@,
            r.pos() == 0,
    {
        Parser { input, index: 0 }
    }

    /// A copy of all unread bytes, from the current position to the end.
    pub fn rest(&self) -> (r: Vec<u8>)
        requires
            self.pos() <= self.buf().len(),
        ensures
            r@ == self.buf().skip(self.pos()),
    {
        let mut out: Vec<u8> = Vec::new();
        let mut i: usize = self.index;
        while i < self.input.len()
            invariant
                self.index <= i <= self.input.len(),
                out@ == self.input@.subrange(self.index as int, i as int),
            decreases self.input.len() - i,
        {
            out.push(self.input[i]);
            i = i + 1;
        }
        proof {
            assert(out@ =~= self.buf().skip(self.pos()));
        }
        out
    }

    /// Whether every byte of the buffer has been consumed.
    pub fn eof(&self) -> (r: bool)
        ensures
            r == (self.pos() >= self.buf().len()),
    {
        self.index >= self.input.len()
    }

    /// The current byte, without advancing; `None` at the end of the buffer.
    pub fn next(&self) -> (r: Option<u8>)
        ensures
            r == if self.pos() < self.buf().len() {
                Some(self.buf()[self.pos()])
            } else {
                Option::<u8>::None
            },
    {
        if self.index < self.input.len() {
            Some(self.input[self.index])
        } else {
            None
        }
    }

    /// The current byte, advancing one position; `None` at the end of the
    /// buffer (the position still advances, so callers must not read on).
    pub fn consume_char(&mut self) -> (r: Option<u8>)
        requires
            old(self).pos() < usize::MAX,
        ensures
            final(self).buf() == old(self).buf(),
            final(self).pos() == old(self).pos() + 1,
            r == if old(self).pos() < old(self).buf().len() {
                Some(old(self).buf()[old(self).pos()])
            } else {
                Option::<u8>::None
            },
    {
        let c = self.next();
        self.index += 1;
        c
    }

    /// Consume the current byte if it equals `c`; otherwise report where
    /// and how the input differs, without advancing.
    pub fn expect(&mut self, c: u8) -> (r: Result<u8, ParseError>)
        ensures
            final(self).buf() == old(self).buf(),
            if old(self).pos() < old(self).buf().len() {
                if old(self).buf()[old(self).pos()] == c {
                    r == Ok::<u8, ParseError>(c) && final(self).pos() == old(self).pos() + 1
                } else {
                    r == Err::<u8, ParseError>(
                        ParseError::UnexpectedByte {
                            position: old(self).pos() as usize,
                            expected: c,
                            actual: old(self).buf()[old(self).pos()],
                        },
                    ) && final(self).pos() == old(self).pos()
                }
            } else {
                r == Err::<u8, ParseError>(ParseError::EndOfFile) && final(self).pos() == old(self).pos()
            },
    {
        if self.index < self.input.len() {
            let ch = self.input[self.index];
            if ch == c {
                self.index += 1;
                Ok(c)
            } else {
                Err(ParseError::UnexpectedByte { position: self.index, expected: c, actual: ch })
            }
        } else {
            Err(ParseError::EndOfFile)
        }
    }

    /// Consume one byte, or fail with `EndOfFile`.
    pub fn parse_u8(&mut self) -> (r: Result<u8, ParseError>)
        ensures
            final(self).buf() == old(self).buf(),
            if old(self).pos() < old(self).buf().len() {
                r == Ok::<u8, ParseError>(old(self).buf()[old(self).pos()]) && final(self).pos()
                    == old(self).pos() + 1
            } else {
                r == Err::<u8, ParseError>(ParseError::EndOfFile) && final(self).pos() == old(self).pos()
            },
    {
        if self.index < self.input.len() {
            let b = self.input[self.index];
            self.index += 1;
            Ok(b)
        } else {
            Err(ParseError::EndOfFile)
        }
    }

    /// Consume two bytes and combine them big-endian (`high * 256 + low`),
    /// or fail with `EndOfFile`.
    pub fn parse_u16(&mut self) -> (r: Result<u16, ParseError>)
        ensures
            final(self).buf() == old(self).buf(),
            if old(self).pos() + 2 <= old(self).buf().len() {
                r == Ok::<u16, ParseError>(be16(old(self).buf(), old(self).pos())) && final(self).pos() == old(self).pos() + 2
            } else {
                r == Err::<u16, ParseError>(ParseError::EndOfFile) && old(self).pos() <= final(self).pos() <= old(self).pos() + 2
            },
    {
        let h = self.parse_u8()?;
        let l = self.parse_u8()?;
        Ok((h as u16) * 256 + (l as u16))
    }

    /// Consume six bytes in order as a MAC address, or fail with `EndOfFile`.
    pub fn parse_mac(&mut self) -> (r: Result<MacAddr, ParseError>)
        ensures
            final(self).buf() == old(self).buf(),
            if old(self).pos() + 6 <= old(self).buf().len() {
                r == Ok::<MacAddr, ParseError>(mac_at(old(self).buf(), old(self).pos())) && final(self).pos() == old(self).pos() + 6
            } else {
                r == Err::<MacAddr, ParseError>(ParseError::EndOfFile) && old(self).pos() <= final(self).pos() <= old(self).pos() + 6
            },
    {
        let a = self.parse_u8()?;
        let b = self.parse_u8()?;
        let c = self.parse_u8()?;
        let d = self.parse_u8()?;
        let e = self.parse_u8()?;
        let f = self.parse_u8()?;
        Ok(MacAddr(a, b, c, d, e, f))
    }

    /// Consume four bytes in order as an IPv4 address, or fail with
    /// `EndOfFile`.
    pub fn parse_ip_v4(&mut self) -> (r: Result<IpAddr, ParseError>)
        ensures
            final(self).buf() == old(self).buf(),
            if old(self).pos() + 4 <= old(self).buf().len() {
                r == Ok::<IpAddr, ParseError>(ip_at(old(self).buf(), old(self).pos())) && final(self).pos() == old(self).pos() + 4
            } else {
                r == Err::<IpAddr, ParseError>(ParseError::EndOfFile) && old(self).pos() <= final(self).pos() <= old(self).pos() + 4
            },
    {
        let a = self.parse_u8()?;
        let b = self.parse_u8()?;
        let c = self.parse_u8()?;
        let d = self.parse_u8()?;
        Ok(IpAddr(a, b, c, d))
    }

    /// Consume bytes while `f` accepts them, stopping at the first byte `f`
    /// rejects or at the end of the buffer; the consumed bytes are returned.
    pub fn consume_while<F: Fn(u8) -> bool>(&mut self, f: F) -> (r: Vec<u8>)
        requires
            forall|c: u8| #[trigger] f.requires((c,)),
        ensures
            final(self).buf() == old(self).buf(),
            final(self).pos() >= old(self).pos(),
            old(self).pos() <= old(self).buf().len() ==> final(self).pos() <= final(self).buf().len() && r@ == final(self).buf().subrange(old(self).pos(), final(self).pos())
                && (forall|i: int|
                old(self).pos() <= i < final(self).pos() ==> f.ensures(
                    (final(self).buf()[i],),
                    true,
                )) && (final(self).pos() < final(self).buf().len() ==> f.ensures(
                (final(self).buf()[final(self).pos()],),
                false,
            )),
            old(self).pos() > old(self).buf().len() ==> final(self).pos() == old(self).pos() && r@
                == Seq::<u8>::empty(),
    {
        let mut result: Vec<u8> = Vec::new();
        if self.index > self.input.len() {
            return result;
        }
        while self.index < self.input.len()
            invariant
                self.input == old(self).input,
                old(self).index <= self.index <= self.input.len(),
                result@ == self.input@.subrange(old(self).pos(), self.pos()),
                forall|i: int|
                    old(self).pos() <= i < self.pos() ==> f.ensures((self.input@[i],), true),
                forall|c: u8| #[trigger] f.requires((c,)),
            ensures
                self.index == self.input.len() || f.ensures(
                    (self.input@[self.index as int],),
                    false,
                ),
            decreases self.input.len() - self.index,
        {
            let c = self.input[self.index];
            if f(c) {
                self.index += 1;
                result.push(c);
            } else {
                break ;
            }
        }
        result
    }

    /// Consume bytes until `f` accepts one, stopping at the first byte `f`
    /// accepts or at the end of the buffer; the consumed bytes are returned.
    pub fn consume_until<F: Fn(u8) -> bool>(&mut self, f: F) -> (r: Vec<u8>)
        requires
            forall|c: u8| #[trigger] f.requires((c,)),
        ensures
            final(self).buf() == old(self).buf(),
            final(self).pos() >= old(self).pos(),
            old(self).pos() <= old(self).buf().len() ==> final(self).pos() <= final(self).buf().len() && r@ == final(self).buf().subrange(old(self).pos(), final(self).pos())
                && (forall|i: int|
                old(self).pos() <= i < final(self).pos() ==> f.ensures(
                    (final(self).buf()[i],),
                    false,
                )) && (final(self).pos() < final(self).buf().len() ==> f.ensures(
                (final(self).buf()[final(self).pos()],),
                true,
            )),
            old(self).pos() > old(self).buf().len() ==> final(self).pos() == old(self).pos() && r@
                == Seq::<u8>::empty(),
    {
        let mut result: Vec<u8> = Vec::new();
        if self.index > self.input.len() {
            return result;
        }
        while self.index < self.input.len()
            invariant
                self.input == old(self).input,
                old(self).index <= self.index <= self.input.len(),
                result@ == self.input@.subrange(old(self).pos(), self.pos()),
                forall|i: int|
                    old(self).pos() <= i < self.pos() ==> f.ensures((self.input@[i],), false),
                forall|c: u8| #[trigger] f.requires((c,)),
            ensures
                self.index == self.input.len() || f.ensures(
                    (self.input@[self.index as int],),
                    true,
                ),
            decreases self.input.len() - self.index,
        {
            let c = self.input[self.index];
            if !f(c) {
                self.index += 1;
                result.push(c);
            } else {
                break ;
            }
        }
        result
    }
}

/// The MAC address formed by the six bytes at position `i`.
pub open spec fn mac_at(b: Seq<u8>, i: int) -> MacAddr
    recommends
        0 <= i,
        i + 6 <= b.len(),
{
    MacAddr(b[i], b[i + 1], b[i + 2], b[i + 3], b[i + 4], b[i + 5])
}

/// The IPv4 address formed by the four bytes at position `i`.
pub open spec fn ip_at(b: Seq<u8>, i: int) -> IpAddr
    recommends
        0 <= i,
        i + 4 <= b.len(),
{
    IpAddr(b[i], b[i + 1], b[i + 2], b[i + 3])
}

} // verus!
