//! Pure text-production helpers: lowercase hexadecimal and decimal digits.
//!
//! Display logic is kept apart from parsing: every function here is a pure
//! mapping from numbers to text, with its output pinned by a spec function.

use vstd::prelude::*;
use vstd::string::StringExecFns;

verus! {

/// The lowercase hexadecimal digit for a value below 16.
pub open spec fn spec_hex_digit(n: int) -> Seq<char>
    recommends
        0 <= n < 16,
{
    if n == 0 {
        "0"@
    } else if n == 1 {
        "1"@
    } else if n == 2 {
        "2"@
    } else if n == 3 {
        "3"@
    } else if n == 4 {
        "4"@
    } else if n == 5 {
        "5"@
    } else if n == 6 {
        "6"@
    } else if n == 7 {
        "7"@
    } else if n == 8 {
        "8"@
    } else if n == 9 {
        "9"@
    } else if n == 10 {
        "a"@
    } else if n == 11 {
        "b"@
    } else if n == 12 {
        "c"@
    } else if n == 13 {
        "d"@
    } else if n == 14 {
        "e"@
    } else {
        "f"@
    }
}

/// Emit one lowercase hexadecimal digit.
pub fn hex_digit(n: u8) -> (r: &'static str)
    requires
        n < 16,
    ensures
        r@ == spec_hex_digit(n as int),
{
    if n == 0 {
        "0"
    } else if n == 1 {
        "1"
    } else if n == 2 {
        "2"
    } else if n == 3 {
        "3"
    } else if n == 4 {
        "4"
    } else if n == 5 {
        "5"
    } else if n == 6 {
        "6"
    } else if n == 7 {
        "7"
    } else if n == 8 {
        "8"
    } else if n == 9 {
        "9"
    } else if n == 10 {
        "a"
    } else if n == 11 {
        "b"
    } else if n == 12 {
        "c"
    } else if n == 13 {
        "d"
    } else if n == 14 {
        "e"
    } else {
        "f"
    }
}

/// Two lowercase hexadecimal digits for one octet, high nibble first.
pub open spec fn spec_hex_u8(n: u8) -> Seq<char> {
    spec_hex_digit(n as int / 16) + spec_hex_digit(n as int % 16)
}

/// Emit one octet as two lowercase hexadecimal digits.
pub fn hex_u8(n: u8) -> (r: String)
    ensures
        r@ == spec_hex_u8(n),
{
    let mut s = String::new();
    s.append(hex_digit(n / 16));
    s.append(hex_digit(n % 16));
    s
}

/// Decimal text for one octet, without leading zeros.
pub open spec fn spec_dec_u8(n: u8) -> Seq<char> {
    if n < 10 {
        spec_hex_digit(n as int)
    } else if n < 100 {
        spec_hex_digit(n as int / 10) + spec_hex_digit(n as int % 10)
    } else {
        spec_hex_digit(n as int / 100) + spec_hex_digit((n as int / 10) % 10) + spec_hex_digit(
            n as int % 10,
        )
    }
}

/// Emit one octet in decimal, without leading zeros.
pub fn dec_u8(n: u8) -> (r: String)
    ensures
        r@ == spec_dec_u8(n),
{
    let mut s = String::new();
    if n >= 100 {
        s.append(hex_digit(n / 100));
    }
    if n >= 10 {
        s.append(hex_digit((n / 10) % 10));
    }
    s.append(hex_digit(n % 10));
    proof {
        if n >= 10 && n < 100 {
            assert(n as int / 10 < 10);
            assert((n as int / 10) % 10 == n as int / 10);
        }
        assert(s@ =~= spec_dec_u8(n));
    }
    s
}

/// Decimal text for an unbounded natural number, without leading zeros.
pub open spec fn spec_dec_nat(n: nat) -> Seq<char>
    decreases n,
{
    if n < 10 {
        spec_hex_digit(n as int)
    } else {
        spec_dec_nat(n / 10) + spec_hex_digit((n % 10) as int)
    }
}

/// Emit a machine word in decimal, without leading zeros.
pub fn dec_usize(n: usize) -> (r: String)
    ensures
        r@ == spec_dec_nat(n as nat),
    decreases n,
{
    if n < 10 {
        let mut s = String::new();
        s.append(hex_digit(n as u8));
        proof {
            assert(s@ =~= spec_dec_nat(n as nat));
        }
        s
    } else {
        let mut s = dec_usize(n / 10);
        s.append(hex_digit((n % 10) as u8));
        proof {
            assert((n / 10) as nat == n as nat / 10);
            assert(s@ =~= spec_dec_nat(n as nat));
        }
        s
    }
}

} // verus!
