//! Small build-tool helpers: the build flavor and hexadecimal parsing.

use vstd::prelude::*;

verus! {

/// Which flavor of the build a command works on.
#[derive(Debug, Clone, Copy, PartialEq, Eq, Structural)]
pub enum TargetType {
    Release,
    Debug,
}

/// Why a hexadecimal string failed to parse.
#[derive(Debug, Clone, Copy, PartialEq, Eq, Structural)]
pub enum ParseHexError {
    /// No digits were left after the radix prefix.
    Empty,
    /// A character outside `0-9a-fA-F` appeared.
    InvalidDigit,
    /// The value does not fit 64 bits.
    Overflow,
}

/// Whether `c` is a hexadecimal digit.
pub open spec fn is_hex_digit(c: char) -> bool {
    ('0' <= c && c <= '9') || ('a' <= c && c <= 'f') || ('A' <= c && c <= 'F')
}

/// The value of one hexadecimal digit.
pub open spec fn hex_digit_value(c: char) -> int {
    if '0' <= c && c <= '9' {
        c as int - '0' as int
    } else if 'a' <= c && c <= 'f' {
        c as int - 'a' as int + 10
    } else {
        c as int - 'A' as int + 10
    }
}

/// What scanning hexadecimal digits left to right produces, starting from
/// an already-accumulated value: the value, or the first failure.
pub open spec fn hex_scan(s: Seq<char>, acc: int) -> Result<int, ParseHexError>
    decreases s.len(),
{
    if s.len() == 0 {
        Ok(acc)
    } else if !is_hex_digit(s.first()) {
        Err(ParseHexError::InvalidDigit)
    } else if acc * 16 + hex_digit_value(s.first()) > u64::MAX {
        Err(ParseHexError::Overflow)
    } else {
        hex_scan(s.drop_first(), acc * 16 + hex_digit_value(s.first()))
    }
}

/// `s` without its radix prefix, if it carries one.
pub open spec fn strip_radix_prefix(s: Seq<char>) -> Seq<char> {
    if s.len() >= 2 && s[0] == '0' && (s[1] == 'x' || s[1] == 'X') {
        s.skip(2)
    } else {
        s
    }
}

/// What [`from_hex`] returns for a given string.
pub open spec fn from_hex_spec(s: Seq<char>) -> Result<int, ParseHexError> {
    let digits = strip_radix_prefix(s);
    if digits.len() == 0 {
        Err(ParseHexError::Empty)
    } else {
        hex_scan(digits, 0)
    }
}

/// Parses a hexadecimal number, accepting an optional `0x` or `0X`
/// prefix. Fails on an empty digit string, on the first character that is
/// not a hexadecimal digit, or as soon as the value no longer fits 64
/// bits, whichever the scan meets first.
pub fn from_hex(hex: &str) -> (r: Result<u64, ParseHexError>)
    requires
        vstd::string::is_ascii(hex),
    ensures
        match r {
            Ok(v) => from_hex_spec(hex@) == Ok::<int, ParseHexError>(v as int),
            Err(e) => from_hex_spec(hex@) == Err::<int, ParseHexError>(e),
        },
{
    proof {
        reveal_strlit("0");
        reveal_strlit("x");
        reveal_strlit("X");
    }
    let n = hex.unicode_len();
    let start: usize = if n >= 2 && hex.get_char(0) == '0' && (hex.get_char(1) == 'x'
        || hex.get_char(1) == 'X') {
        2
    } else {
        0
    };
    proof {
        assert(hex@.skip(start as int) =~= strip_radix_prefix(hex@));
    }
    if start == n {
        return Err(ParseHexError::Empty);
    }
    let mut acc: u64 = 0;
    let mut i: usize = start;
    while i < n
        invariant
            n == hex@.len(),
            vstd::string::is_ascii(hex),
            start <= i <= n,
            hex@.skip(start as int) == strip_radix_prefix(hex@),
            hex_scan(hex@.skip(start as int), 0) == hex_scan(hex@.skip(i as int), acc as int),
        decreases n - i,
    {
        let c = hex.get_char(i);
        let digit: u64 = if c >= '0' && c <= '9' {
            (c as u32 - '0' as u32) as u64
        } else if c >= 'a' && c <= 'f' {
            (c as u32 - 'a' as u32 + 10) as u64
        } else if c >= 'A' && c <= 'F' {
            (c as u32 - 'A' as u32 + 10) as u64
        } else {
            proof {
                assert(hex@.skip(i as int).first() == hex@[i as int]);
            }
            return Err(ParseHexError::InvalidDigit);
        };
        proof {
            assert(hex@.skip(i as int).first() == hex@[i as int]);
            assert(digit == hex_digit_value(hex@[i as int]));
        }
        if acc > (u64::MAX - digit) / 16 {
            proof {
                assert((acc as int) * 16 + digit > u64::MAX) by (nonlinear_arith)
                    requires
                        acc as int > ((u64::MAX - digit) as int) / 16,
                        0 <= digit <= 15,
                        0 <= acc <= u64::MAX,
                ;
            }
            return Err(ParseHexError::Overflow);
        }
        proof {
            assert((acc as int) * 16 + digit <= u64::MAX) by (nonlinear_arith)
                requires
                    acc as int <= ((u64::MAX - digit) as int) / 16,
                    0 <= digit <= 15,
                    0 <= acc,
            ;
            assert(hex@.skip(i as int).drop_first() =~= hex@.skip(i + 1));
        }
        acc = acc * 16 + digit;
        i = i + 1;
    }
    proof {
        assert(hex@.skip(n as int) =~= Seq::<char>::empty());
    }
    Ok(acc)
}

} // verus!
