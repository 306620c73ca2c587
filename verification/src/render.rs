//! Rendering of numbers for the debugger's output lines.
//!
//! Register values are printed as lowercase hexadecimal without leading
//! zeros, memory words in the full 16-digit form, and error numbers and exit
//! codes in decimal.  Each executable function is pinned to a spec-level
//! sequence of characters.

use vstd::prelude::*;
use vstd::string::*;

verus! {

/// The character for one digit value below 16: `0`-`9` then `a`-`f`.
pub open spec fn digit_char(d: u8) -> char {
    if d == 0 {
        '0'
    } else if d == 1 {
        '1'
    } else if d == 2 {
        '2'
    } else if d == 3 {
        '3'
    } else if d == 4 {
        '4'
    } else if d == 5 {
        '5'
    } else if d == 6 {
        '6'
    } else if d == 7 {
        '7'
    } else if d == 8 {
        '8'
    } else if d == 9 {
        '9'
    } else if d == 10 {
        'a'
    } else if d == 11 {
        'b'
    } else if d == 12 {
        'c'
    } else if d == 13 {
        'd'
    } else if d == 14 {
        'e'
    } else {
        'f'
    }
}

/// Lowercase hexadecimal without leading zeros; zero itself is `0`.
pub open spec fn spec_hex(v: nat) -> Seq<char>
    decreases v,
{
    if v < 16 {
        seq![digit_char(v as u8)]
    } else {
        spec_hex(v / 16) + seq![digit_char((v % 16) as u8)]
    }
}

/// Hexadecimal padded with leading zeros to exactly `n` digits.
pub open spec fn spec_hex_pad(v: nat, n: nat) -> Seq<char>
    decreases n,
{
    if n == 0 {
        Seq::empty()
    } else {
        spec_hex_pad(v / 16, (n - 1) as nat) + seq![digit_char((v % 16) as u8)]
    }
}

/// Decimal without leading zeros; zero itself is `0`.
pub open spec fn spec_dec(v: nat) -> Seq<char>
    decreases v,
{
    if v < 10 {
        seq![digit_char(v as u8)]
    } else {
        spec_dec(v / 10) + seq![digit_char((v % 10) as u8)]
    }
}

fn digit_str(d: u8) -> (r: &'static str)
    requires
        d < 16,
    ensures
        r@ == seq![digit_char(d)],
{
    proof {
        reveal_strlit("0");
        reveal_strlit("1");
        reveal_strlit("2");
        reveal_strlit("3");
        reveal_strlit("4");
        reveal_strlit("5");
        reveal_strlit("6");
        reveal_strlit("7");
        reveal_strlit("8");
        reveal_strlit("9");
        reveal_strlit("a");
        reveal_strlit("b");
        reveal_strlit("c");
        reveal_strlit("d");
        reveal_strlit("e");
        reveal_strlit("f");
    }
    let r: &'static str = if d == 0 {
        "0"
    } else if d == 1 {
        "1"
    } else if d == 2 {
        "2"
    } else if d == 3 {
        "3"
    } else if d == 4 {
        "4"
    } else if d == 5 {
        "5"
    } else if d == 6 {
        "6"
    } else if d == 7 {
        "7"
    } else if d == 8 {
        "8"
    } else if d == 9 {
        "9"
    } else if d == 10 {
        "a"
    } else if d == 11 {
        "b"
    } else if d == 12 {
        "c"
    } else if d == 13 {
        "d"
    } else if d == 14 {
        "e"
    } else {
        "f"
    };
    proof {
        assert(r@ =~= seq![digit_char(d)]);
    }
    r
}

/// A `u64` in lowercase hexadecimal without leading zeros, as `{:x}` prints it.
pub fn u64_to_hex(v: u64) -> (r: String)
    ensures
        r@ == spec_hex(v as nat),
    decreases v,
{
    if v < 16 {
        String::from_str(digit_str(v as u8))
    } else {
        let mut s = u64_to_hex(v / 16);
        s.append(digit_str((v % 16) as u8));
        s
    }
}

/// A `u64` in lowercase hexadecimal padded to `n` digits.
pub fn u64_to_hex_pad(v: u64, n: usize) -> (r: String)
    ensures
        r@ == spec_hex_pad(v as nat, n as nat),
    decreases n,
{
    if n == 0 {
        let s = String::new();
        proof {
            assert(s@ =~= spec_hex_pad(v as nat, 0));
        }
        s
    } else {
        let mut s = u64_to_hex_pad(v / 16, n - 1);
        s.append(digit_str((v % 16) as u8));
        s
    }
}

/// A `u64` in decimal, as `{}` prints it.
pub fn u64_to_dec(v: u64) -> (r: String)
    ensures
        r@ == spec_dec(v as nat),
    decreases v,
{
    if v < 10 {
        String::from_str(digit_str(v as u8))
    } else {
        let mut s = u64_to_dec(v / 10);
        s.append(digit_str((v % 10) as u8));
        s
    }
}

/// An `i32` in decimal, with a leading minus sign when negative.
pub open spec fn spec_dec_i32(v: i32) -> Seq<char> {
    if v >= 0 {
        spec_dec(v as nat)
    } else {
        seq!['-'] + spec_dec((-(v as int)) as nat)
    }
}

pub fn i32_to_dec(v: i32) -> (r: String)
    ensures
        r@ == spec_dec_i32(v),
{
    if v >= 0 {
        u64_to_dec(v as u64)
    } else {
        let n: i64 = v as i64;
        let m: u64 = (-n) as u64;
        let mut s = String::from_str("-");
        s.append(u64_to_dec(m).as_str());
        proof {
            reveal_strlit("-");
            assert("-"@ =~= seq!['-']);
        }
        s
    }
}

} // verus!
