//! The interactive command grammar.
//!
//! A command line is split on ASCII whitespace; the first token selects the
//! command, and the memory and breakpoint commands take exactly one address
//! argument written as `0x` followed by hexadecimal digits.  Malformed
//! arguments parse to an error value, never to an address.

use vstd::prelude::*;
use vstd::string::*;

verus! {

/// Why an address argument was rejected.
#[derive(Clone, Copy, PartialEq, Eq, Structural, Debug)]
pub enum ArgError {
    /// The command did not receive exactly one argument.
    WrongCount,
    /// The argument does not start with `0x`.
    MissingPrefix,
    /// The digits after `0x` are empty, not hexadecimal, or too large for a
    /// machine word.
    BadHex,
}

/// One parsed command line.
#[derive(Clone, Copy, PartialEq, Eq, Structural, Debug)]
pub enum Command {
    Continue,
    Syscall,
    Next,
    Registers,
    Memory(u64),
    MemoryArg(ArgError),
    Breakpoint(u64),
    BreakpointArg(ArgError),
    Help,
    Quit,
    Unknown,
}

pub open spec fn is_ws(b: u8) -> bool {
    b == 32 || (9 <= b && b <= 13)
}

/// The end of the token that starts at `i`: the first position at or after
/// `i` that holds whitespace or ends the line.
pub open spec fn token_end(s: Seq<u8>, i: int) -> int
    decreases s.len() - i,
    when 0 <= i <= s.len()
{
    if i == s.len() || is_ws(s[i]) {
        i
    } else {
        token_end(s, i + 1)
    }
}

pub proof fn lemma_token_end(s: Seq<u8>, i: int)
    requires
        0 <= i <= s.len(),
    ensures
        i <= token_end(s, i) <= s.len(),
        i < s.len() && !is_ws(s[i]) ==> i < token_end(s, i),
    decreases s.len() - i,
{
    if i == s.len() || is_ws(s[i]) {
    } else {
        lemma_token_end(s, i + 1);
    }
}

#[via_fn]
proof fn tokens_from_decreases(s: Seq<u8>, i: int) {
    if 0 <= i <= s.len() {
        if i == s.len() {
        } else if is_ws(s[i]) {
        } else {
            lemma_token_end(s, i);
        }
    }
}

/// The whitespace-separated tokens of `s` from position `i` on.
pub open spec fn tokens_from(s: Seq<u8>, i: int) -> Seq<Seq<u8>>
    decreases s.len() - i,
    when 0 <= i <= s.len()
    via tokens_from_decreases
{
    if i == s.len() {
        Seq::empty()
    } else if is_ws(s[i]) {
        tokens_from(s, i + 1)
    } else {
        seq![s.subrange(i, token_end(s, i))] + tokens_from(s, token_end(s, i))
    }
}

/// The whitespace-separated tokens of a whole line.
pub open spec fn spec_tokens(s: Seq<u8>) -> Seq<Seq<u8>> {
    tokens_from(s, 0)
}

pub open spec fn is_hex_digit(b: u8) -> bool {
    (48 <= b && b <= 57) || (97 <= b && b <= 102) || (65 <= b && b <= 70)
}

/// The value of one hexadecimal digit byte.
pub open spec fn hex_digit_val(b: u8) -> nat {
    if 48 <= b && b <= 57 {
        (b - 48) as nat
    } else if 97 <= b && b <= 102 {
        (b - 87) as nat
    } else if 65 <= b && b <= 70 {
        (b - 55) as nat
    } else {
        0
    }
}

/// The value of a string of hexadecimal digit bytes, most significant first.
pub open spec fn hex_value(s: Seq<u8>) -> nat
    decreases s.len(),
{
    if s.len() == 0 {
        0
    } else {
        hex_value(s.drop_last()) * 16 + hex_digit_val(s.last())
    }
}

/// A well-formed address digit string: nonempty, hexadecimal throughout, and
/// small enough for a machine word.
pub open spec fn valid_hex_u64(s: Seq<u8>) -> bool {
    &&& s.len() > 0
    &&& forall|k: int| 0 <= k < s.len() ==> is_hex_digit(#[trigger] s[k])
    &&& hex_value(s) < 0x1_0000_0000_0000_0000
}

/// How one address token parses.
pub open spec fn spec_parse_addr(t: Seq<u8>) -> Result<u64, ArgError> {
    if !(t.len() >= 2 && t[0] == 48 && t[1] == 120) {
        Err(ArgError::MissingPrefix)
    } else if valid_hex_u64(t.subrange(2, t.len() as int)) {
        Ok(hex_value(t.subrange(2, t.len() as int)) as u64)
    } else {
        Err(ArgError::BadHex)
    }
}

/// How a whole line parses.
pub open spec fn spec_parse(s: Seq<u8>) -> Command {
    let ts = spec_tokens(s);
    if ts.len() == 0 {
        Command::Unknown
    } else if ts[0] == "c".spec_bytes() || ts[0] == "continue".spec_bytes() {
        Command::Continue
    } else if ts[0] == "s".spec_bytes() || ts[0] == "syscall".spec_bytes() {
        Command::Syscall
    } else if ts[0] == "n".spec_bytes() || ts[0] == "next".spec_bytes() {
        Command::Next
    } else if ts[0] == "r".spec_bytes() || ts[0] == "registers".spec_bytes() {
        Command::Registers
    } else if ts[0] == "m".spec_bytes() || ts[0] == "memory".spec_bytes() {
        if ts.len() != 2 {
            Command::MemoryArg(ArgError::WrongCount)
        } else {
            match spec_parse_addr(ts[1]) {
                Ok(a) => Command::Memory(a),
                Err(e) => Command::MemoryArg(e),
            }
        }
    } else if ts[0] == "b".spec_bytes() || ts[0] == "breakpoint".spec_bytes() {
        if ts.len() != 2 {
            Command::BreakpointArg(ArgError::WrongCount)
        } else {
            match spec_parse_addr(ts[1]) {
                Ok(a) => Command::Breakpoint(a),
                Err(e) => Command::BreakpointArg(e),
            }
        }
    } else if ts[0] == "h".spec_bytes() || ts[0] == "help".spec_bytes() {
        Command::Help
    } else if ts[0] == "q".spec_bytes() || ts[0] == "quit".spec_bytes() {
        Command::Quit
    } else {
        Command::Unknown
    }
}

fn is_ws_byte(b: u8) -> (r: bool)
    ensures
        r == is_ws(b),
{
    b == 32 || (9 <= b && b <= 13)
}

fn token_end_exec(s: &[u8], i: usize) -> (j: usize)
    requires
        i <= s@.len(),
    ensures
        j == token_end(s@, i as int),
        i <= j <= s@.len(),
    decreases s@.len() - i,
{
    if i == s.len() {
        i
    } else if is_ws_byte(s[i]) {
        i
    } else {
        token_end_exec(s, i + 1)
    }
}

fn copy_range(s: &[u8], i: usize, j: usize) -> (t: Vec<u8>)
    requires
        i <= j <= s@.len(),
    ensures
        t@ == s@.subrange(i as int, j as int),
{
    let mut t: Vec<u8> = Vec::new();
    let mut k: usize = i;
    while k < j
        invariant
            i <= k <= j <= s@.len(),
            t@ == s@.subrange(i as int, k as int),
        decreases j - k,
    {
        t.push(s[k]);
        proof {
            assert(t@ =~= s@.subrange(i as int, k + 1 as int));
        }
        k = k + 1;
    }
    t
}

fn tokenize_from(s: &[u8], i: usize) -> (r: Vec<Vec<u8>>)
    requires
        i <= s@.len(),
    ensures
        r.deep_view() == tokens_from(s@, i as int),
    decreases s@.len() - i,
{
    if i == s.len() {
        let r: Vec<Vec<u8>> = Vec::new();
        proof {
            assert(r.deep_view() =~= tokens_from(s@, i as int));
        }
        r
    } else if is_ws_byte(s[i]) {
        tokenize_from(s, i + 1)
    } else {
        let j = token_end_exec(s, i);
        proof {
            lemma_token_end(s@, i as int);
        }
        let tok = copy_range(s, i, j);
        let mut r = tokenize_from(s, j);
        let ghost pre = r@;
        let ghost pre_dv = r.deep_view();
        r.insert(0, tok);
        proof {
            assert(r@ =~= seq![tok] + pre);
            let full = tokens_from(s@, i as int);
            assert(full == seq![s@.subrange(i as int, j as int)] + tokens_from(s@, j as int));
            assert forall|q: int| 0 <= q < r@.len() implies r.deep_view()[q] == full[q] by {
                if q == 0 {
                    assert(r@[0] == tok);
                } else {
                    assert(r@[q] == pre[q - 1]);
                    assert(r.deep_view()[q] == pre_dv[q - 1]);
                }
            }
            assert(r.deep_view() =~= full);
        }
        r
    }
}

/// The whitespace-separated tokens of a line, each as its own byte vector.
pub fn tokenize(s: &[u8]) -> (r: Vec<Vec<u8>>)
    ensures
        r.deep_view() == spec_tokens(s@),
{
    tokenize_from(s, 0)
}

fn bytes_eq(a: &[u8], b: &[u8]) -> (r: bool)
    ensures
        r == (a@ == b@),
{
    if a.len() != b.len() {
        proof {
            assert(a@.len() != b@.len());
        }
        return false;
    }
    let mut k: usize = 0;
    while k < a.len()
        invariant
            k <= a@.len(),
            a@.len() == b@.len(),
            forall|q: int| 0 <= q < k ==> a@[q] == b@[q],
        decreases a@.len() - k,
    {
        if a[k] != b[k] {
            return false;
        }
        k = k + 1;
    }
    proof {
        assert(a@ =~= b@);
    }
    true
}

fn tok_is(t: &Vec<u8>, w: &str) -> (r: bool)
    ensures
        r == (t@ == w.spec_bytes()),
{
    bytes_eq(t.as_slice(), w.as_bytes())
}

fn hex_digit_value(b: u8) -> (r: Option<u8>)
    ensures
        match r {
            Some(v) => is_hex_digit(b) && v == hex_digit_val(b),
            None => !is_hex_digit(b),
        },
{
    if 48 <= b && b <= 57 {
        Some(b - 48)
    } else if 97 <= b && b <= 102 {
        Some(b - 87)
    } else if 65 <= b && b <= 70 {
        Some(b - 55)
    } else {
        None
    }
}

proof fn lemma_hex_value_step(s: Seq<u8>, k: int)
    requires
        0 <= k < s.len(),
    ensures
        hex_value(s.subrange(0, k + 1)) == hex_value(s.subrange(0, k)) * 16 + hex_digit_val(
            s[k],
        ),
{
    let t = s.subrange(0, k + 1);
    assert(t.drop_last() =~= s.subrange(0, k));
    assert(t.last() == s[k]);
}

proof fn lemma_hex_value_grows(s: Seq<u8>, k: int)
    requires
        0 <= k <= s.len(),
    ensures
        hex_value(s) >= hex_value(s.subrange(0, k)),
    decreases s.len() - k,
{
    if k == s.len() {
        assert(s.subrange(0, k) =~= s);
    } else {
        lemma_hex_value_step(s, k);
        lemma_hex_value_grows(s, k + 1);
        assert(hex_value(s.subrange(0, k + 1)) >= hex_value(s.subrange(0, k)));
    }
}

/// Parses a string of hexadecimal digits into a machine word; rejects an
/// empty string, a non-hexadecimal byte, and a value too large for `u64`.
pub fn parse_hex_u64(s: &[u8]) -> (r: Option<u64>)
    ensures
        match r {
            Some(v) => valid_hex_u64(s@) && v == hex_value(s@),
            None => !valid_hex_u64(s@),
        },
{
    if s.len() == 0 {
        return None;
    }
    let mut acc: u64 = 0;
    let mut k: usize = 0;
    while k < s.len()
        invariant
            k <= s@.len(),
            s@.len() > 0,
            acc == hex_value(s@.subrange(0, k as int)),
            forall|q: int| 0 <= q < k ==> is_hex_digit(#[trigger] s@[q]),
        decreases s@.len() - k,
    {
        let b = s[k];
        match hex_digit_value(b) {
            None => {
                return None;
            },
            Some(d) => {
                if acc >= 0x1000_0000_0000_0000 {
                    proof {
                        lemma_hex_value_step(s@, k as int);
                        assert(hex_value(s@.subrange(0, k as int + 1)) >= acc * 16);
                        lemma_hex_value_grows(s@, k as int + 1);
                    }
                    return None;
                }
                proof {
                    lemma_hex_value_step(s@, k as int);
                }
                acc = acc * 16 + (d as u64);
            },
        }
        k = k + 1;
    }
    proof {
        assert(s@.subrange(0, s@.len() as int) =~= s@);
    }
    Some(acc)
}

fn parse_addr(t: &Vec<u8>) -> (r: Result<u64, ArgError>)
    ensures
        r == spec_parse_addr(t@),
{
    if !(t.len() >= 2 && t[0] == 48 && t[1] == 120) {
        return Err(ArgError::MissingPrefix);
    }
    let digits = copy_range(t.as_slice(), 2, t.len());
    match parse_hex_u64(digits.as_slice()) {
        Some(v) => Ok(v),
        None => Err(ArgError::BadHex),
    }
}

/// Parses one command line.
pub fn parse_command(line: &str) -> (r: Command)
    ensures
        r == spec_parse(line.spec_bytes()),
{
    let bytes = line.as_bytes();
    let tokens = tokenize(bytes);
    proof {
        assert(tokens.deep_view() == spec_tokens(line.spec_bytes()));
    }
    if tokens.len() == 0 {
        return Command::Unknown;
    }
    let t0 = &tokens[0];
    proof {
        assert(t0@ == tokens.deep_view()[0]);
    }
    if tok_is(t0, "c") || tok_is(t0, "continue") {
        Command::Continue
    } else if tok_is(t0, "s") || tok_is(t0, "syscall") {
        Command::Syscall
    } else if tok_is(t0, "n") || tok_is(t0, "next") {
        Command::Next
    } else if tok_is(t0, "r") || tok_is(t0, "registers") {
        Command::Registers
    } else if tok_is(t0, "m") || tok_is(t0, "memory") {
        if tokens.len() != 2 {
            Command::MemoryArg(ArgError::WrongCount)
        } else {
            proof {
                assert(tokens[1]@ == tokens.deep_view()[1]);
            }
            match parse_addr(&tokens[1]) {
                Ok(a) => Command::Memory(a),
                Err(e) => Command::MemoryArg(e),
            }
        }
    } else if tok_is(t0, "b") || tok_is(t0, "breakpoint") {
        if tokens.len() != 2 {
            Command::BreakpointArg(ArgError::WrongCount)
        } else {
            proof {
                assert(tokens[1]@ == tokens.deep_view()[1]);
            }
            match parse_addr(&tokens[1]) {
                Ok(a) => Command::Breakpoint(a),
                Err(e) => Command::BreakpointArg(e),
            }
        }
    } else if tok_is(t0, "h") || tok_is(t0, "help") {
        Command::Help
    } else if tok_is(t0, "q") || tok_is(t0, "quit") {
        Command::Quit
    } else {
        Command::Unknown
    }
}

} // verus!
