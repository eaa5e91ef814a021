//! Rendering of scalar values and key-value pairs into a URL query string.
//!
//! The escaping follows the WHATWG query percent-encode set as the vendor's
//! query-string API expects it: ASCII alphanumerics and most punctuation pass
//! through, a space becomes `+`, and control bytes, `"`, `#`, `<`, `>`, `%`,
//! `+`, `[`, `]`, `=`, `&` and every non-ASCII byte of the UTF-8 encoding
//! become an uppercase `%XX` escape.
use vstd::prelude::*;

verus! {

use vstd::string::StringExecFns;
use vstd::string::StrSliceExecFns;
use vstd::utf8::encode_utf8;

/// Relies on `String::push`: appends the given character to the string.
pub assume_specification[ String::push ](s: &mut String, ch: char)
    ensures
        final(s)@ == old(s)@.push(ch),
;

/// The view of a list of string pairs as a sequence of character-sequence pairs.
pub open spec fn pairs_view(ps: Seq<(String, String)>) -> Seq<(Seq<char>, Seq<char>)> {
    ps.map_values(|p: (String, String)| (p.0@, p.1@))
}

// ---------------------------------------------------------------------------
// Decimal rendering
// ---------------------------------------------------------------------------
/// The decimal digit character for a value below ten.
pub open spec fn dec_digit(d: int) -> char {
    if d == 0 {
        '0'
    } else if d == 1 {
        '1'
    } else if d == 2 {
        '2'
    } else if d == 3 {
        '3'
    } else if d == 4 {
        '4'
    } else if d == 5 {
        '5'
    } else if d == 6 {
        '6'
    } else if d == 7 {
        '7'
    } else if d == 8 {
        '8'
    } else {
        '9'
    }
}

/// The decimal rendering of a natural number, most significant digit first.
pub open spec fn dec_nat(n: nat) -> Seq<char>
    decreases n,
{
    if n < 10 {
        seq![dec_digit(n as int)]
    } else {
        dec_nat(n / 10) + seq![dec_digit((n % 10) as int)]
    }
}

/// The decimal rendering of an integer, with a leading minus sign if negative.
pub open spec fn dec_int(n: int) -> Seq<char> {
    if n >= 0 {
        dec_nat(n as nat)
    } else {
        seq!['-'] + dec_nat((-n) as nat)
    }
}

fn digit_char(d: u64) -> (c: char)
    requires
        d < 10,
    ensures
        c == dec_digit(d as int),
{
    if d == 0 {
        '0'
    } else if d == 1 {
        '1'
    } else if d == 2 {
        '2'
    } else if d == 3 {
        '3'
    } else if d == 4 {
        '4'
    } else if d == 5 {
        '5'
    } else if d == 6 {
        '6'
    } else if d == 7 {
        '7'
    } else if d == 8 {
        '8'
    } else {
        '9'
    }
}

/// Renders an unsigned value in decimal.
pub fn u64_to_dec(n: u64) -> (s: String)
    ensures
        s@ == dec_nat(n as nat),
    decreases n,
{
    if n < 10 {
        let mut s = String::new();
        s.push(digit_char(n));
        proof {
            assert(s@ =~= dec_nat(n as nat));
        }
        s
    } else {
        let mut s = u64_to_dec(n / 10);
        s.push(digit_char(n % 10));
        proof {
            assert(s@ =~= dec_nat(n as nat));
        }
        s
    }
}

/// Renders a signed value in decimal.
pub fn i64_to_dec(n: i64) -> (s: String)
    ensures
        s@ == dec_int(n as int),
{
    if n >= 0 {
        u64_to_dec(n as u64)
    } else {
        let mag: u64 = ((-(n + 1)) as u64) + 1;
        let mut s = String::new();
        s.push('-');
        let digits = u64_to_dec(mag);
        s.append(digits.as_str());
        proof {
            assert(s@ =~= dec_int(n as int));
        }
        s
    }
}

// ---------------------------------------------------------------------------
// Percent-escaping
// ---------------------------------------------------------------------------
/// The uppercase hexadecimal digit character for a value below sixteen.
pub open spec fn hex_digit(d: int) -> char {
    if d < 10 {
        dec_digit(d)
    } else if d == 10 {
        'A'
    } else if d == 11 {
        'B'
    } else if d == 12 {
        'C'
    } else if d == 13 {
        'D'
    } else if d == 14 {
        'E'
    } else {
        'F'
    }
}

/// True for the bytes that pass into the query string unchanged: printable
/// ASCII except space and the query-delimiter characters.
pub open spec fn is_plain_byte(b: u8) -> bool {
    0x20 < b < 0x7f && b != 0x22 && b != 0x23 && b != 0x3c && b != 0x3e && b != 0x25 && b != 0x2b
        && b != 0x5b && b != 0x5d && b != 0x3d && b != 0x26
}

/// The query-string rendering of one byte of a UTF-8 encoded key or value.
pub open spec fn escape_byte(b: u8) -> Seq<char> {
    if b == 0x20 {
        seq!['+']
    } else if is_plain_byte(b) {
        seq![b as char]
    } else {
        seq!['%', hex_digit(b as int / 16), hex_digit(b as int % 16)]
    }
}

/// The query-string rendering of a byte sequence.
pub open spec fn escape_bytes(bs: Seq<u8>) -> Seq<char>
    decreases bs.len(),
{
    if bs.len() == 0 {
        Seq::empty()
    } else {
        escape_bytes(bs.drop_last()) + escape_byte(bs.last())
    }
}

/// The query-string rendering of a string: its UTF-8 bytes, escaped.
pub open spec fn escape_str(s: Seq<char>) -> Seq<char> {
    escape_bytes(encode_utf8(s))
}

fn hex_char(d: u8) -> (c: char)
    requires
        d < 16,
    ensures
        c == hex_digit(d as int),
{
    if d < 10 {
        digit_char(d as u64)
    } else if d == 10 {
        'A'
    } else if d == 11 {
        'B'
    } else if d == 12 {
        'C'
    } else if d == 13 {
        'D'
    } else if d == 14 {
        'E'
    } else {
        'F'
    }
}

fn push_escaped_byte(out: &mut String, b: u8)
    ensures
        final(out)@ == old(out)@ + escape_byte(b),
{
    if b == 0x20 {
        out.push('+');
        proof {
            assert(out@ =~= old(out)@ + escape_byte(b));
        }
    } else if 0x20 < b && b < 0x7f && b != 0x22 && b != 0x23 && b != 0x3c && b != 0x3e && b != 0x25
        && b != 0x2b && b != 0x5b && b != 0x5d && b != 0x3d && b != 0x26 {
        out.push(b as char);
        proof {
            assert(out@ =~= old(out)@ + escape_byte(b));
        }
    } else {
        out.push('%');
        out.push(hex_char(b / 16));
        out.push(hex_char(b % 16));
        proof {
            assert(out@ =~= old(out)@ + escape_byte(b));
        }
    }
}

/// Appends the query-string rendering of `s` to `out`.
fn push_escaped(out: &mut String, s: &str)
    ensures
        final(out)@ == old(out)@ + escape_str(s@),
{
    let bs = s.as_bytes_vec();
    let mut i: usize = 0;
    while i < bs.len()
        invariant
            i <= bs.len(),
            bs@ == encode_utf8(s@),
            out@ == old(out)@ + escape_bytes(bs@.subrange(0, i as int)),
        decreases bs.len() - i,
    {
        push_escaped_byte(out, bs[i]);
        proof {
            let pre = bs@.subrange(0, i + 1);
            assert(pre.drop_last() =~= bs@.subrange(0, i as int));
            assert(out@ =~= old(out)@ + escape_bytes(pre));
        }
        i += 1;
    }
    proof {
        assert(bs@.subrange(0, bs@.len() as int) =~= bs@);
    }
}

// ---------------------------------------------------------------------------
// Whole query strings
// ---------------------------------------------------------------------------
/// The `key=value` rendering of one pair, both sides escaped.
pub open spec fn pair_str(p: (Seq<char>, Seq<char>)) -> Seq<char> {
    escape_str(p.0) + seq!['='] + escape_str(p.1)
}

/// The query string for a pair list: `key=value` groups joined by `&`.
/// An empty list renders as the empty string.
pub open spec fn qs_of(ps: Seq<(Seq<char>, Seq<char>)>) -> Seq<char>
    decreases ps.len(),
{
    if ps.len() == 0 {
        Seq::empty()
    } else if ps.len() == 1 {
        pair_str(ps[0])
    } else {
        qs_of(ps.drop_last()) + seq!['&'] + pair_str(ps.last())
    }
}

/// Renders a pair list as a query string.
pub fn encode_query(pairs: &Vec<(String, String)>) -> (r: String)
    ensures
        r@ == qs_of(pairs_view(pairs@)),
{
    let mut out = String::new();
    let mut i: usize = 0;
    while i < pairs.len()
        invariant
            i <= pairs.len(),
            out@ == qs_of(pairs_view(pairs@).subrange(0, i as int)),
        decreases pairs.len() - i,
    {
        if i > 0 {
            out.push('&');
        }
        push_escaped(&mut out, pairs[i].0.as_str());
        out.push('=');
        push_escaped(&mut out, pairs[i].1.as_str());
        proof {
            let all = pairs_view(pairs@);
            let pre = all.subrange(0, i + 1);
            assert(pre.drop_last() =~= all.subrange(0, i as int));
            assert(pre.last() == (pairs@[i as int].0@, pairs@[i as int].1@));
            assert(out@ =~= qs_of(pre));
        }
        i += 1;
    }
    proof {
        assert(pairs_view(pairs@).subrange(0, pairs@.len() as int) =~= pairs_view(pairs@));
    }
    out
}

} // verus!
