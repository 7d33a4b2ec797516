//! Decimal rendering of integers and the `{"op":..,"d":..}` frame
//! envelope, with a parser of the envelope and the proof that parsing
//! inverts framing.

use vstd::prelude::*;
use vstd::string::StringExecFns;

verus! {

/// Character of one decimal digit value.
pub open spec fn dec_digit(d: nat) -> char
    recommends
        d < 10,
{
    if d == 0 {
        '0'
    } else if d == 1 {
        '1'
    } else if d == 2 {
        '2'
    } else if d == 3 {
        '3'
    } else if d == 4 {
        '4'
    } else if d == 5 {
        '5'
    } else if d == 6 {
        '6'
    } else if d == 7 {
        '7'
    } else if d == 8 {
        '8'
    } else {
        '9'
    }
}

/// Decimal text of a natural number, most significant digit first and
/// without a sign or leading zeros (`0` itself is the single digit `0`).
pub open spec fn dec_digits(n: nat) -> Seq<char>
    decreases n,
{
    if n < 10 {
        seq![dec_digit(n)]
    } else {
        dec_digits(n / 10) + seq![dec_digit(n % 10)]
    }
}

/// Decimal text of a signed number: a `-` sign before the magnitude
/// when negative.
pub open spec fn int_digits(n: int) -> Seq<char> {
    if n < 0 {
        seq!['-'] + dec_digits((-n) as nat)
    } else {
        dec_digits(n as nat)
    }
}

pub open spec fn is_dec_digit(c: char) -> bool {
    '0' <= c && c <= '9'
}

/// Numeric value of a sequence of decimal digits, read left to right.
pub open spec fn dec_value(s: Seq<char>) -> nat
    decreases s.len(),
{
    if s.len() == 0 {
        0
    } else {
        dec_value(s.drop_last()) * 10 + dec_digit_value(s.last())
    }
}

pub open spec fn dec_digit_value(c: char) -> nat {
    if c == '0' {
        0
    } else if c == '1' {
        1
    } else if c == '2' {
        2
    } else if c == '3' {
        3
    } else if c == '4' {
        4
    } else if c == '5' {
        5
    } else if c == '6' {
        6
    } else if c == '7' {
        7
    } else if c == '8' {
        8
    } else {
        9
    }
}

/// Every character of a decimal rendering is a digit.
pub proof fn lemma_dec_digits_are_digits(n: nat)
    ensures
        forall|i: int| 0 <= i < dec_digits(n).len() ==> is_dec_digit(#[trigger] dec_digits(n)[i]),
    decreases n,
{
    if n < 10 {
        assert(dec_digits(n) =~= seq![dec_digit(n)]);
        assert(is_dec_digit(dec_digit(n)));
    } else {
        lemma_dec_digits_are_digits(n / 10);
        let hi = dec_digits(n / 10);
        let s = hi + seq![dec_digit(n % 10)];
        assert(dec_digits(n) == s);
        assert forall|i: int| 0 <= i < s.len() implies is_dec_digit(#[trigger] s[i]) by {
            if i < hi.len() {
                assert(s[i] == hi[i]);
            } else {
                assert(s[i] == dec_digit(n % 10));
                assert(is_dec_digit(dec_digit(n % 10)));
            }
        }
    }
}

/// Reading a decimal rendering back yields the number it renders.
pub proof fn lemma_dec_value_round_trip(n: nat)
    ensures
        dec_value(dec_digits(n)) == n,
    decreases n,
{
    if n < 10 {
        let s = seq![dec_digit(n)];
        assert(dec_digits(n) =~= s);
        assert(s.drop_last() =~= Seq::<char>::empty());
        assert(dec_value(s.drop_last()) == 0);
        assert(dec_value(s) == dec_digit_value(dec_digit(n)));
    } else {
        lemma_dec_value_round_trip(n / 10);
        let s = dec_digits(n / 10) + seq![dec_digit(n % 10)];
        assert(s.drop_last() =~= dec_digits(n / 10));
        assert(s.last() == dec_digit(n % 10));
        assert(dec_digit_value(dec_digit(n % 10)) == n % 10);
    }
}

fn digit_str(d: u64) -> (s: &'static str)
    requires
        d < 10,
    ensures
        s@ == seq![dec_digit(d as nat)],
{
    proof {
        reveal_strlit("0");
        reveal_strlit("1");
        reveal_strlit("2");
        reveal_strlit("3");
        reveal_strlit("4");
        reveal_strlit("5");
        reveal_strlit("6");
        reveal_strlit("7");
        reveal_strlit("8");
        reveal_strlit("9");
    }
    let s: &'static str = if d == 0 {
        "0"
    } else if d == 1 {
        "1"
    } else if d == 2 {
        "2"
    } else if d == 3 {
        "3"
    } else if d == 4 {
        "4"
    } else if d == 5 {
        "5"
    } else if d == 6 {
        "6"
    } else if d == 7 {
        "7"
    } else if d == 8 {
        "8"
    } else {
        "9"
    };
    proof {
        assert(s@ =~= seq![dec_digit(d as nat)]);
    }
    s
}

/// Renders a number as decimal text.
pub fn u64_text(n: u64) -> (s: String)
    ensures
        s@ == dec_digits(n as nat),
    decreases n,
{
    if n < 10 {
        digit_str(n).to_owned()
    } else {
        let hi = u64_text(n / 10);
        let s = hi.concat(digit_str(n % 10));
        proof {
            assert(s@ =~= dec_digits(n as nat));
        }
        s
    }
}

/// Renders a signed number as decimal text.
pub fn i64_text(n: i64) -> (s: String)
    ensures
        s@ == int_digits(n as int),
{
    if n >= 0 {
        u64_text(n as u64)
    } else {
        let m: u64 = (-(n as i128)) as u64;
        let mut out = "-".to_owned();
        proof {
            reveal_strlit("-");
            assert("-"@ =~= seq!['-']);
        }
        out.append(u64_text(m).as_str());
        proof {
            assert(out@ =~= int_digits(n as int));
        }
        out
    }
}

/// Text of one gateway frame: the envelope holding an opcode and the
/// already-rendered data text.
pub open spec fn frame_text(op: u64, d: Seq<char>) -> Seq<char> {
    frame_prefix() + dec_digits(op as nat) + frame_mid() + d + seq!['}']
}

pub open spec fn frame_prefix() -> Seq<char> {
    seq!['{', '"', 'o', 'p', '"', ':']
}

pub open spec fn frame_mid() -> Seq<char> {
    seq![',', '"', 'd', '"', ':']
}

/// First position at or after `i` that does not hold a decimal digit.
pub open spec fn scan_digits(s: Seq<char>, i: int) -> int
    recommends
        0 <= i <= s.len(),
    decreases s.len() - i when 0 <= i <= s.len()
{
    if i < s.len() && is_dec_digit(s[i]) {
        scan_digits(s, i + 1)
    } else {
        i
    }
}

/// Reads a frame envelope back: the opcode value and the data text, or
/// nothing when the text is not a frame.
pub open spec fn parse_frame(s: Seq<char>) -> Option<(nat, Seq<char>)> {
    let e = scan_digits(s, 6);
    if s.len() >= 13 && s.subrange(0, 6) == frame_prefix() && e > 6 && e + 5 <= s.len() - 1
        && s.subrange(e, e + 5) == frame_mid() && s.last() == '}' {
        Some((dec_value(s.subrange(6, e)), s.subrange(e + 5, s.len() - 1)))
    } else {
        None
    }
}

proof fn lemma_scan_digits_of_digits(s: Seq<char>, i: int, e: int)
    requires
        0 <= i <= e <= s.len(),
        forall|j: int| i <= j < e ==> is_dec_digit(#[trigger] s[j]),
        e == s.len() || !is_dec_digit(s[e]),
    ensures
        scan_digits(s, i) == e,
    decreases e - i,
{
    if i < e {
        lemma_scan_digits_of_digits(s, i + 1, e);
    }
}

/// Parsing a framed envelope yields exactly the opcode and data text
/// that built it, whatever characters the data text holds.
pub proof fn lemma_frame_round_trip(op: u64, d: Seq<char>)
    ensures
        parse_frame(frame_text(op, d)) == Some((op as nat, d)),
{
    let s = frame_text(op, d);
    let nd = dec_digits(op as nat).len() as int;
    lemma_dec_digits_are_digits(op as nat);
    assert(dec_digits(op as nat).len() >= 1) by {
        lemma_dec_digits_len(op as nat);
    }
    assert(s.subrange(0, 6) =~= frame_prefix());
    assert forall|j: int| 6 <= j < 6 + nd implies is_dec_digit(#[trigger] s[j]) by {
        assert(s[j] == dec_digits(op as nat)[j - 6]);
    }
    assert(s[6 + nd] == ',');
    assert(!is_dec_digit(s[6 + nd]));
    lemma_scan_digits_of_digits(s, 6, 6 + nd);
    let e = scan_digits(s, 6);
    assert(e == 6 + nd);
    assert(s.subrange(e, e + 5) =~= frame_mid());
    assert(s.last() == '}');
    assert(s.subrange(6, e) =~= dec_digits(op as nat));
    lemma_dec_value_round_trip(op as nat);
    assert(s.subrange(e + 5, s.len() - 1) =~= d);
}

/// A decimal rendering holds at least one character.
pub proof fn lemma_dec_digits_len(n: nat)
    ensures
        dec_digits(n).len() >= 1,
    decreases n,
{
    if n >= 10 {
        lemma_dec_digits_len(n / 10);
    }
}

/// Builds the frame envelope around rendered data text.
pub fn frame(op: u64, d: &str) -> (s: String)
    ensures
        s@ == frame_text(op, d@),
{
    let mut out = "{\"op\":".to_owned();
    proof {
        reveal_strlit("{\"op\":");
        assert(out@ =~= frame_prefix());
    }
    let num = u64_text(op);
    out.append(num.as_str());
    out.append(",\"d\":");
    proof {
        reveal_strlit(",\"d\":");
        assert(",\"d\":"@ =~= frame_mid());
    }
    out.append(d);
    out.append("}");
    proof {
        reveal_strlit("}");
        assert("}"@ =~= seq!['}']);
        assert(out@ =~= frame_text(op, d@));
    }
    out
}

} // verus!
