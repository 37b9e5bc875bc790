//! Percent-encoding of free-form query values.
//!
//! Unreserved characters (letters, digits, `-`, `.`, `_`, `~`) pass through
//! unchanged; every other character is written as one `%HH` triple per byte
//! of its UTF-8 encoding, with upper-case hexadecimal digits.

use vstd::prelude::*;
use vstd::string::StrSliceExecFns;
use vstd::string::StringExecFns;

verus! {

/// Whether the character with code point `cp` may stand in a query value
/// without being escaped.
pub open spec fn is_unreserved_cp(cp: int) -> bool {
    ||| 97 <= cp <= 122  // 'a' ..= 'z'
    ||| 65 <= cp <= 90  // 'A' ..= 'Z'
    ||| 48 <= cp <= 57  // '0' ..= '9'
    ||| cp == 45  // '-'
    ||| cp == 46  // '.'
    ||| cp == 95  // '_'
    ||| cp == 126  // '~'
}

/// The single upper-case hexadecimal digit for a value below sixteen.
pub open spec fn spec_hex_digit(d: int) -> Seq<char> {
    if d == 0 {
        "0"@
    } else if d == 1 {
        "1"@
    } else if d == 2 {
        "2"@
    } else if d == 3 {
        "3"@
    } else if d == 4 {
        "4"@
    } else if d == 5 {
        "5"@
    } else if d == 6 {
        "6"@
    } else if d == 7 {
        "7"@
    } else if d == 8 {
        "8"@
    } else if d == 9 {
        "9"@
    } else if d == 10 {
        "A"@
    } else if d == 11 {
        "B"@
    } else if d == 12 {
        "C"@
    } else if d == 13 {
        "D"@
    } else if d == 14 {
        "E"@
    } else {
        "F"@
    }
}

/// The UTF-8 encoding of the code point `cp`, as byte values.
pub open spec fn utf8_cp_bytes(cp: int) -> Seq<int> {
    if cp < 0x80 {
        seq![cp]
    } else if cp < 0x800 {
        seq![0xC0 + cp / 64, 0x80 + cp % 64]
    } else if cp < 0x10000 {
        seq![0xE0 + cp / 4096, 0x80 + (cp / 64) % 64, 0x80 + cp % 64]
    } else {
        seq![0xF0 + cp / 262144, 0x80 + (cp / 4096) % 64, 0x80 + (cp / 64) % 64, 0x80 + cp % 64]
    }
}

/// The `%HH` escape for one byte value.
pub open spec fn spec_pct_byte(b: int) -> Seq<char> {
    "%"@ + spec_hex_digit(b / 16) + spec_hex_digit(b % 16)
}

/// The `%HH` escapes for a sequence of byte values, in order.
pub open spec fn spec_pct_bytes(bs: Seq<int>) -> Seq<char>
    decreases bs.len(),
{
    if bs.len() == 0 {
        Seq::empty()
    } else {
        spec_pct_bytes(bs.drop_last()) + spec_pct_byte(bs.last())
    }
}

/// How one character appears in an encoded query value.
pub open spec fn spec_encode_char(c: char) -> Seq<char> {
    if is_unreserved_cp(c as int) {
        seq![c]
    } else {
        spec_pct_bytes(utf8_cp_bytes(c as int))
    }
}

/// How a whole string appears in an encoded query value: each character
/// encoded in turn.
pub open spec fn spec_percent_encode(s: Seq<char>) -> Seq<char>
    decreases s.len(),
{
    if s.len() == 0 {
        Seq::empty()
    } else {
        spec_percent_encode(s.drop_last()) + spec_encode_char(s.last())
    }
}

/// Relies on String::push: appends exactly the given character at the end.
#[verifier::external_body]
fn push_char(out: &mut String, c: char)
    ensures
        final(out)@ == old(out)@ + seq![c],
{
    out.push(c);
}

fn hex_digit_str(d: u8) -> (r: &'static str)
    requires
        d < 16,
    ensures
        r@ == spec_hex_digit(d as int),
{
    if d == 0 {
        "0"
    } else if d == 1 {
        "1"
    } else if d == 2 {
        "2"
    } else if d == 3 {
        "3"
    } else if d == 4 {
        "4"
    } else if d == 5 {
        "5"
    } else if d == 6 {
        "6"
    } else if d == 7 {
        "7"
    } else if d == 8 {
        "8"
    } else if d == 9 {
        "9"
    } else if d == 10 {
        "A"
    } else if d == 11 {
        "B"
    } else if d == 12 {
        "C"
    } else if d == 13 {
        "D"
    } else if d == 14 {
        "E"
    } else {
        "F"
    }
}

fn push_pct_byte(out: &mut String, b: u8)
    ensures
        final(out)@ == old(out)@ + spec_pct_byte(b as int),
{
    out.append("%");
    out.append(hex_digit_str(b / 16));
    out.append(hex_digit_str(b % 16));
    proof {
        assert(out@ =~= old(out)@ + spec_pct_byte(b as int));
    }
}

fn push_encoded_char(out: &mut String, c: char)
    ensures
        final(out)@ == old(out)@ + spec_encode_char(c),
{
    proof {
        assert(c as int == (c as u32) as int);
    }
    let n = c as u32;
    if (97 <= n && n <= 122) || (65 <= n && n <= 90) || (48 <= n && n <= 57) || n == 45 || n == 46
        || n == 95 || n == 126 {
        push_char(out, c);
        proof {
            assert(is_unreserved_cp(c as int));
        }
    } else if n < 0x80 {
        push_pct_byte(out, n as u8);
        proof {
            reveal_with_fuel(spec_pct_bytes, 6);
            assert(utf8_cp_bytes(c as int) =~= seq![c as int]);
            assert(seq![c as int].drop_last() =~= Seq::<int>::empty());
            assert(out@ =~= old(out)@ + spec_encode_char(c));
        }
    } else if n < 0x800 {
        let b0 = (0xC0 + n / 64) as u8;
        let b1 = (0x80 + n % 64) as u8;
        push_pct_byte(out, b0);
        push_pct_byte(out, b1);
        proof {
            reveal_with_fuel(spec_pct_bytes, 6);
            let bs = utf8_cp_bytes(c as int);
            assert(bs =~= seq![b0 as int, b1 as int]);
            assert(bs.drop_last() =~= seq![b0 as int]);
            assert(seq![b0 as int].drop_last() =~= Seq::<int>::empty());
            assert(out@ =~= old(out)@ + spec_encode_char(c));
        }
    } else if n < 0x10000 {
        let b0 = (0xE0 + n / 4096) as u8;
        let b1 = (0x80 + (n / 64) % 64) as u8;
        let b2 = (0x80 + n % 64) as u8;
        push_pct_byte(out, b0);
        push_pct_byte(out, b1);
        push_pct_byte(out, b2);
        proof {
            reveal_with_fuel(spec_pct_bytes, 6);
            let bs = utf8_cp_bytes(c as int);
            assert(bs =~= seq![b0 as int, b1 as int, b2 as int]);
            assert(bs.drop_last() =~= seq![b0 as int, b1 as int]);
            assert(seq![b0 as int, b1 as int].drop_last() =~= seq![b0 as int]);
            assert(seq![b0 as int].drop_last() =~= Seq::<int>::empty());
            assert(out@ =~= old(out)@ + spec_encode_char(c));
        }
    } else {
        let b0 = (0xF0 + n / 262144) as u8;
        let b1 = (0x80 + (n / 4096) % 64) as u8;
        let b2 = (0x80 + (n / 64) % 64) as u8;
        let b3 = (0x80 + n % 64) as u8;
        push_pct_byte(out, b0);
        push_pct_byte(out, b1);
        push_pct_byte(out, b2);
        push_pct_byte(out, b3);
        proof {
            reveal_with_fuel(spec_pct_bytes, 6);
            let bs = utf8_cp_bytes(c as int);
            assert(bs =~= seq![b0 as int, b1 as int, b2 as int, b3 as int]);
            assert(bs.drop_last() =~= seq![b0 as int, b1 as int, b2 as int]);
            assert(seq![b0 as int, b1 as int, b2 as int].drop_last() =~= seq![b0 as int, b1 as int]);
            assert(seq![b0 as int, b1 as int].drop_last() =~= seq![b0 as int]);
            assert(seq![b0 as int].drop_last() =~= Seq::<int>::empty());
            assert(out@ =~= old(out)@ + spec_encode_char(c));
        }
    }
}

/// Concatenation of character sequences is associative.
pub proof fn lemma_add_assoc(a: Seq<char>, b: Seq<char>, c: Seq<char>)
    ensures
        (a + b) + c == a + (b + c),
{
    assert((a + b) + c =~= a + (b + c));
}

/// The empty sequence is a left identity of concatenation.
pub proof fn lemma_add_empty_left(a: Seq<char>)
    ensures
        Seq::<char>::empty() + a == a,
{
    assert(Seq::<char>::empty() + a =~= a);
}

/// The empty sequence is a right identity of concatenation.
pub proof fn lemma_add_empty_right(a: Seq<char>)
    ensures
        a + Seq::<char>::empty() == a,
{
    assert(a + Seq::<char>::empty() =~= a);
}

/// The decimal digits of a non-negative number, most significant first,
/// with no leading zero except for zero itself. A digit below ten reads
/// the same in `spec_hex_digit`.
pub open spec fn spec_decimal(n: int) -> Seq<char>
    decreases n,
{
    if n < 10 {
        spec_hex_digit(n)
    } else {
        spec_decimal(n / 10) + spec_hex_digit(n % 10)
    }
}

/// Appends the decimal rendering of `n` onto `out`.
pub fn push_decimal(out: &mut String, n: u64)
    ensures
        final(out)@ == old(out)@ + spec_decimal(n as int),
    decreases n,
{
    if n < 10 {
        out.append(hex_digit_str(n as u8));
    } else {
        push_decimal(out, n / 10);
        out.append(hex_digit_str((n % 10) as u8));
        proof {
            lemma_add_assoc(old(out)@, spec_decimal(n as int / 10), spec_hex_digit(n as int % 10));
        }
    }
}

/// A string of unreserved characters is unchanged by percent-encoding.
pub proof fn lemma_percent_encode_unreserved(s: Seq<char>)
    requires
        forall|i: int| 0 <= i < s.len() ==> is_unreserved_cp(#[trigger] s[i] as int),
    ensures
        spec_percent_encode(s) == s,
    decreases s.len(),
{
    if s.len() == 0 {
        assert(spec_percent_encode(s) =~= s);
    } else {
        lemma_percent_encode_unreserved(s.drop_last());
        assert(is_unreserved_cp(s[s.len() - 1] as int));
        assert(spec_percent_encode(s) =~= s);
    }
}

/// Appends the percent-encoded form of `s` onto `out`.
pub fn percent_encode_onto(out: &mut String, s: &str)
    ensures
        final(out)@ == old(out)@ + spec_percent_encode(s@),
{
    let len = s.unicode_len();
    let mut i: usize = 0;
    while i < len
        invariant
            i <= len,
            len == s@.len(),
            out@ == old(out)@ + spec_percent_encode(s@.take(i as int)),
        decreases len - i,
    {
        let c = s.get_char(i);
        push_encoded_char(out, c);
        proof {
            assert(s@.take(i as int + 1).drop_last() =~= s@.take(i as int));
            assert(s@.take(i as int + 1).last() == c);
            assert(out@ =~= old(out)@ + spec_percent_encode(s@.take(i as int + 1)));
        }
        i = i + 1;
    }
    proof {
        assert(s@.take(len as int) =~= s@);
    }
}

/// The percent-encoded form of `s`.
pub fn percent_encode(s: &str) -> (r: String)
    ensures
        r@ == spec_percent_encode(s@),
{
    let mut out = String::new();
    percent_encode_onto(&mut out, s);
    proof {
        assert(Seq::<char>::empty() + spec_percent_encode(s@) =~= spec_percent_encode(s@));
    }
    out
}

} // verus!
