use vstd::prelude::*;

use vstd::string::StringSliceAdditionalSpecFns;

use crate::text::push_char;

verus! {

/// The unreserved set of RFC 3986: letters, digits and `-._~`.
pub open spec fn is_unreserved(b: u8) -> bool {
    ||| (65 <= b && b <= 90)
    ||| (97 <= b && b <= 122)
    ||| (48 <= b && b <= 57)
    ||| b == 45
    ||| b == 46
    ||| b == 95
    ||| b == 126
}

/// The upper-case hexadecimal digit for a value below sixteen.
pub open spec fn hex_digit(n: u8) -> char {
    if n < 10 {
        (48 + n) as char
    } else {
        (55 + n) as char
    }
}

/// What one byte becomes: itself when unreserved, else `%` and two digits.
pub open spec fn escape_byte(b: u8) -> Seq<char> {
    if is_unreserved(b) {
        seq![b as char]
    } else {
        seq!['%', hex_digit(b / 16), hex_digit(b % 16)]
    }
}

/// Percent-encoding of a byte sequence, byte by byte.
pub open spec fn escaped(bytes: Seq<u8>) -> Seq<char>
    decreases bytes.len(),
{
    if bytes.len() == 0 {
        seq![]
    } else {
        escape_byte(bytes[0]) + escaped(bytes.skip(1))
    }
}

proof fn lemma_escaped_append(a: Seq<u8>, b: Seq<u8>)
    ensures
        escaped(a + b) == escaped(a) + escaped(b),
    decreases a.len(),
{
    if a.len() == 0 {
        assert(a + b =~= b);
    } else {
        assert((a + b).skip(1) =~= a.skip(1) + b);
        lemma_escaped_append(a.skip(1), b);
        assert(escaped(a + b) =~= escaped(a) + escaped(b));
    }
}

fn hex_char(n: u8) -> (c: char)
    requires
        n < 16,
    ensures
        c == hex_digit(n),
{
    if n < 10 {
        (48 + n) as char
    } else {
        (55 + n) as char
    }
}

/// Percent-encodes every byte of `value` outside the unreserved set of
/// RFC 3986, so the value cannot climb out of its path segment.
pub fn escape(value: &str) -> (r: String)
    ensures
        r@ == escaped(value.spec_bytes()),
{
    let bytes = value.as_bytes();
    let mut out = String::new();
    let mut i: usize = 0;
    while i < bytes.len()
        invariant
            i <= bytes@.len(),
            bytes@ == value.spec_bytes(),
            out@ == escaped(bytes@.take(i as int)),
        decreases bytes@.len() - i,
    {
        let b = bytes[i];
        proof {
            assert(bytes@.take(i + 1) =~= bytes@.take(i as int) + seq![b]);
            lemma_escaped_append(bytes@.take(i as int), seq![b]);
            assert(seq![b].skip(1) =~= Seq::<u8>::empty());
            assert(escaped(Seq::<u8>::empty()) == Seq::<char>::empty());
            assert(seq![b][0] == b);
            assert(escaped(seq![b]) =~= escape_byte(b));
        }
        if (65 <= b && b <= 90) || (97 <= b && b <= 122) || (48 <= b && b <= 57) || b == 45
            || b == 46 || b == 95 || b == 126 {
            push_char(&mut out, b as char);
        } else {
            push_char(&mut out, '%');
            push_char(&mut out, hex_char(b / 16));
            push_char(&mut out, hex_char(b % 16));
        }
        assert(out@ =~= escaped(bytes@.take(i as int)) + escape_byte(b));
        i += 1;
    }
    assert(bytes@.take(i as int) =~= bytes@);
    out
}


/// The value of a hexadecimal digit, upper case.
pub open spec fn hex_value(c: char) -> int {
    if '0' <= c && c <= '9' {
        c as int - 48
    } else {
        c as int - 55
    }
}

/// Percent-decoding: `%` and two digits become one byte, any other
/// character stands for itself.
pub open spec fn unescaped(cs: Seq<char>) -> Seq<u8>
    decreases cs.len(),
{
    if cs.len() == 0 {
        seq![]
    } else if cs[0] == '%' && cs.len() >= 3 {
        seq![(16 * hex_value(cs[1]) + hex_value(cs[2])) as u8] + unescaped(cs.skip(3))
    } else {
        seq![cs[0] as u8] + unescaped(cs.skip(1))
    }
}

/// A character that may stand in an escaped path segment: an unreserved
/// character of RFC 3986, or the `%` that starts an escape.
pub open spec fn is_segment_char(c: char) -> bool {
    ||| ('A' <= c && c <= 'Z')
    ||| ('a' <= c && c <= 'z')
    ||| ('0' <= c && c <= '9')
    ||| c == '-'
    ||| c == '.'
    ||| c == '_'
    ||| c == '~'
    ||| c == '%'
}

/// Percent-decoding an escaped value gives back exactly the bytes it was
/// made from, so escaping loses nothing and two values never share an
/// escape.
pub proof fn lemma_escape_round_trip(bytes: Seq<u8>)
    ensures
        unescaped(escaped(bytes)) == bytes,
    decreases bytes.len(),
{
    if bytes.len() > 0 {
        let b = bytes[0];
        let rest = bytes.skip(1);
        lemma_escape_round_trip(rest);
        let e = escaped(bytes);
        assert(e == escape_byte(b) + escaped(rest));
        if is_unreserved(b) {
            assert(e[0] == b as char);
            assert(e.skip(1) =~= escaped(rest));
            assert((b as char) as u8 == b);
        } else {
            let hi = b / 16;
            let lo = b % 16;
            assert(e[0] == '%');
            assert(e[1] == hex_digit(hi));
            assert(e[2] == hex_digit(lo));
            assert(e.skip(3) =~= escaped(rest));
            assert(hex_value(hex_digit(hi)) == hi as int);
            assert(hex_value(hex_digit(lo)) == lo as int);
            assert((16 * (hi as int) + lo as int) as u8 == b);
        }
        assert(unescaped(e) =~= bytes);
    }
}

/// Two strings with the same escape are the same string.
pub proof fn lemma_escape_injective(a: Seq<char>, b: Seq<char>)
    requires
        escaped(vstd::utf8::encode_utf8(a)) == escaped(vstd::utf8::encode_utf8(b)),
    ensures
        a == b,
{
    lemma_escape_round_trip(vstd::utf8::encode_utf8(a));
    lemma_escape_round_trip(vstd::utf8::encode_utf8(b));
    vstd::utf8::encode_utf8_decode_utf8(a);
    vstd::utf8::encode_utf8_decode_utf8(b);
}

/// Every character of an escaped value is unreserved or `%`: no `/`, `?`
/// or `#` survives, so the value stays inside its path segment.
pub proof fn lemma_escape_stays_in_segment(bytes: Seq<u8>)
    ensures
        forall|i: int| 0 <= i < escaped(bytes).len() ==> is_segment_char(#[trigger] escaped(bytes)[i]),
    decreases bytes.len(),
{
    if bytes.len() > 0 {
        let b = bytes[0];
        lemma_escape_stays_in_segment(bytes.skip(1));
        let head = escape_byte(b);
        assert(escaped(bytes) == head + escaped(bytes.skip(1)));
        assert forall|i: int| 0 <= i < head.len() implies is_segment_char(head[i]) by {
            if is_unreserved(b) {
                assert(is_segment_char(b as char));
            }
        }
    }
}

/// A value made only of unreserved characters comes out unchanged.
pub proof fn lemma_escape_keeps_unreserved(bytes: Seq<u8>)
    requires
        forall|i: int| 0 <= i < bytes.len() ==> is_unreserved(#[trigger] bytes[i]),
    ensures
        escaped(bytes) == bytes.map_values(|b: u8| b as char),
    decreases bytes.len(),
{
    if bytes.len() > 0 {
        lemma_escape_keeps_unreserved(bytes.skip(1));
        assert(is_unreserved(bytes[0]));
        assert(escaped(bytes) =~= bytes.map_values(|b: u8| b as char));
    }
}

} // verus!
