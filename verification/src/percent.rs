//! Percent-encoding of a string for use inside a URL component.
//!
//! The encoding works on the UTF-8 bytes of the string: every byte except the
//! ASCII alphanumerics and `-`, `.`, `_`, `~` is written as `%` followed by
//! two uppercase hexadecimal digits.

use vstd::prelude::*;
use vstd::string::StrSliceExecFns;
use vstd::utf8::encode_utf8;

verus! {

/// A byte that percent-encoding leaves as itself: an ASCII alphanumeric
/// or one of `-`, `.`, `_`, `~`.
pub open spec fn is_unreserved_byte(b: u8) -> bool {
    (48 <= b <= 57)  // '0' ..= '9'
    || (65 <= b <= 90)  // 'A' ..= 'Z'
    || (97 <= b <= 122)  // 'a' ..= 'z'
    || b == 45  // '-'
    || b == 46  // '.'
    || b == 95  // '_'
    || b == 126  // '~'
}

/// The uppercase hexadecimal digit for a value below 16.
pub open spec fn hex_digit(n: int) -> char
    recommends
        0 <= n < 16,
{
    if n < 10 {
        ((48 + n) as u32) as char  // '0' ..= '9'
    } else {
        ((55 + n) as u32) as char  // 'A' ..= 'F'
    }
}

/// What one byte becomes under percent-encoding: itself if unreserved,
/// else `%` and two uppercase hexadecimal digits.
pub open spec fn encode_byte(b: u8) -> Seq<char> {
    if is_unreserved_byte(b) {
        seq![(b as u32) as char]
    } else {
        seq!['%', hex_digit(b as int / 16), hex_digit(b as int % 16)]
    }
}

/// Percent-encoding of a byte sequence: each byte encoded in order.
pub open spec fn percent_encode_bytes(bs: Seq<u8>) -> Seq<char>
    decreases bs.len(),
{
    if bs.len() == 0 {
        Seq::empty()
    } else {
        encode_byte(bs[0]) + percent_encode_bytes(bs.drop_first())
    }
}

/// Percent-encoding of a string: its UTF-8 bytes, each encoded in order.
pub open spec fn percent_encoding_of(s: Seq<char>) -> Seq<char> {
    percent_encode_bytes(encode_utf8(s))
}

/// The value of a hexadecimal digit, upper or lower case, or `None` for
/// any other character.
pub open spec fn hex_val(c: char) -> Option<u8> {
    let u = c as u32;
    if 48 <= u <= 57 {  // '0' ..= '9'
        Some((u - 48) as u8)
    } else if 65 <= u <= 70 {  // 'A' ..= 'F'
        Some((u - 55) as u8)
    } else if 97 <= u <= 102 {  // 'a' ..= 'f'
        Some((u - 87) as u8)
    } else {
        None
    }
}

/// Percent-decoding of a character sequence back to bytes. `%` followed by
/// two hexadecimal digits yields that byte; any other character below 256
/// yields its own code; anything else makes the sequence undecodable.
pub open spec fn percent_decode_chars(s: Seq<char>) -> Option<Seq<u8>>
    decreases s.len(),
{
    if s.len() == 0 {
        Some(Seq::empty())
    } else if s[0] == '%' {
        if s.len() >= 3 && hex_val(s[1]) is Some && hex_val(s[2]) is Some {
            match percent_decode_chars(s.skip(3)) {
                Some(rest) => Some(
                    seq![((16 * hex_val(s[1])->0 + hex_val(s[2])->0) as u8)] + rest,
                ),
                None => None,
            }
        } else {
            None
        }
    } else if (s[0] as u32) < 256 {
        match percent_decode_chars(s.skip(1)) {
            Some(rest) => Some(seq![((s[0] as u32) as u8)] + rest),
            None => None,
        }
    } else {
        None
    }
}

/// Relies on `urlencoding::encode`: it percent-encodes every byte of the
/// UTF-8 form of `s` except ASCII alphanumerics and `-`, `.`, `_`, `~`,
/// writing each escaped byte as `%` plus two uppercase hexadecimal digits.
#[verifier::external_body]
pub(crate) fn percent_encode(s: &str) -> (r: String)
    ensures
        r@ == percent_encoding_of(s@),
{
    urlencoding::encode(s).into_owned()
}

/// The value of one hexadecimal digit character, upper or lower case.
fn hex_val_exec(c: char) -> (r: Option<u8>)
    ensures
        r == hex_val(c),
{
    let u = c as u32;
    if 48 <= u && u <= 57 {
        Some((u - 48) as u8)
    } else if 65 <= u && u <= 70 {
        Some((u - 55) as u8)
    } else if 97 <= u && u <= 102 {
        Some((u - 87) as u8)
    } else {
        None
    }
}

/// Decodes a percent-encoded string back to the bytes it stands for, or
/// `None` where the string is not decodable: a `%` not followed by two
/// hexadecimal digits, or a character above 255.
pub fn percent_decode(s: &str) -> (r: Option<Vec<u8>>)
    ensures
        match r {
            Some(bytes) => percent_decode_chars(s@) == Some(bytes@),
            None => percent_decode_chars(s@) is None,
        },
{
    let n = s.unicode_len();
    let mut out: Vec<u8> = Vec::new();
    let mut i: usize = 0;
    proof {
        assert(s@.skip(0) =~= s@);
        if percent_decode_chars(s@) is Some {
            assert(Seq::<u8>::empty() + percent_decode_chars(s@)->0 =~= percent_decode_chars(
                s@,
            )->0);
        }
    }
    while i < n
        invariant
            i <= n,
            n == s@.len(),
            percent_decode_chars(s@) == (match percent_decode_chars(s@.skip(i as int)) {
                Some(rest) => Some(out@ + rest),
                None => None::<Seq<u8>>,
            }),
        decreases n - i,
    {
        let ghost suffix = s@.skip(i as int);
        assert(suffix[0] == s@[i as int]);
        let c = s.get_char(i);
        if c == '%' {
            if n - i >= 3 {
                assert(suffix[1] == s@[i as int + 1]);
                assert(suffix[2] == s@[i as int + 2]);
                let h1 = s.get_char(i + 1);
                let h2 = s.get_char(i + 2);
                let v1 = hex_val_exec(h1);
                let v2 = hex_val_exec(h2);
                if v1.is_some() && v2.is_some() {
                    let b: u8 = 16 * v1.unwrap() + v2.unwrap();
                    out.push(b);
                    assert(suffix.skip(3) =~= s@.skip(i as int + 3));
                    i = i + 3;
                } else {
                    return None;
                }
            } else {
                return None;
            }
        } else {
            let u = c as u32;
            if u < 256 {
                out.push(u as u8);
                assert(suffix.skip(1) =~= s@.skip(i as int + 1));
                i = i + 1;
            } else {
                return None;
            }
        }
        proof {
            if percent_decode_chars(s@.skip(i as int)) is Some {
                let rest = percent_decode_chars(s@.skip(i as int))->0;
                assert(out@.drop_last() + (seq![out@.last()] + rest) =~= out@ + rest);
            }
        }
    }
    proof {
        assert(s@.skip(n as int) =~= Seq::<char>::empty());
        assert(out@ + Seq::<u8>::empty() =~= out@);
    }
    Some(out)
}

/// Percent-encoding of bytes is lossless: decoding the encoding of any byte
/// sequence gives back exactly those bytes.
pub proof fn lemma_percent_decode_encode_bytes(bs: Seq<u8>)
    ensures
        percent_decode_chars(percent_encode_bytes(bs)) == Some(bs),
    decreases bs.len(),
{
    if bs.len() == 0 {
        assert(bs =~= Seq::<u8>::empty());
    } else {
        let b = bs[0];
        let e = encode_byte(b);
        let rest = percent_encode_bytes(bs.drop_first());
        let s = percent_encode_bytes(bs);
        lemma_percent_decode_encode_bytes(bs.drop_first());
        if is_unreserved_byte(b) {
            assert(s[0] == (b as u32) as char);
            assert(s[0] != '%');
            assert(s.skip(1) =~= rest);
            assert(seq![((s[0] as u32) as u8)] + bs.drop_first() =~= bs);
        } else {
            assert(s[0] == '%');
            assert(s[1] == hex_digit(b as int / 16));
            assert(s[2] == hex_digit(b as int % 16));
            assert(hex_val(s[1]) == Some((b as int / 16) as u8));
            assert(hex_val(s[2]) == Some((b as int % 16) as u8));
            assert(s.skip(3) =~= rest);
            assert(16 * (b as int / 16) + (b as int % 16) == b as int);
            assert(seq![b] + bs.drop_first() =~= bs);
        }
    }
}

/// Percent-encoding of a string is lossless: decoding its percent-encoding
/// gives back exactly its UTF-8 bytes, and those bytes decode to the string
/// itself.
pub proof fn lemma_percent_round_trip(s: Seq<char>)
    ensures
        percent_decode_chars(percent_encoding_of(s)) == Some(encode_utf8(s)),
        vstd::utf8::decode_utf8(encode_utf8(s)) == s,
{
    lemma_percent_decode_encode_bytes(encode_utf8(s));
    vstd::utf8::encode_utf8_decode_utf8(s);
}

} // verus!

