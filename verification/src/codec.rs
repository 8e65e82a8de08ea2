//! Base64 with the URL-safe alphabet and no padding: what the encoding is,
//! that it can be undone, and a decoder.

use vstd::prelude::*;
use vstd::string::is_ascii_spec_bytes;

verus! {

/// The character that stands for a six-bit value.
pub open spec fn symbol(v: u8) -> char {
    if v < 26 {
        ((65 + v) as u8) as char
    } else if v < 52 {
        ((71 + v) as u8) as char
    } else if v < 62 {
        ((v - 4) as u8) as char
    } else if v == 62 {
        '-'
    } else {
        '_'
    }
}

/// The six-bit value that a character stands for, if it belongs to the alphabet.
pub open spec fn symbol_value(c: char) -> Option<u8> {
    if 'A' <= c && c <= 'Z' {
        Some(((c as u8) - 65) as u8)
    } else if 'a' <= c && c <= 'z' {
        Some(((c as u8) - 71) as u8)
    } else if '0' <= c && c <= '9' {
        Some(((c as u8) + 4) as u8)
    } else if c == '-' {
        Some(62u8)
    } else if c == '_' {
        Some(63u8)
    } else {
        None
    }
}

/// Number of characters that encode `n` bytes.
pub open spec fn encoded_len(n: nat) -> nat {
    (n / 3) * 4 + if n % 3 == 0 {
        0nat
    } else {
        (n % 3 + 1) as nat
    }
}

/// The encoding of a byte string: each group of three bytes gives four
/// characters, a last group of one or two bytes gives two or three.
pub open spec fn b64url(data: Seq<u8>) -> Seq<char>
    decreases data.len(),
{
    if data.len() == 0 {
        Seq::empty()
    } else if data.len() == 1 {
        seq![symbol(data[0] >> 2), symbol((data[0] & 3) << 4)]
    } else if data.len() == 2 {
        seq![
            symbol(data[0] >> 2),
            symbol(((data[0] & 3) << 4) | (data[1] >> 4)),
            symbol((data[1] & 15) << 2),
        ]
    } else {
        seq![
            symbol(data[0] >> 2),
            symbol(((data[0] & 3) << 4) | (data[1] >> 4)),
            symbol(((data[1] & 15) << 2) | (data[2] >> 6)),
            symbol(data[2] & 63),
        ] + b64url(data.skip(3))
    }
}

/// The byte string that a text encodes, if it encodes one.
pub open spec fn b64url_decode(text: Seq<char>) -> Option<Seq<u8>>
    decreases text.len(),
{
    if text.len() == 0 {
        Some(Seq::empty())
    } else if text.len() == 1 {
        None
    } else if text.len() == 2 {
        match (symbol_value(text[0]), symbol_value(text[1])) {
            (Some(a), Some(b)) => if b & 15 == 0 {
                Some(seq![(a << 2) | (b >> 4)])
            } else {
                None
            },
            _ => None,
        }
    } else if text.len() == 3 {
        match (symbol_value(text[0]), symbol_value(text[1]), symbol_value(text[2])) {
            (Some(a), Some(b), Some(c)) => if c & 3 == 0 {
                Some(seq![(a << 2) | (b >> 4), ((b & 15) << 4) | (c >> 2)])
            } else {
                None
            },
            _ => None,
        }
    } else {
        match (
            symbol_value(text[0]),
            symbol_value(text[1]),
            symbol_value(text[2]),
            symbol_value(text[3]),
            b64url_decode(text.skip(4)),
        ) {
            (Some(a), Some(b), Some(c), Some(d), Some(rest)) => Some(
                seq![(a << 2) | (b >> 4), ((b & 15) << 4) | (c >> 2), ((c & 3) << 6) | d] + rest,
            ),
            _ => None,
        }
    }
}

proof fn lemma_symbol_value(v: u8)
    requires
        v < 64,
    ensures
        symbol_value(symbol(v)) == Some(v),
        symbol(v) != '=',
        (symbol(v) as u32) < 128,
{
}

proof fn lemma_value_symbol(c: char)
    requires
        symbol_value(c) is Some,
    ensures
        symbol_value(c).unwrap() < 64,
        symbol(symbol_value(c).unwrap()) == c,
{
}

proof fn lemma_split_bytes(x: u8, y: u8, z: u8)
    ensures
        x >> 2 < 64,
        ((x & 3) << 4) | (y >> 4) < 64,
        ((y & 15) << 2) | (z >> 6) < 64,
        z & 63 < 64,
        (x & 3) << 4 < 64,
        (y & 15) << 2 < 64,
        ((x >> 2) << 2) | ((((x & 3) << 4) | (y >> 4)) >> 4) == x,
        (((((x & 3) << 4) | (y >> 4)) & 15) << 4) | ((((y & 15) << 2) | (z >> 6)) >> 2) == y,
        (((((y & 15) << 2) | (z >> 6)) & 3) << 6) | (z & 63) == z,
        ((x >> 2) << 2) | (((x & 3) << 4) >> 4) == x,
        ((x & 3) << 4) & 15 == 0,
        (((((x & 3) << 4) | (y >> 4)) & 15) << 4) | (((y & 15) << 2) >> 2) == y,
        ((y & 15) << 2) & 3 == 0,
{
    assert(x >> 2 < 64) by (bit_vector);
    assert(((x & 3) << 4) | (y >> 4) < 64) by (bit_vector);
    assert(((y & 15) << 2) | (z >> 6) < 64) by (bit_vector);
    assert(z & 63 < 64) by (bit_vector);
    assert((x & 3) << 4 < 64) by (bit_vector);
    assert((y & 15) << 2 < 64) by (bit_vector);
    assert(((x >> 2) << 2) | ((((x & 3) << 4) | (y >> 4)) >> 4) == x) by (bit_vector);
    assert((((((x & 3) << 4) | (y >> 4)) & 15) << 4) | ((((y & 15) << 2) | (z >> 6)) >> 2) == y)
        by (bit_vector);
    assert((((((y & 15) << 2) | (z >> 6)) & 3) << 6) | (z & 63) == z) by (bit_vector);
    assert(((x >> 2) << 2) | (((x & 3) << 4) >> 4) == x) by (bit_vector);
    assert(((x & 3) << 4) & 15 == 0) by (bit_vector);
    assert((((((x & 3) << 4) | (y >> 4)) & 15) << 4) | (((y & 15) << 2) >> 2) == y)
        by (bit_vector);
    assert(((y & 15) << 2) & 3 == 0) by (bit_vector);
}

proof fn lemma_join_values(a: u8, b: u8, c: u8, d: u8)
    requires
        a < 64,
        b < 64,
        c < 64,
        d < 64,
    ensures
        ((a << 2) | (b >> 4)) >> 2 == a,
        ((((a << 2) | (b >> 4)) & 3) << 4) | ((((b & 15) << 4) | (c >> 2)) >> 4) == b,
        (((((b & 15) << 4) | (c >> 2)) & 15) << 2) | ((((c & 3) << 6) | d) >> 6) == c,
        (((c & 3) << 6) | d) & 63 == d,
        b & 15 == 0 ==> (((a << 2) | (b >> 4)) & 3) << 4 == b,
        c & 3 == 0 ==> ((((b & 15) << 4) | (c >> 2)) & 15) << 2 == c,
{
    assert(((a << 2) | (b >> 4)) >> 2 == a) by (bit_vector)
        requires
            a < 64,
            b < 64,
    ;
    assert(((((a << 2) | (b >> 4)) & 3) << 4) | ((((b & 15) << 4) | (c >> 2)) >> 4) == b)
        by (bit_vector)
        requires
            a < 64,
            b < 64,
            c < 64,
    ;
    assert((((((b & 15) << 4) | (c >> 2)) & 15) << 2) | ((((c & 3) << 6) | d) >> 6) == c)
        by (bit_vector)
        requires
            b < 64,
            c < 64,
            d < 64,
    ;
    assert((((c & 3) << 6) | d) & 63 == d) by (bit_vector)
        requires
            c < 64,
            d < 64,
    ;
    assert(b & 15 == 0 ==> (((a << 2) | (b >> 4)) & 3) << 4 == b) by (bit_vector)
        requires
            a < 64,
            b < 64,
    ;
    assert(c & 3 == 0 ==> ((((b & 15) << 4) | (c >> 2)) & 15) << 2 == c) by (bit_vector)
        requires
            b < 64,
            c < 64,
    ;
}

/// The encoding has the length that `encoded_len` gives, and every character
/// of it belongs to the alphabet; none is the padding character.
pub proof fn lemma_b64url_alphabet(data: Seq<u8>)
    ensures
        b64url(data).len() == encoded_len(data.len()),
        forall|i: int|
            0 <= i < b64url(data).len() ==> {
                &&& symbol_value(#[trigger] b64url(data)[i]) is Some
                &&& b64url(data)[i] != '='
                &&& (b64url(data)[i] as u32) < 128
            },
    decreases data.len(),
{
    if data.len() == 0 {
    } else {
        let x = data[0];
        let y = if data.len() > 1 {
            data[1]
        } else {
            0u8
        };
        let z = if data.len() > 2 {
            data[2]
        } else {
            0u8
        };
        lemma_split_bytes(x, y, z);
        lemma_symbol_value(x >> 2);
        lemma_symbol_value(((x & 3) << 4) | (y >> 4));
        lemma_symbol_value(((y & 15) << 2) | (z >> 6));
        lemma_symbol_value(z & 63);
        lemma_symbol_value((x & 3) << 4);
        lemma_symbol_value((y & 15) << 2);
        if data.len() >= 3 {
            lemma_b64url_alphabet(data.skip(3));
        }
    }
}

/// Decoding undoes encoding.
pub proof fn lemma_b64url_roundtrip(data: Seq<u8>)
    ensures
        b64url_decode(b64url(data)) == Some(data),
    decreases data.len(),
{
    let text = b64url(data);
    lemma_b64url_alphabet(data);
    if data.len() == 0 {
        assert(data =~= Seq::empty());
    } else {
        let x = data[0];
        let y = if data.len() > 1 {
            data[1]
        } else {
            0u8
        };
        let z = if data.len() > 2 {
            data[2]
        } else {
            0u8
        };
        lemma_split_bytes(x, y, z);
        lemma_symbol_value(x >> 2);
        lemma_symbol_value(((x & 3) << 4) | (y >> 4));
        lemma_symbol_value(((y & 15) << 2) | (z >> 6));
        lemma_symbol_value(z & 63);
        lemma_symbol_value((x & 3) << 4);
        lemma_symbol_value((y & 15) << 2);
        if data.len() == 1 {
            assert(b64url_decode(text).unwrap() =~= data);
        } else if data.len() == 2 {
            assert(b64url_decode(text).unwrap() =~= data);
        } else {
            lemma_b64url_roundtrip(data.skip(3));
            lemma_b64url_alphabet(data.skip(3));
            assert(text.skip(4) =~= b64url(data.skip(3)));
            assert(text.len() >= 4);
            assert(b64url_decode(text).unwrap() =~= data);
        }
    }
}

/// A text that decodes is the encoding of what it decodes to.
pub proof fn lemma_b64url_decode_sound(text: Seq<char>)
    requires
        b64url_decode(text) is Some,
    ensures
        b64url(b64url_decode(text).unwrap()) == text,
    decreases text.len(),
{
    let data = b64url_decode(text).unwrap();
    if text.len() == 0 {
        assert(b64url(data) =~= text);
    } else if text.len() == 2 {
        let a = symbol_value(text[0]).unwrap();
        let b = symbol_value(text[1]).unwrap();
        lemma_value_symbol(text[0]);
        lemma_value_symbol(text[1]);
        lemma_join_values(a, b, 0, 0);
        assert(b64url(data) =~= text);
    } else if text.len() == 3 {
        let a = symbol_value(text[0]).unwrap();
        let b = symbol_value(text[1]).unwrap();
        let c = symbol_value(text[2]).unwrap();
        lemma_value_symbol(text[0]);
        lemma_value_symbol(text[1]);
        lemma_value_symbol(text[2]);
        lemma_join_values(a, b, c, 0);
        assert(b64url(data) =~= text);
    } else {
        let a = symbol_value(text[0]).unwrap();
        let b = symbol_value(text[1]).unwrap();
        let c = symbol_value(text[2]).unwrap();
        let d = symbol_value(text[3]).unwrap();
        lemma_value_symbol(text[0]);
        lemma_value_symbol(text[1]);
        lemma_value_symbol(text[2]);
        lemma_value_symbol(text[3]);
        lemma_join_values(a, b, c, d);
        let rest = b64url_decode(text.skip(4)).unwrap();
        lemma_b64url_decode_sound(text.skip(4));
        assert(data.skip(3) =~= rest);
        assert(b64url(data) =~= text);
    }
}

/// Two byte strings with the same encoding are the same.
pub proof fn lemma_b64url_injective(a: Seq<u8>, b: Seq<u8>)
    requires
        b64url(a) == b64url(b),
    ensures
        a == b,
{
    lemma_b64url_roundtrip(a);
    lemma_b64url_roundtrip(b);
}

/// Calls `base64::encode_config` with `base64::URL_SAFE_NO_PAD`. Believed of
/// it: on an input whose encoded length fits in `usize` it returns the
/// encoding that `b64url` describes, in the URL-safe alphabet and unpadded.
#[verifier::external_body]
pub(crate) fn encode_url_safe_no_pad(bytes: &[u8]) -> (r: String)
    requires
        encoded_len(bytes@.len()) <= usize::MAX,
    ensures
        r@ == b64url(bytes@),
{
    base64::encode_config(bytes, base64::URL_SAFE_NO_PAD)
}

/// True when `n` bytes have an encoding whose length fits in `usize`.
pub fn encodable_len(n: usize) -> (r: bool)
    ensures
        r == (encoded_len(n as nat) <= usize::MAX),
{
    n / 3 <= (usize::MAX - 3) / 4
}

fn sextet(b: u8) -> (r: Option<u8>)
    requires
        b < 128,
    ensures
        r == symbol_value(b as char),
{
    if 65 <= b && b <= 90 {
        Some(b - 65)
    } else if 97 <= b && b <= 122 {
        Some(b - 71)
    } else if 48 <= b && b <= 57 {
        Some(b + 4)
    } else if b == 45 {
        Some(62)
    } else if b == 95 {
        Some(63)
    } else {
        None
    }
}

/// True for a text that holds characters of the alphabet only: letters,
/// digits, `-` and `_`. Such a text stands in a JSON string as it is.
pub open spec fn in_alphabet(text: Seq<char>) -> bool {
    forall|i: int| 0 <= i < text.len() ==> symbol_value(#[trigger] text[i]) is Some
}

/// True for a text that holds characters of the alphabet only.
pub fn is_in_alphabet(text: &str) -> (r: bool)
    ensures
        r == in_alphabet(text@),
{
    if !text.is_ascii() {
        proof {
            let i = choose|i: int|
                0 <= i < text@.len() && !('\0' <= #[trigger] text@[i] && text@[i] <= '\u{7f}');
            assert(symbol_value(text@[i]) is None);
        }
        return false;
    }
    let bytes = text.as_bytes();
    let n = bytes.len();
    proof {
        is_ascii_spec_bytes(text);
        assert forall|j: int| 0 <= j < n implies bytes@[j] < 128 && (bytes@[j] as char)
            == text@[j] by {
            let c = text@[j];
            assert('\0' <= c && c <= '\u{7f}');
        }
    }
    let mut i: usize = 0;
    while i < n
        invariant
            i <= n,
            n == bytes@.len(),
            n == text@.len(),
            forall|j: int| 0 <= j < n ==> bytes@[j] < 128 && (bytes@[j] as char) == text@[j],
            forall|j: int| 0 <= j < i ==> symbol_value(#[trigger] text@[j]) is Some,
        decreases n - i,
    {
        if sextet(bytes[i]).is_none() {
            assert(symbol_value(text@[i as int]) is None);
            return false;
        }
        i = i + 1;
    }
    true
}

/// Decodes a text in the URL-safe alphabet without padding. Returns the bytes
/// that the text is the encoding of, and `None` where it is the encoding of
/// no byte string: a character outside the alphabet, a length of one more
/// than a multiple of four, or unused bits that are not zero.
pub fn b64_decode(text: &str) -> (r: Option<Vec<u8>>)
    ensures
        r matches Some(data) ==> b64url(data@) == text@,
        r is None ==> forall|data: Seq<u8>| b64url(data) != text@,
        match b64url_decode(text@) {
            Some(data) => r matches Some(v) && v@ == data,
            None => r is None,
        },
{
    if !text.is_ascii() {
        proof {
            assert forall|data: Seq<u8>| b64url(data) != text@ by {
                lemma_b64url_alphabet(data);
            }
            if b64url_decode(text@) is Some {
                lemma_b64url_decode_sound(text@);
            }
        }
        return None;
    }
    let bytes = text.as_bytes();
    let n = bytes.len();
    proof {
        is_ascii_spec_bytes(text);
        assert(n == text@.len());
        assert forall|j: int| 0 <= j < n implies bytes@[j] < 128 && (bytes@[j] as char)
            == text@[j] by {
            let c = text@[j];
            assert('\0' <= c && c <= '\u{7f}');
        }
        assert forall|data: Seq<u8>| b64url_decode(text@) is None implies b64url(data)
            != text@ by {
            lemma_b64url_roundtrip(data);
        }
        assert(text@.skip(0) =~= text@);
    }
    let mut out: Vec<u8> = Vec::new();
    let mut i: usize = 0;
    while n - i >= 4
        invariant
            i <= n,
            n == text@.len(),
            n == bytes@.len(),
            forall|j: int| 0 <= j < n ==> bytes@[j] < 128 && (bytes@[j] as char) == text@[j],
            b64url_decode(text@) == match b64url_decode(text@.skip(i as int)) {
                Some(rest) => Some(out@ + rest),
                None => None,
            },
            b64url_decode(text@) is None ==> forall|data: Seq<u8>| b64url(data) != text@,
        decreases n - i,
    {
        let ghost tail = text@.skip(i as int);
        assert(tail[0] == text@[i as int] && tail[1] == text@[i + 1] && tail[2] == text@[i + 2]
            && tail[3] == text@[i + 3]);
        assert(tail.skip(4) =~= text@.skip(i + 4));
        let a = match sextet(bytes[i]) {
            Some(v) => v,
            None => {
                return None;
            },
        };
        let b = match sextet(bytes[i + 1]) {
            Some(v) => v,
            None => {
                return None;
            },
        };
        let c = match sextet(bytes[i + 2]) {
            Some(v) => v,
            None => {
                return None;
            },
        };
        let d = match sextet(bytes[i + 3]) {
            Some(v) => v,
            None => {
                return None;
            },
        };
        let ghost before = out@;
        out.push((a << 2) | (b >> 4));
        out.push(((b & 15) << 4) | (c >> 2));
        out.push(((c & 3) << 6) | d);
        proof {
            let group = seq![(a << 2) | (b >> 4), ((b & 15) << 4) | (c >> 2), ((c & 3) << 6) | d];
            assert(out@ =~= before + group);
            if b64url_decode(text@.skip(i + 4)) is Some {
                let rest = b64url_decode(text@.skip(i + 4)).unwrap();
                assert(before + (group + rest) =~= out@ + rest);
            }
        }
        i = i + 4;
    }
    let ghost tail = text@.skip(i as int);
    assert(tail.len() == n - i);
    if n - i == 0 {
        proof {
            assert(out@ + Seq::<u8>::empty() =~= out@);
            lemma_b64url_decode_sound(text@);
        }
        Some(out)
    } else if n - i == 1 {
        None
    } else if n - i == 2 {
        assert(tail[0] == text@[i as int] && tail[1] == text@[i + 1]);
        let a = match sextet(bytes[i]) {
            Some(v) => v,
            None => {
                return None;
            },
        };
        let b = match sextet(bytes[i + 1]) {
            Some(v) => v,
            None => {
                return None;
            },
        };
        if b & 15 != 0 {
            return None;
        }
        let ghost before = out@;
        out.push((a << 2) | (b >> 4));
        proof {
            assert(out@ =~= before + seq![(a << 2) | (b >> 4)]);
            lemma_b64url_decode_sound(text@);
        }
        Some(out)
    } else {
        assert(tail[0] == text@[i as int] && tail[1] == text@[i + 1] && tail[2] == text@[i + 2]);
        let a = match sextet(bytes[i]) {
            Some(v) => v,
            None => {
                return None;
            },
        };
        let b = match sextet(bytes[i + 1]) {
            Some(v) => v,
            None => {
                return None;
            },
        };
        let c = match sextet(bytes[i + 2]) {
            Some(v) => v,
            None => {
                return None;
            },
        };
        if c & 3 != 0 {
            return None;
        }
        let ghost before = out@;
        out.push((a << 2) | (b >> 4));
        out.push(((b & 15) << 4) | (c >> 2));
        proof {
            assert(out@ =~= before + seq![(a << 2) | (b >> 4), ((b & 15) << 4) | (c >> 2)]);
            lemma_b64url_decode_sound(text@);
        }
        Some(out)
    }
}

} // verus!
