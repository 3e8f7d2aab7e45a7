//! Unpadded base64 with the URL-safe alphabet, the text form of each segment
//! of a compact signed token.

use crate::text::push_char;
use vstd::prelude::*;
use vstd::string::*;
use vstd::utf8::*;

verus! {

/// The symbol that stands for the six-bit value `v`.
pub open spec fn symbol(v: int) -> char {
    if v < 26 {
        (v + 65) as u8 as char
    } else if v < 52 {
        (v + 71) as u8 as char
    } else if v < 62 {
        (v - 4) as u8 as char
    } else if v == 62 {
        '-'
    } else {
        '_'
    }
}

/// The six-bit value that the character `c` stands for, if it is a symbol.
pub open spec fn value(c: char) -> Option<int> {
    if 'A' <= c <= 'Z' {
        Some(c as int - 65)
    } else if 'a' <= c <= 'z' {
        Some(c as int - 71)
    } else if '0' <= c <= '9' {
        Some(c as int + 4)
    } else if c == '-' {
        Some(62)
    } else if c == '_' {
        Some(63)
    } else {
        None
    }
}

/// Whether every character of `text` is a symbol of the alphabet.
pub open spec fn is_symbols(text: Seq<char>) -> bool {
    forall|i: int| 0 <= i < text.len() ==> (#[trigger] value(text[i])) is Some
}

/// The byte at position `j` of `data`, and zero past its end.
pub open spec fn octet(data: Seq<u8>, j: int) -> int {
    if 0 <= j < data.len() {
        data[j] as int
    } else {
        0
    }
}

/// The six-bit value at position `i` of the encoding of `data`: each group of
/// three bytes is cut into four values, most significant bits first.
pub open spec fn sextet(data: Seq<u8>, i: int) -> int {
    let g = i / 4;
    let r = i % 4;
    if r == 0 {
        octet(data, 3 * g) / 4
    } else if r == 1 {
        (octet(data, 3 * g) % 4) * 16 + octet(data, 3 * g + 1) / 16
    } else if r == 2 {
        (octet(data, 3 * g + 1) % 16) * 4 + octet(data, 3 * g + 2) / 64
    } else {
        octet(data, 3 * g + 2) % 64
    }
}

/// The number of symbols that encode `n` bytes.
pub open spec fn encoded_len(n: nat) -> nat {
    ((4 * n + 2) / 3) as nat
}

/// The encoding of `data`.
pub open spec fn encode_spec(data: Seq<u8>) -> Seq<char> {
    Seq::new(encoded_len(data.len()), |i: int| symbol(sextet(data, i)))
}

/// The bytes that `text` encodes, if it is the encoding of any.
pub open spec fn decode_spec(text: Seq<char>) -> Option<Seq<u8>> {
    if exists|data: Seq<u8>| encode_spec(data) == text {
        Some(choose|data: Seq<u8>| encode_spec(data) == text)
    } else {
        None
    }
}

/// Maps a six-bit value to its symbol.
pub fn symbol_of(v: u8) -> (c: char)
    requires
        v < 64,
    ensures
        c == symbol(v as int),
{
    if v < 26 {
        (v + 65) as char
    } else if v < 52 {
        (v + 71) as char
    } else if v < 62 {
        (v - 4) as char
    } else if v == 62 {
        '-'
    } else {
        '_'
    }
}

/// Maps a byte of text to the six-bit value it stands for.
pub fn value_of(b: u8) -> (r: Option<u8>)
    ensures
        match r {
            Some(v) => value(b as char) == Some(v as int) && v < 64,
            None => value(b as char) is None,
        },
{
    if 65 <= b && b <= 90 {
        Some(b - 65)
    } else if 97 <= b && b <= 122 {
        Some(b - 71)
    } else if 48 <= b && b <= 57 {
        Some(b + 4)
    } else if b == 45 {
        Some(62)
    } else if b == 95 {
        Some(63)
    } else {
        None
    }
}

/// Every six-bit value has a symbol of its own, and reading the symbol gives
/// the value back.
pub proof fn lemma_value_of_symbol(v: int)
    requires
        0 <= v < 64,
    ensures
        value(symbol(v)) == Some(v),
        '\0' <= symbol(v) <= '\u{7f}',
        symbol(v) != '.',
{
}

/// A character that stands for a value is that value's symbol.
pub proof fn lemma_symbol_of_value(c: char)
    requires
        value(c) is Some,
    ensures
        0 <= value(c)->0 < 64,
        symbol(value(c)->0) == c,
{
}

/// Each position of an encoding holds a six-bit value.
pub proof fn lemma_sextet_range(data: Seq<u8>, i: int)
    requires
        0 <= i,
    ensures
        0 <= sextet(data, i) < 64,
{
}

/// Encodes `data` as text.
pub fn encode(data: &[u8]) -> (text: String)
    ensures
        text@ == encode_spec(data@),
{
    let n = data.len();
    let mut text = String::new();
    let mut i: usize = 0;
    while n - i >= 3
        invariant
            n == data@.len(),
            i <= n,
            i % 3 == 0,
            text@.len() == 4 * (i / 3),
            forall|j: int| 0 <= j < text@.len() ==> text@[j] == symbol(sextet(data@, j)),
        decreases n - i,
    {
        let b0 = data[i];
        let b1 = data[i + 1];
        let b2 = data[i + 2];
        let ghost before = text@;
        push_char(&mut text, symbol_of(b0 / 4));
        push_char(&mut text, symbol_of((b0 % 4) * 16 + b1 / 16));
        push_char(&mut text, symbol_of((b1 % 16) * 4 + b2 / 64));
        push_char(&mut text, symbol_of(b2 % 64));
        proof {
            let k = i as int / 3;
            assert(before.len() == 4 * k);
            assert(i as int == 3 * k);
            assert forall|j: int| 0 <= j < text@.len() implies text@[j] == symbol(
                sextet(data@, j),
            ) by {
                if j >= 4 * k {
                    assert(j / 4 == k);
                    assert(j % 4 == j - 4 * k);
                } else {
                    assert(text@[j] == before[j]);
                }
            }
        }
        i = i + 3;
    }
    let ghost before = text@;
    let ghost k = i as int / 3;
    if n - i == 1 {
        let b0 = data[i];
        push_char(&mut text, symbol_of(b0 / 4));
        push_char(&mut text, symbol_of((b0 % 4) * 16));
    } else if n - i == 2 {
        let b0 = data[i];
        let b1 = data[i + 1];
        push_char(&mut text, symbol_of(b0 / 4));
        push_char(&mut text, symbol_of((b0 % 4) * 16 + b1 / 16));
        push_char(&mut text, symbol_of((b1 % 16) * 4));
    }
    proof {
        assert(i as int == 3 * k);
        assert(text@.len() == encoded_len(data@.len()));
        assert forall|j: int| 0 <= j < text@.len() implies text@[j] == symbol(
            sextet(data@, j),
        ) by {
            if j >= 4 * k {
                assert(j / 4 == k);
                assert(j % 4 == j - 4 * k);
            } else {
                assert(text@[j] == before[j]);
            }
        }
        assert(text@ =~= encode_spec(data@));
    }
    text
}

/// Two byte strings with the same encoding are the same.
pub proof fn lemma_encode_injective(a: Seq<u8>, b: Seq<u8>)
    requires
        encode_spec(a) == encode_spec(b),
    ensures
        a == b,
{
    let ta = encode_spec(a);
    let tb = encode_spec(b);
    assert(ta.len() == encoded_len(a.len()));
    assert(tb.len() == encoded_len(b.len()));
    assert(a.len() == b.len());
    assert forall|j: int| 0 <= j < a.len() implies a[j] == b[j] by {
        let p = 4 * (j / 3) + j % 3;
        assert(p / 4 == j / 3 && p % 4 == j % 3);
        assert((p + 1) / 4 == j / 3 && (p + 1) % 4 == j % 3 + 1);
        assert(p + 1 < ta.len());
        lemma_sextet_range(a, p);
        lemma_sextet_range(a, p + 1);
        lemma_sextet_range(b, p);
        lemma_sextet_range(b, p + 1);
        lemma_value_of_symbol(sextet(a, p));
        lemma_value_of_symbol(sextet(a, p + 1));
        lemma_value_of_symbol(sextet(b, p));
        lemma_value_of_symbol(sextet(b, p + 1));
        assert(ta[p] == symbol(sextet(a, p)) && tb[p] == symbol(sextet(b, p)));
        assert(ta[p + 1] == symbol(sextet(a, p + 1)) && tb[p + 1] == symbol(sextet(b, p + 1)));
        assert(sextet(a, p) == sextet(b, p));
        assert(sextet(a, p + 1) == sextet(b, p + 1));
    }
    assert(a =~= b);
}

/// Decoding what was encoded gives the bytes back.
pub proof fn lemma_decode_encode(data: Seq<u8>)
    ensures
        decode_spec(encode_spec(data)) == Some(data),
{
    let text = encode_spec(data);
    let found = choose|d: Seq<u8>| encode_spec(d) == text;
    lemma_encode_injective(found, data);
}

/// What decodes is the encoding of the result.
pub proof fn lemma_encode_decode(text: Seq<char>)
    requires
        decode_spec(text) is Some,
    ensures
        encode_spec(decode_spec(text)->0) == text,
{
}

/// An encoding consists of symbols, all of them ASCII and none a dot, and
/// its length never leaves a single symbol over after groups of four.
pub proof fn lemma_encoding_shape(data: Seq<u8>)
    ensures
        is_symbols(encode_spec(data)),
        is_ascii_chars(encode_spec(data)),
        !encode_spec(data).contains('.'),
        encode_spec(data).len() % 4 != 1,
{
    let text = encode_spec(data);
    assert forall|i: int| 0 <= i < text.len() implies (#[trigger] value(text[i])) is Some
        && '\0' <= text[i] <= '\u{7f}' && text[i] != '.' by {
        lemma_sextet_range(data, i);
        lemma_value_of_symbol(sextet(data, i));
    }
}

proof fn lemma_unfinished_tail(text: Seq<char>, data: Seq<u8>)
    requires
        encode_spec(data) == text,
        text.len() % 4 != 0,
    ensures
        text.len() % 4 == 2 ==> value(text[text.len() - 1])->0 % 16 == 0,
        text.len() % 4 == 3 ==> value(text[text.len() - 1])->0 % 4 == 0,
{
    let last = text.len() - 1;
    lemma_sextet_range(data, last);
    lemma_value_of_symbol(sextet(data, last));
    assert(text[last] == symbol(sextet(data, last)));
}

/// Whether the first `upto` characters of `text` are those of the encoding
/// of `data`.
pub open spec fn agrees(text: Seq<char>, data: Seq<u8>, upto: int) -> bool {
    forall|j: int| 0 <= j < upto ==> #[trigger] text[j] == symbol(sextet(data, j))
}

/// The bytes that up to four six-bit values `a`, `b`, `c`, `d` carry.
proof fn lemma_regroup(a: int, b: int, c: int, d: int)
    requires
        0 <= a < 64,
        0 <= b < 64,
        0 <= c < 64,
        0 <= d < 64,
    ensures
        0 <= a * 4 + b / 16 < 256,
        0 <= (b % 16) * 16 + c / 4 < 256,
        0 <= (c % 4) * 64 + d < 256,
        (a * 4 + b / 16) / 4 == a,
        ((a * 4 + b / 16) % 4) * 16 + ((b % 16) * 16 + c / 4) / 16 == b,
        (((b % 16) * 16 + c / 4) % 16) * 4 + ((c % 4) * 64 + d) / 64 == c,
        ((c % 4) * 64 + d) % 64 == d,
        b % 16 == 0 ==> ((a * 4 + b / 16) % 4) * 16 == b,
        c % 4 == 0 ==> (((b % 16) * 16 + c / 4) % 16) * 4 == c,
{
}

/// One step of decoding: `m` further symbols of `text` give `m - 1` further
/// bytes, and the longer output still encodes to the text read so far.
proof fn lemma_decode_step(text: Seq<char>, before: Seq<u8>, after: Seq<u8>, k: int, m: int)
    requires
        0 <= k,
        2 <= m <= 4,
        4 * k + m <= text.len(),
        before.len() == 3 * k,
        agrees(text, before, 4 * k),
        after.len() == 3 * k + m - 1,
        after.subrange(0, 3 * k) == before,
        forall|t: int| 0 <= t < m ==> (#[trigger] value(text[4 * k + t])) is Some,
        after[3 * k] == value(text[4 * k])->0 * 4 + value(text[4 * k + 1])->0 / 16,
        m == 2 ==> value(text[4 * k + 1])->0 % 16 == 0,
        m >= 3 ==> after[3 * k + 1] == (value(text[4 * k + 1])->0 % 16) * 16 + value(
            text[4 * k + 2],
        )->0 / 4,
        m == 3 ==> value(text[4 * k + 2])->0 % 4 == 0,
        m == 4 ==> after[3 * k + 2] == (value(text[4 * k + 2])->0 % 4) * 64 + value(
            text[4 * k + 3],
        )->0,
    ensures
        agrees(text, after, 4 * k + m),
{
    assert(value(text[4 * k + 0]) is Some);
    assert(value(text[4 * k + 1]) is Some);
    let a = value(text[4 * k])->0;
    let b = value(text[4 * k + 1])->0;
    let c = if m >= 3 { value(text[4 * k + 2])->0 } else { 0 };
    let d = if m == 4 { value(text[4 * k + 3])->0 } else { 0 };
    lemma_symbol_of_value(text[4 * k]);
    lemma_symbol_of_value(text[4 * k + 1]);
    if m >= 3 {
        assert(value(text[4 * k + 2]) is Some);
        lemma_symbol_of_value(text[4 * k + 2]);
    }
    if m == 4 {
        assert(value(text[4 * k + 3]) is Some);
        lemma_symbol_of_value(text[4 * k + 3]);
    }
    lemma_regroup(a, b, c, d);
    assert forall|j: int| 0 <= j < 4 * k + m implies #[trigger] text[j] == symbol(
        sextet(after, j),
    ) by {
        let g = j / 4;
        if j < 4 * k {
            assert(g < k);
            assert(after[3 * g] == before[3 * g]);
            assert(after[3 * g + 1] == before[3 * g + 1]);
            assert(after[3 * g + 2] == before[3 * g + 2]);
            assert(sextet(after, j) == sextet(before, j));
        } else {
            assert(g == k);
            assert(j % 4 == j - 4 * k);
            assert(octet(after, 3 * k) == a * 4 + b / 16);
            if j % 4 == 0 {
                assert(sextet(after, j) == a);
            } else if j % 4 == 1 {
                assert(octet(after, 3 * k + 1) == if m >= 3 {
                    (b % 16) * 16 + c / 4
                } else {
                    0
                });
                assert(sextet(after, j) == b);
            } else if j % 4 == 2 {
                assert(octet(after, 3 * k + 1) == (b % 16) * 16 + c / 4);
                assert(octet(after, 3 * k + 2) == if m == 4 {
                    (c % 4) * 64 + d
                } else {
                    0
                });
                assert(sextet(after, j) == c);
            } else {
                assert(octet(after, 3 * k + 2) == (c % 4) * 64 + d);
                assert(sextet(after, j) == d);
            }
        }
    }
}

/// Text with a character outside the alphabet encodes nothing.
proof fn lemma_stray_character(text: Seq<char>, p: int)
    requires
        0 <= p < text.len(),
        value(text[p]) is None,
    ensures
        decode_spec(text) is None,
{
    assert forall|data: Seq<u8>| encode_spec(data) != text by {
        lemma_encoding_shape(data);
    }
}

/// Text whose last symbol carries bits past the last byte encodes nothing.
proof fn lemma_loose_bits(text: Seq<char>)
    requires
        text.len() > 0,
        value(text[text.len() - 1]) is Some,
        (text.len() % 4 == 2 && value(text[text.len() - 1])->0 % 16 != 0) || (text.len() % 4 == 3
            && value(text[text.len() - 1])->0 % 4 != 0),
    ensures
        decode_spec(text) is None,
{
    assert forall|data: Seq<u8>| encode_spec(data) != text by {
        if encode_spec(data) == text {
            lemma_unfinished_tail(text, data);
        }
    }
}

/// Text that is not ASCII, or leaves one symbol over, encodes nothing.
proof fn lemma_wrong_shape(text: Seq<char>)
    requires
        !is_ascii_chars(text) || text.len() % 4 == 1,
    ensures
        decode_spec(text) is None,
{
    assert forall|data: Seq<u8>| encode_spec(data) != text by {
        lemma_encoding_shape(data);
    }
}

/// Text that agrees with the encoding of `data` over its whole length, and
/// has the length of that encoding, decodes to `data`.
proof fn lemma_decoded(text: Seq<char>, data: Seq<u8>)
    requires
        text.len() == encoded_len(data.len()),
        agrees(text, data, text.len() as int),
    ensures
        decode_spec(text) == Some(data),
{
    assert(text =~= encode_spec(data));
    lemma_decode_encode(data);
}

/// Decodes `text`, which succeeds exactly on the encodings.
pub fn decode(text: &str) -> (r: Option<Vec<u8>>)
    ensures
        match r {
            Some(data) => decode_spec(text@) == Some(data@),
            None => decode_spec(text@) is None,
        },
{
    if !text.is_ascii() {
        proof {
            lemma_wrong_shape(text@);
        }
        return None;
    }
    let bytes = text.as_bytes();
    let n = bytes.len();
    proof {
        is_ascii_spec_bytes(text);
        assert(bytes@.len() == text@.len());
        assert forall|j: int| 0 <= j < n implies (#[trigger] bytes@[j]) as char == text@[j] by {
            assert('\0' <= text@[j] <= '\u{7f}');
        }
    }
    if n % 4 == 1 {
        proof {
            lemma_wrong_shape(text@);
        }
        return None;
    }
    let mut out: Vec<u8> = Vec::new();
    let mut i: usize = 0;
    while n - i >= 4
        invariant
            n == text@.len(),
            n == bytes@.len(),
            forall|j: int| 0 <= j < n ==> (#[trigger] bytes@[j]) as char == text@[j],
            i <= n,
            i % 4 == 0,
            out@.len() == 3 * (i / 4),
            agrees(text@, out@, i as int),
        decreases n - i,
    {
        let ghost k = i as int / 4;
        assert(i as int == 4 * k);
        let va = value_of(bytes[i]);
        let vb = value_of(bytes[i + 1]);
        let vc = value_of(bytes[i + 2]);
        let vd = value_of(bytes[i + 3]);
        if va.is_none() {
            proof {
                lemma_stray_character(text@, i as int);
            }
            return None;
        }
        if vb.is_none() {
            proof {
                lemma_stray_character(text@, i + 1);
            }
            return None;
        }
        if vc.is_none() {
            proof {
                lemma_stray_character(text@, i + 2);
            }
            return None;
        }
        if vd.is_none() {
            proof {
                lemma_stray_character(text@, i + 3);
            }
            return None;
        }
        let a = va.unwrap();
        let b = vb.unwrap();
        let c = vc.unwrap();
        let d = vd.unwrap();
        let ghost before = out@;
        proof {
            lemma_regroup(a as int, b as int, c as int, d as int);
        }
        out.push(a * 4 + b / 16);
        out.push((b % 16) * 16 + c / 4);
        out.push((c % 4) * 64 + d);
        proof {
            assert(out@.subrange(0, 3 * k) =~= before);
            assert forall|t: int| 0 <= t < 4 implies (#[trigger] value(text@[4 * k + t])) is Some by {
                assert(bytes@[4 * k + t] as char == text@[4 * k + t]);
            }
            assert(bytes@[4 * k] as char == text@[4 * k]);
            assert(bytes@[4 * k + 1] as char == text@[4 * k + 1]);
            assert(bytes@[4 * k + 2] as char == text@[4 * k + 2]);
            assert(bytes@[4 * k + 3] as char == text@[4 * k + 3]);
            lemma_decode_step(text@, before, out@, k, 4);
        }
        i = i + 4;
    }
    let ghost before = out@;
    let ghost k = i as int / 4;
    assert(i as int == 4 * k);
    if n - i == 2 {
        let va = value_of(bytes[i]);
        let vb = value_of(bytes[i + 1]);
        if va.is_none() {
            proof {
                lemma_stray_character(text@, i as int);
            }
            return None;
        }
        if vb.is_none() {
            proof {
                lemma_stray_character(text@, i + 1);
            }
            return None;
        }
        let a = va.unwrap();
        let b = vb.unwrap();
        proof {
            assert(bytes@[4 * k] as char == text@[4 * k]);
            assert(bytes@[4 * k + 1] as char == text@[4 * k + 1]);
        }
        if b % 16 != 0 {
            proof {
                lemma_loose_bits(text@);
            }
            return None;
        }
        proof {
            lemma_regroup(a as int, b as int, 0, 0);
        }
        out.push(a * 4 + b / 16);
        proof {
            assert(out@.subrange(0, 3 * k) =~= before);
            assert forall|t: int| 0 <= t < 2 implies (#[trigger] value(text@[4 * k + t])) is Some by {
                assert(bytes@[4 * k + t] as char == text@[4 * k + t]);
            }
            lemma_decode_step(text@, before, out@, k, 2);
        }
    } else if n - i == 3 {
        let va = value_of(bytes[i]);
        let vb = value_of(bytes[i + 1]);
        let vc = value_of(bytes[i + 2]);
        if va.is_none() {
            proof {
                lemma_stray_character(text@, i as int);
            }
            return None;
        }
        if vb.is_none() {
            proof {
                lemma_stray_character(text@, i + 1);
            }
            return None;
        }
        if vc.is_none() {
            proof {
                lemma_stray_character(text@, i + 2);
            }
            return None;
        }
        let a = va.unwrap();
        let b = vb.unwrap();
        let c = vc.unwrap();
        proof {
            assert(bytes@[4 * k] as char == text@[4 * k]);
            assert(bytes@[4 * k + 1] as char == text@[4 * k + 1]);
            assert(bytes@[4 * k + 2] as char == text@[4 * k + 2]);
        }
        if c % 4 != 0 {
            proof {
                lemma_loose_bits(text@);
            }
            return None;
        }
        proof {
            lemma_regroup(a as int, b as int, c as int, 0);
        }
        out.push(a * 4 + b / 16);
        out.push((b % 16) * 16 + c / 4);
        proof {
            assert(out@.subrange(0, 3 * k) =~= before);
            assert forall|t: int| 0 <= t < 3 implies (#[trigger] value(text@[4 * k + t])) is Some by {
                assert(bytes@[4 * k + t] as char == text@[4 * k + t]);
            }
            lemma_decode_step(text@, before, out@, k, 3);
        }
    }
    proof {
        lemma_decoded(text@, out@);
    }
    Some(out)
}

} // verus!
