//! Text encodings of prepared-statement parameter payloads: UUIDs as
//! hyphenated lowercase hex, byte strings as standard base64.

use base64::Engine;
use vstd::prelude::*;

verus! {

#[verifier::external_type_specification]
#[verifier::external_body]
pub struct ExDecodeError(base64::DecodeError);

/// Why a parameter payload could not be read back from its text.
#[derive(Debug)]
pub enum ParamDecodeError {
    /// The text held a number of hex digits other than 32.
    UuidLength,
    /// The text was not standard base64.
    Base64(base64::DecodeError),
}

/// The lowercase hex digit of a nibble.
pub open spec fn hex_char(n: u8) -> char {
    if n < 10 {
        (48 + n) as char
    } else {
        (87 + n) as char
    }
}

/// The nibble at position `j` of a byte string: even positions hold the
/// high nibble of a byte, odd positions the low one.
pub open spec fn nibble(bytes: Seq<u8>, j: int) -> u8 {
    if j % 2 == 0 {
        bytes[j / 2] / 16
    } else {
        bytes[j / 2] % 16
    }
}

/// The nibbles of a byte string, high nibble first.
pub open spec fn nibbles(bytes: Seq<u8>) -> Seq<u8> {
    Seq::new(2 * bytes.len(), |j: int| nibble(bytes, j))
}

/// Two lowercase hex digits per byte.
pub open spec fn hex_text(bytes: Seq<u8>) -> Seq<char> {
    Seq::new(2 * bytes.len(), |j: int| hex_char(nibble(bytes, j)))
}

/// The hyphenated form of a UUID: 8-4-4-4-12 lowercase hex digits.
pub open spec fn uuid_text(b: Seq<u8>) -> Seq<char> {
    hex_text(b.subrange(0, 4)) + seq!['-'] + hex_text(b.subrange(4, 6)) + seq!['-'] + hex_text(
        b.subrange(6, 8),
    ) + seq!['-'] + hex_text(b.subrange(8, 10)) + seq!['-'] + hex_text(b.subrange(10, 16))
}

/// An ASCII hex digit, either case.
pub open spec fn is_hex_char(c: char) -> bool {
    ||| 48 <= (c as u32) <= 57
    ||| 97 <= (c as u32) <= 102
    ||| 65 <= (c as u32) <= 70
}

/// The value of an ASCII hex digit.
pub open spec fn hex_value(c: char) -> u8 {
    if (c as u32) <= 57 {
        ((c as u32) - 48) as u8
    } else if (c as u32) <= 70 {
        ((c as u32) - 55) as u8
    } else {
        ((c as u32) - 87) as u8
    }
}

/// The values of the hex digits of a text, in order; other characters are
/// skipped.
pub open spec fn hex_digit_values(cs: Seq<char>) -> Seq<u8>
    decreases cs.len(),
{
    if cs.len() == 0 {
        Seq::empty()
    } else if is_hex_char(cs.last()) {
        hex_digit_values(cs.drop_last()).push(hex_value(cs.last()))
    } else {
        hex_digit_values(cs.drop_last())
    }
}

/// The sixteen bytes whose nibbles are the given 32 values.
pub open spec fn bytes_of_nibbles(v: Seq<u8>) -> Seq<u8> {
    Seq::new(16, |i: int| (v[2 * i] * 16 + v[2 * i + 1]) as u8)
}

/// `String::push`: appends one character.
#[verifier::external_body]
fn push_char(s: &mut String, c: char)
    ensures
        final(s)@ == old(s)@.push(c),
{
    s.push(c);
}

/// The lowercase hex digit of a nibble.
fn hex_digit(n: u8) -> (c: char)
    requires
        n < 16,
    ensures
        c == hex_char(n),
{
    if n < 10 {
        (48 + n) as char
    } else {
        (87 + n) as char
    }
}

/// Appends the hex digits of `b[from..to]`.
fn push_hex(s: &mut String, b: &[u8; 16], from: usize, to: usize)
    requires
        from <= to <= 16,
    ensures
        final(s)@ == old(s)@ + hex_text(b@.subrange(from as int, to as int)),
{
    let mut k = from;
    while k < to
        invariant
            from <= k <= to <= 16,
            s@ == old(s)@ + hex_text(b@.subrange(from as int, k as int)),
        decreases to - k,
    {
        let byte = b[k];
        push_char(s, hex_digit(byte / 16));
        push_char(s, hex_digit(byte % 16));
        proof {
            let prev = hex_text(b@.subrange(from as int, k as int));
            let next = hex_text(b@.subrange(from as int, k + 1));
            assert(next =~= prev.push(hex_char(byte / 16)).push(hex_char(byte % 16)));
        }
        k = k + 1;
    }
}

/// The hyphenated lowercase hex form of a UUID, such as
/// `55067dc5-b91c-4078-905b-8a7fdd00830c`.
pub fn uuid_to_hex(bytes: &[u8; 16]) -> (s: String)
    ensures
        s@ == uuid_text(bytes@),
{
    let mut s = String::new();
    push_hex(&mut s, bytes, 0, 4);
    push_char(&mut s, '-');
    push_hex(&mut s, bytes, 4, 6);
    push_char(&mut s, '-');
    push_hex(&mut s, bytes, 6, 8);
    push_char(&mut s, '-');
    push_hex(&mut s, bytes, 8, 10);
    push_char(&mut s, '-');
    push_hex(&mut s, bytes, 10, 16);
    proof {
        assert(s@ =~= uuid_text(bytes@));
    }
    s
}

/// The value of a character if it is an ASCII hex digit.
fn hex_digit_value(c: char) -> (r: Option<u8>)
    ensures
        is_hex_char(c) ==> r == Some(hex_value(c)),
        !is_hex_char(c) ==> r is None,
{
    let u = c as u32;
    if 48 <= u && u <= 57 {
        Some((u - 48) as u8)
    } else if 97 <= u && u <= 102 {
        Some((u - 87) as u8)
    } else if 65 <= u && u <= 70 {
        Some((u - 55) as u8)
    } else {
        None
    }
}

/// Every hex digit value is a nibble.
proof fn lemma_hex_digit_values_small(cs: Seq<char>)
    ensures
        forall|k: int| 0 <= k < hex_digit_values(cs).len() ==> #[trigger] hex_digit_values(cs)[k] < 16,
    decreases cs.len(),
{
    if cs.len() > 0 {
        lemma_hex_digit_values_small(cs.drop_last());
        let c = cs.last();
        let prev = hex_digit_values(cs.drop_last());
        if is_hex_char(c) {
            assert(hex_value(c) < 16);
            assert(hex_digit_values(cs) == prev.push(hex_value(c)));
            assert forall|k: int| 0 <= k < prev.push(hex_value(c)).len() implies #[trigger] prev.push(
                hex_value(c),
            )[k] < 16 by {
                if k < prev.len() {
                    assert(prev[k] < 16);
                }
            }
        } else {
            assert(hex_digit_values(cs) == prev);
        }
    }
}

/// Reads a UUID back from text: the hex digits of the text, whatever else it
/// holds, must number 32; each pair of them is one byte.
pub fn uuid_from_hex(text: &str) -> (r: Result<[u8; 16], ParamDecodeError>)
    ensures
        hex_digit_values(text@).len() != 32 ==> r matches Err(ParamDecodeError::UuidLength),
        hex_digit_values(text@).len() == 32 ==> (r matches Ok(b) && b@ == bytes_of_nibbles(
            hex_digit_values(text@),
        )),
{
    let mut digits: Vec<u8> = Vec::new();
    for c in it: text.chars()
        invariant
            it.seq() == text@,
            digits@ == hex_digit_values(text@.take(it.index())),
    {
        proof {
            let i = it.index();
            assert(text@.take(i + 1).drop_last() =~= text@.take(i));
        }
        match hex_digit_value(c) {
            Some(v) => digits.push(v),
            None => {},
        }
    }
    proof {
        assert(text@.take(text@.len() as int) =~= text@);
        lemma_hex_digit_values_small(text@);
    }
    if digits.len() != 32 {
        return Err(ParamDecodeError::UuidLength);
    }
    let mut bytes = [0u8; 16];
    let mut i: usize = 0;
    while i < 16
        invariant
            i <= 16,
            digits@ == hex_digit_values(text@),
            digits@.len() == 32,
            forall|k: int| 0 <= k < 32 ==> #[trigger] digits@[k] < 16,
            forall|k: int| 0 <= k < i ==> #[trigger] bytes@[k] == bytes_of_nibbles(digits@)[k],
        decreases 16 - i,
    {
        let hi = digits[2 * i];
        let lo = digits[2 * i + 1];
        bytes[i] = hi * 16 + lo;
        i = i + 1;
    }
    proof {
        assert(bytes@ =~= bytes_of_nibbles(digits@));
    }
    Ok(bytes)
}

/// Each nibble's digit is a hex digit that reads back as the nibble.
proof fn lemma_hex_char_value(n: u8)
    requires
        n < 16,
    ensures
        is_hex_char(hex_char(n)),
        hex_value(hex_char(n)) == n,
{
}

/// The hex digits of a concatenation are those of each part.
proof fn lemma_hex_digit_values_concat(a: Seq<char>, b: Seq<char>)
    ensures
        hex_digit_values(a + b) == hex_digit_values(a) + hex_digit_values(b),
    decreases b.len(),
{
    if b.len() == 0 {
        assert(a + b =~= a);
        assert(hex_digit_values(a) + hex_digit_values(b) =~= hex_digit_values(a));
    } else {
        lemma_hex_digit_values_concat(a, b.drop_last());
        assert((a + b).drop_last() =~= a + b.drop_last());
        assert((a + b).last() == b.last());
        if is_hex_char(b.last()) {
            assert(hex_digit_values(a) + hex_digit_values(b) =~= (hex_digit_values(a)
                + hex_digit_values(b.drop_last())).push(hex_value(b.last())));
        } else {
            assert(hex_digit_values(a) + hex_digit_values(b) =~= hex_digit_values(a)
                + hex_digit_values(b.drop_last()));
        }
    }
}

/// The hex digits of the hex text of bytes are their nibbles.
proof fn lemma_hex_digit_values_of_hex_text(x: Seq<u8>, j: int)
    requires
        0 <= j <= 2 * x.len(),
    ensures
        hex_digit_values(hex_text(x).take(j)) == nibbles(x).take(j),
    decreases j,
{
    if j == 0 {
        assert(hex_text(x).take(0) =~= Seq::<char>::empty());
        assert(nibbles(x).take(0) =~= Seq::<u8>::empty());
    } else {
        lemma_hex_digit_values_of_hex_text(x, j - 1);
        let t = hex_text(x).take(j);
        assert(t.drop_last() =~= hex_text(x).take(j - 1));
        let n = nibble(x, j - 1);
        assert(n < 16);
        lemma_hex_char_value(n);
        assert(t.last() == hex_char(n));
        assert(nibbles(x).take(j) =~= nibbles(x).take(j - 1).push(n));
    }
}

/// The hex digits of the hex text of bytes, whole.
proof fn lemma_hex_digit_values_hex_text(x: Seq<u8>)
    ensures
        hex_digit_values(hex_text(x)) == nibbles(x),
{
    lemma_hex_digit_values_of_hex_text(x, 2 * x.len() as int);
    assert(hex_text(x).take(2 * x.len() as int) =~= hex_text(x));
    assert(nibbles(x).take(2 * x.len() as int) =~= nibbles(x));
}

/// Reading back the hyphenated hex form of a UUID gives the UUID: its hex
/// digits number 32, and they pair up into the original bytes.
pub proof fn lemma_uuid_text_roundtrip(b: Seq<u8>)
    requires
        b.len() == 16,
    ensures
        hex_digit_values(uuid_text(b)).len() == 32,
        bytes_of_nibbles(hex_digit_values(uuid_text(b))) == b,
{
    let dash = seq!['-'];
    assert(hex_digit_values(dash) =~= Seq::<u8>::empty()) by {
        assert(dash.drop_last() =~= Seq::<char>::empty());
        assert(dash.last() == '-');
        assert(('-' as u32) == 45);
        assert(!is_hex_char(dash.last()));
        assert(hex_digit_values(dash) == hex_digit_values(dash.drop_last()));
    }
    let p0 = hex_text(b.subrange(0, 4));
    let p1 = hex_text(b.subrange(4, 6));
    let p2 = hex_text(b.subrange(6, 8));
    let p3 = hex_text(b.subrange(8, 10));
    let p4 = hex_text(b.subrange(10, 16));
    lemma_hex_digit_values_hex_text(b.subrange(0, 4));
    lemma_hex_digit_values_hex_text(b.subrange(4, 6));
    lemma_hex_digit_values_hex_text(b.subrange(6, 8));
    lemma_hex_digit_values_hex_text(b.subrange(8, 10));
    lemma_hex_digit_values_hex_text(b.subrange(10, 16));
    lemma_hex_digit_values_concat(p0, dash);
    lemma_hex_digit_values_concat(p0 + dash, p1);
    lemma_hex_digit_values_concat(p0 + dash + p1, dash);
    lemma_hex_digit_values_concat(p0 + dash + p1 + dash, p2);
    lemma_hex_digit_values_concat(p0 + dash + p1 + dash + p2, dash);
    lemma_hex_digit_values_concat(p0 + dash + p1 + dash + p2 + dash, p3);
    lemma_hex_digit_values_concat(p0 + dash + p1 + dash + p2 + dash + p3, dash);
    lemma_hex_digit_values_concat(p0 + dash + p1 + dash + p2 + dash + p3 + dash, p4);
    let v = hex_digit_values(uuid_text(b));
    assert(v =~= nibbles(b.subrange(0, 4)) + nibbles(b.subrange(4, 6)) + nibbles(
        b.subrange(6, 8),
    ) + nibbles(b.subrange(8, 10)) + nibbles(b.subrange(10, 16)));
    assert(v =~= nibbles(b));
    assert forall|i: int| 0 <= i < 16 implies #[trigger] bytes_of_nibbles(v)[i] == b[i] by {
        assert(v[2 * i] == b[i] / 16);
        assert(v[2 * i + 1] == b[i] % 16);
    }
    assert(bytes_of_nibbles(v) =~= b);
}

/// The character of a six-bit value in the standard base64 alphabet:
/// `A`-`Z`, `a`-`z`, `0`-`9`, `+`, `/`.
pub open spec fn base64_char(n: int) -> char {
    if n < 26 {
        (65 + n) as char
    } else if n < 52 {
        (71 + n) as char
    } else if n < 62 {
        (n - 4) as char
    } else if n == 62 {
        '+'
    } else {
        '/'
    }
}

/// The standard base64 encoding (RFC 4648 alphabet, with `=` padding) of a
/// byte string: each group of three bytes becomes four characters of six
/// bits each; a last group of one or two bytes is padded with `=` to four.
pub open spec fn base64_standard_encoding(bytes: Seq<u8>) -> Seq<char>
    decreases bytes.len(),
{
    if bytes.len() == 0 {
        Seq::empty()
    } else if bytes.len() == 1 {
        seq![base64_char((bytes[0] / 4) as int), base64_char((bytes[0] % 4) * 16), '=', '=']
    } else if bytes.len() == 2 {
        seq![
            base64_char((bytes[0] / 4) as int),
            base64_char((bytes[0] % 4) * 16 + bytes[1] / 16),
            base64_char((bytes[1] % 16) * 4),
            '=',
        ]
    } else {
        seq![
            base64_char((bytes[0] / 4) as int),
            base64_char((bytes[0] % 4) * 16 + bytes[1] / 16),
            base64_char((bytes[1] % 16) * 4 + bytes[2] / 64),
            base64_char((bytes[2] % 64) as int),
        ] + base64_standard_encoding(bytes.skip(3))
    }
}

/// The bytes that a text decodes to under standard base64, if it is valid
/// standard base64.
pub uninterp spec fn base64_standard_decoding(text: Seq<char>) -> Option<Seq<u8>>;

/// `base64::engine::general_purpose::STANDARD.encode`: the result is
/// `base64_standard_encoding` of the input, and it decodes back to the input
/// under the same engine. The input is kept short
/// enough that the output, four characters per three bytes, fits in an
/// allocation, where the crate would panic otherwise.
#[verifier::external_body]
fn standard_encode(bytes: &[u8]) -> (s: String)
    requires
        bytes@.len() <= 3 * (isize::MAX / 4),
    ensures
        s@ == base64_standard_encoding(bytes@),
        base64_standard_decoding(s@) == Some(bytes@),
{
    base64::engine::general_purpose::STANDARD.encode(bytes)
}

/// `base64::engine::general_purpose::STANDARD.decode` on the bytes of a
/// text: `Ok` exactly when `base64_standard_decoding` of the text is some
/// byte string, and then that one. Which error comes back is not stated.
#[verifier::external_body]
fn standard_decode(text: &str) -> (r: Result<Vec<u8>, base64::DecodeError>)
    ensures
        r matches Ok(v) ==> base64_standard_decoding(text@) == Some(v@),
        r is Err ==> base64_standard_decoding(text@) is None,
{
    base64::engine::general_purpose::STANDARD.decode(text)
}

/// Encodes a byte payload as standard base64 text, which reads back as the
/// payload.
pub fn encode_base64(bytes: &[u8]) -> (s: String)
    requires
        bytes@.len() <= 3 * (isize::MAX / 4),
    ensures
        s@ == base64_standard_encoding(bytes@),
        base64_standard_decoding(s@) == Some(bytes@),
{
    standard_encode(bytes)
}

/// Reads a byte payload back from standard base64 text.
pub fn decode_base64(text: &str) -> (r: Result<Vec<u8>, ParamDecodeError>)
    ensures
        match r {
            Ok(v) => base64_standard_decoding(text@) == Some(v@),
            Err(e) => e is Base64 && base64_standard_decoding(text@) is None,
        },
{
    match standard_decode(text) {
        Ok(v) => Ok(v),
        Err(e) => Err(ParamDecodeError::Base64(e)),
    }
}

} // verus!
