//! Encoding normalisation: bytes written under Windows-1252 become UTF-8.

use vstd::prelude::*;
use vstd::utf8::*;

verus! {

/// The character that a byte stands for under Windows-1252. Bytes below
/// `0x80` and from `0xA0` on stand for the character with their own code; the
/// thirty-two bytes in between have the characters of the code page.
pub open spec fn windows_1252_char(b: u8) -> char {
    if b == 0x80 {
        '\u{20AC}'
    } else if b == 0x81 {
        '\u{0081}'
    } else if b == 0x82 {
        '\u{201A}'
    } else if b == 0x83 {
        '\u{0192}'
    } else if b == 0x84 {
        '\u{201E}'
    } else if b == 0x85 {
        '\u{2026}'
    } else if b == 0x86 {
        '\u{2020}'
    } else if b == 0x87 {
        '\u{2021}'
    } else if b == 0x88 {
        '\u{02C6}'
    } else if b == 0x89 {
        '\u{2030}'
    } else if b == 0x8A {
        '\u{0160}'
    } else if b == 0x8B {
        '\u{2039}'
    } else if b == 0x8C {
        '\u{0152}'
    } else if b == 0x8D {
        '\u{008D}'
    } else if b == 0x8E {
        '\u{017D}'
    } else if b == 0x8F {
        '\u{008F}'
    } else if b == 0x90 {
        '\u{0090}'
    } else if b == 0x91 {
        '\u{2018}'
    } else if b == 0x92 {
        '\u{2019}'
    } else if b == 0x93 {
        '\u{201C}'
    } else if b == 0x94 {
        '\u{201D}'
    } else if b == 0x95 {
        '\u{2022}'
    } else if b == 0x96 {
        '\u{2013}'
    } else if b == 0x97 {
        '\u{2014}'
    } else if b == 0x98 {
        '\u{02DC}'
    } else if b == 0x99 {
        '\u{2122}'
    } else if b == 0x9A {
        '\u{0161}'
    } else if b == 0x9B {
        '\u{203A}'
    } else if b == 0x9C {
        '\u{0153}'
    } else if b == 0x9D {
        '\u{009D}'
    } else if b == 0x9E {
        '\u{017E}'
    } else if b == 0x9F {
        '\u{0178}'
    } else {
        b as char
    }
}

/// The text of `bytes` under Windows-1252: one character for each byte, in
/// order. No byte is left out, joined with another or taken for a mark.
pub open spec fn windows_1252_text(bytes: Seq<u8>) -> Seq<char> {
    bytes.map_values(|b: u8| windows_1252_char(b))
}

/// Every byte is below `0x80`.
pub open spec fn is_ascii_bytes(bytes: Seq<u8>) -> bool {
    forall|i: int| 0 <= i < bytes.len() ==> #[trigger] bytes[i] < 0x80
}

/// What normalisation makes of `bytes`: the UTF-8 form of their Windows-1252 text.
pub open spec fn normalized(bytes: Seq<u8>) -> Seq<u8> {
    encode_utf8(windows_1252_text(bytes))
}

/// An input of `len` bytes is small enough for the decoder: the buffer of
/// three times the input that it sizes, and as much again should it grow
/// that buffer, stay below `isize::MAX`.
pub open spec fn fits_decoder(len: nat) -> bool {
    6 * len <= isize::MAX
}

/// `encoding_rs::WINDOWS_1252.decode_without_bom_handling`: each byte is
/// decoded on its own, by the table of the code page, which has a character
/// for every byte. The call sizes a buffer of three times the input and
/// panics when a size overflows, hence the bound.
#[verifier::external_body]
fn decode_windows_1252(bytes: &[u8]) -> (text: String)
    requires
        fits_decoder(bytes@.len()),
    ensures
        text@ == windows_1252_text(bytes@),
{
    let (text, _) = encoding_rs::WINDOWS_1252.decode_without_bom_handling(bytes);
    text.into_owned()
}

/// `encoding_rs::UTF_8.encode`: for this encoding the call returns the bytes
/// of the string as they are, without replacement.
#[verifier::external_body]
fn encode_as_utf8(text: &str) -> (bytes: Vec<u8>)
    ensures
        bytes@ == encode_utf8(text@),
{
    let (bytes, _, _) = encoding_rs::UTF_8.encode(text);
    bytes.into_owned()
}

/// A byte below `0x80` stands for the character with its code and no other
/// byte stands for such a character; every byte's character lies in the
/// basic plane.
pub proof fn lemma_char_of_byte(b: u8)
    ensures
        b < 0x80 ==> windows_1252_char(b) == b as char,
        (windows_1252_char(b) as u32) < 0x80 <==> b < 0x80,
        windows_1252_char(b) as u32 <= 0xFFFF,
{
}

/// The UTF-8 form of text in the basic plane takes one to three bytes for
/// each character, and one byte for each exactly when the text is ASCII.
pub proof fn lemma_encoded_len(chars: Seq<char>)
    requires
        forall|i: int| 0 <= i < chars.len() ==> #[trigger] chars[i] as u32 <= 0xFFFF,
    ensures
        chars.len() <= encode_utf8(chars).len() <= 3 * chars.len(),
        encode_utf8(chars).len() == chars.len() <==> is_ascii_chars(chars),
    decreases chars.len(),
{
    if chars.len() > 0 {
        let rest = chars.drop_first();
        assert forall|i: int| 0 <= i < rest.len() implies #[trigger] rest[i] as u32 <= 0xFFFF by {
            assert(rest[i] == chars[i + 1]);
        }
        lemma_encoded_len(rest);
        char_is_scalar(chars[0]);
        let first = encode_scalar(chars[0] as u32);
        assert(1 <= first.len() <= 3);
        assert(first.len() == 1 <==> chars[0] as u32 <= 0x7F);
        assert(encode_utf8(chars).len() == first.len() + encode_utf8(rest).len());
        if is_ascii_chars(chars) {
            assert(chars[0] <= '\u{7f}');
            assert forall|i: int| 0 <= i < rest.len() implies '\0' <= #[trigger] rest[i]
                <= '\u{7f}' by {
                assert(rest[i] == chars[i + 1]);
            }
        }
        if encode_utf8(chars).len() == chars.len() {
            assert(first.len() == 1);
            assert(encode_utf8(rest).len() == rest.len());
            assert(is_ascii_chars(rest));
            assert forall|i: int| 0 <= i < chars.len() implies '\0' <= #[trigger] chars[i]
                <= '\u{7f}' by {
                if i > 0 {
                    assert(chars[i] == rest[i - 1]);
                    assert('\0' <= rest[i - 1] <= '\u{7f}');
                } else {
                    char_u32_cast(chars[0], chars[0] as u32);
                }
            }
        }
    }
}

/// The UTF-8 form of two texts in a row is the form of the first followed by
/// the form of the second.
pub proof fn lemma_encode_concat(left: Seq<char>, right: Seq<char>)
    ensures
        encode_utf8(left + right) == encode_utf8(left) + encode_utf8(right),
    decreases left.len(),
{
    if left.len() == 0 {
        assert(left + right =~= right);
        assert(encode_utf8(left) + encode_utf8(right) =~= encode_utf8(right));
    } else {
        lemma_encode_concat(left.drop_first(), right);
        assert((left + right).drop_first() =~= left.drop_first() + right);
        assert((left + right)[0] == left[0]);
        assert(encode_utf8(left + right) =~= encode_utf8(left) + encode_utf8(right));
    }
}

/// Every byte is converted on its own: the result for bytes in a row is the
/// result for the first part followed by the result for the rest, and the
/// result for one byte is the UTF-8 form of that byte's character.
pub proof fn lemma_normalized_byte_by_byte(left: Seq<u8>, right: Seq<u8>, b: u8)
    ensures
        normalized(left + right) == normalized(left) + normalized(right),
        normalized(seq![b]) == encode_scalar(windows_1252_char(b) as u32),
        normalized(Seq::empty()) == Seq::<u8>::empty(),
{
    assert(windows_1252_text(left + right) =~= windows_1252_text(left) + windows_1252_text(right));
    lemma_encode_concat(windows_1252_text(left), windows_1252_text(right));
    let one = windows_1252_text(seq![b]);
    assert(one =~= seq![windows_1252_char(b)]);
    assert(one.drop_first() =~= Seq::<char>::empty());
    assert(encode_utf8(one) =~= encode_scalar(windows_1252_char(b) as u32)) by {
        reveal_with_fuel(encode_utf8, 2);
    }
    assert(windows_1252_text(Seq::empty()) =~= Seq::<char>::empty());
}

/// A byte from `0xA0` on gives two bytes: its two high bits under `0xC0`, and
/// its six low bits under `0x80`.
pub proof fn lemma_high_byte_gives_two(b: u8)
    requires
        0xA0 <= b,
    ensures
        normalized(seq![b]) == seq![0xC0 | (b >> 6), 0x80 | (b & 0x3F)],
{
    lemma_normalized_byte_by_byte(seq![], seq![], b);
    let scalar = windows_1252_char(b) as u32;
    assert(has_width_2_encoding(scalar));
    assert(leading_byte_width_2(scalar) == 0xC0 | (b >> 6) && last_continuation_byte(scalar) == 0x80
        | (b & 0x3F)) by (bit_vector)
        requires
            scalar == b as u32,
    ;
}

/// The result holds as many characters as the input holds bytes, is never
/// shorter than the input and at most three times as long, and has the
/// input's length exactly when the input is ASCII.
pub proof fn lemma_normalized_len(bytes: Seq<u8>)
    ensures
        decode_utf8(normalized(bytes)) == windows_1252_text(bytes),
        decode_utf8(normalized(bytes)).len() == bytes.len(),
        bytes.len() <= normalized(bytes).len() <= 3 * bytes.len(),
        normalized(bytes).len() == bytes.len() <==> is_ascii_bytes(bytes),
{
    let text = windows_1252_text(bytes);
    encode_utf8_decode_utf8(text);
    assert forall|i: int| 0 <= i < text.len() implies #[trigger] text[i] as u32 <= 0xFFFF by {
        lemma_char_of_byte(bytes[i]);
    }
    lemma_encoded_len(text);
    if is_ascii_bytes(bytes) {
        assert forall|i: int| 0 <= i < text.len() implies '\0' <= #[trigger] text[i]
            <= '\u{7f}' by {
            assert(bytes[i] < 0x80);
            lemma_char_of_byte(bytes[i]);
        }
    }
    if is_ascii_chars(text) {
        assert forall|i: int| 0 <= i < bytes.len() implies #[trigger] bytes[i] < 0x80 by {
            assert(text[i] <= '\u{7f}');
            lemma_char_of_byte(bytes[i]);
        }
    }
}

/// Input that holds ASCII alone is its own result, so normalising the result
/// once more changes nothing.
pub proof fn lemma_ascii_is_kept(bytes: Seq<u8>)
    requires
        is_ascii_bytes(bytes),
    ensures
        normalized(bytes) == bytes,
        normalized(normalized(bytes)) == normalized(bytes),
{
    let text = windows_1252_text(bytes);
    assert forall|i: int| 0 <= i < text.len() implies '\0' <= #[trigger] text[i] <= '\u{7f}' by {
        assert(bytes[i] < 0x80);
        lemma_char_of_byte(bytes[i]);
    }
    assert(is_ascii_chars(text));
    is_ascii_chars_encode_utf8(text);
    assert forall|i: int| 0 <= i < bytes.len() implies encode_utf8(text)[i] == bytes[i] by {
        assert(bytes[i] < 0x80);
        lemma_char_of_byte(bytes[i]);
        assert(text[i] as u8 == encode_utf8(text)[i]);
    }
    assert(encode_utf8(text) =~= bytes);
}

/// Reads every byte as its Windows-1252 character and returns the text as
/// UTF-8.
///
/// No byte order mark is looked for: the bytes of one are converted like any
/// others. Input that holds ASCII alone comes back unchanged, so normalising
/// a second time changes nothing there. Other input that was normalised
/// before is read as Windows-1252 again and is not preserved.
pub fn convert_to_utf8(bytes: &[u8]) -> (out: Vec<u8>)
    requires
        fits_decoder(bytes@.len()),
    ensures
        out@ == normalized(bytes@),
        valid_utf8(out@),
        decode_utf8(out@) == windows_1252_text(bytes@),
        bytes@.len() <= out@.len() <= 3 * bytes@.len(),
        out@.len() == bytes@.len() <==> is_ascii_bytes(bytes@),
        is_ascii_bytes(bytes@) ==> out@ == bytes@,
{
    let text = decode_windows_1252(bytes);
    let out = encode_as_utf8(text.as_str());
    proof {
        encode_utf8_valid_utf8(text@);
        lemma_normalized_len(bytes@);
        if is_ascii_bytes(bytes@) {
            lemma_ascii_is_kept(bytes@);
        }
    }
    out
}

} // verus!
