//! Text on its way to and from the device.
//!
//! The device takes text as zero-terminated byte strings and hands it out as
//! fixed-width byte fields padded with zero bytes.

use vstd::prelude::*;
use vstd::utf8::*;

verus! {

/// Whether `s` can be sent as a zero-terminated byte string: it holds no
/// NUL character.
pub open spec fn is_c_text(s: Seq<char>) -> bool {
    forall|i: int| 0 <= i < s.len() ==> s[i] != '\0'
}

/// Whether no byte of `bytes` is zero.
pub open spec fn has_no_zero_byte(bytes: Seq<u8>) -> bool {
    forall|i: int| 0 <= i < bytes.len() ==> bytes[i] != 0u8
}

/// The encoding of a character holds a zero byte exactly if the character
/// is NUL.
proof fn lemma_zero_byte_of_scalar(c: char)
    ensures
        has_no_zero_byte(encode_scalar(c as u32)) <==> c != '\0',
{
    let v = c as u32;
    char_is_scalar(c);
    assert(forall|b: u8| 0xC0u8 | b != 0) by (bit_vector);
    assert(forall|b: u8| 0xE0u8 | b != 0) by (bit_vector);
    assert(forall|b: u8| 0xF0u8 | b != 0) by (bit_vector);
    assert(forall|b: u8| 0x80u8 | b != 0) by (bit_vector);
    if has_width_1_encoding(v) {
        assert((v & 0x7F) as u8 == 0 <==> v == 0) by (bit_vector)
            requires
                v <= 0x7F,
        ;
        assert(encode_scalar(v)[0] == (v & 0x7F) as u8);
    }
}

/// Text holds a NUL character exactly if its UTF-8 encoding holds a zero
/// byte.
pub proof fn lemma_c_text_by_bytes(s: Seq<char>)
    ensures
        is_c_text(s) <==> has_no_zero_byte(encode_utf8(s)),
    decreases s.len(),
{
    if s.len() > 0 {
        let head = encode_scalar(s[0] as u32);
        let tail = encode_utf8(s.drop_first());
        lemma_zero_byte_of_scalar(s[0]);
        lemma_c_text_by_bytes(s.drop_first());
        assert(encode_utf8(s) == head + tail);
        if is_c_text(s) {
            assert(is_c_text(s.drop_first())) by {
                assert forall|i: int| 0 <= i < s.drop_first().len() implies s.drop_first()[i]
                    != '\0' by {
                    assert(s.drop_first()[i] == s[i + 1]);
                }
            }
            assert(has_no_zero_byte(head + tail));
        }
        if has_no_zero_byte(head + tail) {
            assert(has_no_zero_byte(head)) by {
                assert forall|i: int| 0 <= i < head.len() implies head[i] != 0u8 by {
                    assert((head + tail)[i] == head[i]);
                }
            }
            assert(has_no_zero_byte(tail)) by {
                assert forall|i: int| 0 <= i < tail.len() implies tail[i] != 0u8 by {
                    assert((head + tail)[head.len() + i] == tail[i]);
                }
            }
            assert forall|i: int| 0 <= i < s.len() implies s[i] != '\0' by {
                if i > 0 {
                    assert(s.drop_first()[i - 1] == s[i]);
                }
            }
        }
    }
}

/// Decides [`is_c_text`].
pub fn is_c_string(s: &str) -> (ok: bool)
    ensures
        ok == is_c_text(s@),
{
    let bytes = s.as_bytes();
    proof {
        lemma_c_text_by_bytes(s@);
    }
    let mut i: usize = 0;
    while i < bytes.len()
        invariant
            i <= bytes.len(),
            is_c_text(s@) <==> has_no_zero_byte(bytes@),
            forall|j: int| 0 <= j < i ==> bytes@[j] != 0u8,
        decreases bytes.len() - i,
    {
        if bytes[i] == 0 {
            assert(!has_no_zero_byte(bytes@)) by {
                assert(bytes@[i as int] == 0u8);
            }
            return false;
        }
        i += 1;
    }
    true
}

/// The text that `String::from_utf8_lossy` makes of `bytes`.  It is called
/// on only where the bytes are not valid UTF-8.
pub uninterp spec fn utf8_lossy(bytes: Seq<u8>) -> Seq<char>;

/// The text that a byte field decodes to.  Valid UTF-8 decodes to the
/// characters it encodes; anything else is decoded leniently, with a
/// replacement character for each ill-formed part.
pub open spec fn decoded(bytes: Seq<u8>) -> Seq<char> {
    if valid_utf8(bytes) {
        decode_utf8(bytes)
    } else {
        utf8_lossy(bytes)
    }
}

/// `s` without its trailing run of `c`.
pub open spec fn trim_end(s: Seq<char>, c: char) -> Seq<char>
    decreases s.len(),
{
    if s.len() > 0 && s.last() == c {
        trim_end(s.drop_last(), c)
    } else {
        s
    }
}

/// The text of a zero-padded byte field: its decoding, without the padding.
pub open spec fn address_text(bytes: Seq<u8>) -> Seq<char> {
    trim_end(decoded(bytes), '\0')
}

/// The characters that ASCII bytes stand for, one per byte.
pub open spec fn ascii_text(bytes: Seq<u8>) -> Seq<char> {
    Seq::new(bytes.len(), |i: int| bytes[i] as char)
}

/// `String::from_utf8_lossy`, with the result made an owned string.
///
/// Trusted: the standard library documents that valid UTF-8 is decoded as
/// it stands and that ill-formed parts are replaced; of the second case the
/// contract only says that the result depends on the bytes alone.
#[verifier::external_body]
fn from_utf8_lossy(bytes: &[u8]) -> (s: String)
    ensures
        s@ == decoded(bytes@),
        !valid_utf8(bytes@) ==> s@ == utf8_lossy(bytes@),
{
    String::from_utf8_lossy(bytes).into_owned()
}

/// `str::trim_end_matches` with a single character as the pattern.
///
/// Trusted: the standard library documents that every trailing match of
/// the pattern is removed, and nothing else.
#[verifier::external_body]
fn trim_end_matches<'a>(s: &'a str, c: char) -> (t: &'a str)
    ensures
        t@ == trim_end(s@, c),
{
    s.trim_end_matches(c)
}

/// Reads a zero-padded byte field as text.  Decoding is lenient: a field
/// that is not valid UTF-8 still yields text.
pub fn decode_address(bytes: &[u8]) -> (s: String)
    ensures
        s@ == address_text(bytes@),
{
    let text = from_utf8_lossy(bytes);
    let trimmed = trim_end_matches(text.as_str(), '\0');
    trimmed.to_owned()
}

/// ASCII bytes are valid UTF-8 and decode to themselves.
pub proof fn lemma_ascii_decodes_to_itself(bytes: Seq<u8>)
    requires
        forall|i: int| 0 <= i < bytes.len() ==> bytes[i] < 128,
    ensures
        valid_utf8(bytes),
        decoded(bytes) == ascii_text(bytes),
{
    let chars = ascii_text(bytes);
    assert(is_ascii_chars(chars));
    is_ascii_chars_encode_utf8(chars);
    assert(encode_utf8(chars) =~= bytes);
    encode_utf8_valid_utf8(chars);
    encode_utf8_decode_utf8(chars);
}

/// Trimming a run of `c` alone leaves nothing.
pub proof fn lemma_trim_end_of_run(s: Seq<char>, c: char)
    requires
        forall|i: int| 0 <= i < s.len() ==> s[i] == c,
    ensures
        trim_end(s, c) == Seq::<char>::empty(),
    decreases s.len(),
{
    if s.len() > 0 {
        lemma_trim_end_of_run(s.drop_last(), c);
    } else {
        assert(s =~= Seq::<char>::empty());
    }
}

/// Trimming text that does not end in `c` changes nothing, and a run of `c`
/// behind such text is trimmed away whole.
pub proof fn lemma_trim_end_of_padded(s: Seq<char>, pad: Seq<char>, c: char)
    requires
        s.len() == 0 || s.last() != c,
        forall|i: int| 0 <= i < pad.len() ==> pad[i] == c,
    ensures
        trim_end(s + pad, c) == s,
    decreases pad.len(),
{
    if pad.len() > 0 {
        assert((s + pad).drop_last() =~= s + pad.drop_last());
        lemma_trim_end_of_padded(s, pad.drop_last(), c);
    } else {
        assert(s + pad =~= s);
    }
}

/// A field that holds ASCII text without a zero byte, and behind it zero
/// bytes alone, reads as that text.
pub proof fn lemma_padded_field_reads_back(body: Seq<u8>, padding: Seq<u8>)
    requires
        forall|i: int| 0 <= i < body.len() ==> 0 < #[trigger] body[i] < 128,
        forall|i: int| 0 <= i < padding.len() ==> padding[i] == 0u8,
    ensures
        address_text(body + padding) == ascii_text(body),
{
    lemma_ascii_decodes_to_itself(body + padding);
    assert(ascii_text(body + padding) =~= ascii_text(body) + ascii_text(padding));
    lemma_trim_end_of_padded(ascii_text(body), ascii_text(padding), '\0');
}

/// A field of zero bytes alone, of whatever width, reads as the empty text.
pub proof fn lemma_blank_field_is_empty(bytes: Seq<u8>)
    requires
        forall|i: int| 0 <= i < bytes.len() ==> bytes[i] == 0u8,
    ensures
        address_text(bytes) == Seq::<char>::empty(),
{
    lemma_ascii_decodes_to_itself(bytes);
    lemma_trim_end_of_run(ascii_text(bytes), '\0');
}

} // verus!
