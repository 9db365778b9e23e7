use vstd::prelude::*;
use vstd::utf8::*;

verus! {

/// Whether `b` may stand in a header value that is read as text: a tab or a
/// visible ASCII character (space included).
pub open spec fn is_visible_ascii(b: u8) -> bool {
    b == 0x09 || (0x20 <= b && b < 0x7f)
}

/// The characters of bytes that are all ASCII.
pub open spec fn ascii_chars(b: Seq<u8>) -> Seq<char> {
    Seq::new(b.len(), |i: int| b[i] as char)
}

/// The text of a header value: its bytes read as characters when every byte
/// is visible ASCII, and nothing otherwise.
pub open spec fn header_str(b: Seq<u8>) -> Option<Seq<char>> {
    if forall|i: int| 0 <= i < b.len() ==> is_visible_ascii(#[trigger] b[i]) {
        Some(ascii_chars(b))
    } else {
        None
    }
}

/// The text that `std::str::from_utf8` reads from bytes: their decoding when
/// they are valid UTF-8, nothing otherwise.
pub open spec fn utf8_text(b: Seq<u8>) -> Option<Seq<char>> {
    if valid_utf8(b) {
        Some(decode_utf8(b))
    } else {
        None
    }
}

/// The view of an optional string.
pub open spec fn opt_view(s: Option<String>) -> Option<Seq<char>> {
    match s {
        Some(t) => Some(t@),
        None => None,
    }
}

/// Calls `std::str::from_utf8` and copies the text it reads. Its
/// documentation: it returns the string when the bytes are valid UTF-8 and an
/// error otherwise; `valid_utf8` and `decode_utf8` of vstd state that.
#[verifier::external_body]
pub(crate) fn utf8_to_string(bytes: &[u8]) -> (r: Option<String>)
    ensures
        opt_view(r) == utf8_text(bytes@),
{
    std::str::from_utf8(bytes).ok().map(|s| s.to_string())
}

/// Bytes below 0x80 form valid UTF-8 that decodes to the same characters.
pub proof fn lemma_ascii_utf8(b: Seq<u8>)
    requires
        forall|i: int| 0 <= i < b.len() ==> #[trigger] b[i] < 0x80,
    ensures
        valid_utf8(b),
        decode_utf8(b) == ascii_chars(b),
    decreases b.len(),
{
    if b.len() > 0 {
        let rest = b.subrange(1, b.len() as int);
        assert forall|i: int| 0 <= i < rest.len() implies #[trigger] rest[i] < 0x80 by {
            assert(rest[i] == b[i + 1]);
        }
        lemma_ascii_utf8(rest);
        let b0 = b[0];
        assert(b0 < 0x80);
        assert(leading_bits_width_1(b0) == b0 as u32) by (bit_vector)
            requires
                b0 < 0x80,
        ;
        assert(pop_first_scalar(b) =~= rest);
        assert(decode_utf8(b) =~= ascii_chars(b));
    } else {
        assert(decode_utf8(b) =~= ascii_chars(b));
    }
}

/// Reads a header value as text, as `HeaderValue::to_str` of the `http`
/// crate does: only values made of visible ASCII characters are text.
pub fn header_to_str(bytes: &[u8]) -> (r: Option<String>)
    ensures
        opt_view(r) == header_str(bytes@),
{
    let mut i: usize = 0;
    while i < bytes.len()
        invariant
            0 <= i <= bytes@.len(),
            forall|j: int| 0 <= j < i ==> is_visible_ascii(#[trigger] bytes@[j]),
        decreases bytes@.len() - i,
    {
        let b = bytes[i];
        if !(b == 0x09 || (0x20 <= b && b < 0x7f)) {
            assert(!is_visible_ascii(bytes@[i as int]));
            return None;
        }
        i = i + 1;
    }
    proof {
        lemma_ascii_utf8(bytes@);
    }
    utf8_to_string(bytes)
}

} // verus!
