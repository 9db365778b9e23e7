use vstd::prelude::*;
use crate::error::ContentTypeError;
use crate::text::{ascii_chars, header_str, header_to_str, is_visible_ascii, lemma_ascii_utf8, utf8_to_string};
use crate::media::{MediaType, media_type_charset, spec_media_charset, spec_media_type};
use vstd::utf8::is_ascii_chars;
use crate::charset::{TextEncoding, spec_label_encoding, utf8_name};
use crate::decimal::{parse_usize, spec_parse_usize};

verus! {

/// What the request parts read here hold of a request: its raw
/// `Content-Type` and `Content-Length` header values and its query string.
pub struct RequestHead {
    /// The raw value of the `Content-Type` header, if the request has one.
    pub content_type: Option<Vec<u8>>,
    /// The raw value of the `Content-Length` header, if the request has one.
    pub content_length: Option<Vec<u8>>,
    /// The query string of the request's URI (without the `?`).
    pub query: String,
}

/// The view of an optional header value.
pub open spec fn header_view(h: Option<Vec<u8>>) -> Option<Seq<u8>> {
    match h {
        Some(v) => Some(v@),
        None => None,
    }
}

/// The media type of a request with `Content-Type` value `ct`: none without
/// the header, its text when the header is text that the `mime` crate reads,
/// and a parse error otherwise.
pub open spec fn spec_mime_type(ct: Option<Seq<u8>>) -> Result<Option<Seq<char>>, ContentTypeError> {
    match ct {
        None => Ok(None),
        Some(b) => match header_str(b) {
            None => Err(ContentTypeError::ParseError),
            Some(t) => match spec_media_type(t) {
                Some(src) => Ok(Some(src)),
                None => Err(ContentTypeError::ParseError),
            },
        },
    }
}

/// The text view of a media-type lookup.
pub open spec fn mime_result_view(r: Result<Option<MediaType>, ContentTypeError>) -> Result<
    Option<Seq<char>>,
    ContentTypeError,
> {
    match r {
        Ok(Some(m)) => Ok(Some(m@)),
        Ok(None) => Ok(None),
        Err(e) => Err(e),
    }
}

/// The encoding of a request with `Content-Type` value `ct`, as a charset
/// label (none: the UTF-8 default) and an encoding name: the `charset`
/// parameter of its media type chooses it; UTF-8 where there is no media type
/// or no charset; an error where the media type cannot be read or the label
/// is unknown.
pub open spec fn spec_encoding(ct: Option<Seq<u8>>) -> Result<(Option<Seq<char>>, Seq<char>), ContentTypeError> {
    match spec_mime_type(ct) {
        Err(e) => Err(e),
        Ok(None) => Ok((None, utf8_name())),
        Ok(Some(src)) => match spec_media_charset(src) {
            None => Ok((None, utf8_name())),
            Some(label) => match spec_label_encoding(label) {
                Some(name) => Ok((Some(label), name)),
                None => Err(ContentTypeError::UnknownEncoding),
            },
        },
    }
}

/// The view of an encoding lookup.
pub open spec fn encoding_result_view(r: Result<TextEncoding, ContentTypeError>) -> Result<(Option<Seq<char>>, Seq<char>), ContentTypeError> {
    match r {
        Ok(e) => Ok((e.label_spec(), e.name_spec())),
        Err(e) => Err(e),
    }
}

/// The declared payload length of a request with `Content-Length` value
/// `cl`: none without the header, the number it spells, or an error when it
/// spells none.
pub open spec fn spec_content_length(cl: Option<Seq<u8>>) -> Result<Option<usize>, ()> {
    match cl {
        None => Ok(None),
        Some(b) => match spec_parse_usize(b) {
            Some(n) => Ok(Some(n)),
            None => Err(()),
        },
    }
}

/// The declared length where a malformed header counts as no header.
pub open spec fn spec_lenient_length(cl: Option<Seq<u8>>) -> Option<usize> {
    match spec_content_length(cl) {
        Ok(n) => n,
        Err(_) => None,
    }
}

/// Whether `b` is white space that may surround a value in a text header.
pub open spec fn is_ows(b: u8) -> bool {
    b == 0x20 || b == 0x09
}

/// The bytes before the first `;`.
pub open spec fn before_semicolon(s: Seq<u8>) -> Seq<u8>
    decreases s.len(),
{
    if s.len() == 0 {
        s
    } else if s[0] == 0x3b {
        Seq::empty()
    } else {
        seq![s[0]] + before_semicolon(s.drop_first())
    }
}

/// The bytes without leading white space.
pub open spec fn trim_start(s: Seq<u8>) -> Seq<u8>
    decreases s.len(),
{
    if s.len() > 0 && is_ows(s[0]) {
        trim_start(s.drop_first())
    } else {
        s
    }
}

/// The bytes without trailing white space.
pub open spec fn trim_end(s: Seq<u8>) -> Seq<u8>
    decreases s.len(),
{
    if s.len() > 0 && is_ows(s.last()) {
        trim_end(s.drop_last())
    } else {
        s
    }
}

/// The ASCII lower case of a byte.
pub open spec fn ascii_lower(b: u8) -> u8 {
    if 0x41 <= b <= 0x5a {
        (b + 0x20) as u8
    } else {
        b
    }
}

/// The ASCII lower case of bytes.
pub open spec fn lower_all(s: Seq<u8>) -> Seq<u8> {
    s.map_values(|b: u8| ascii_lower(b))
}

/// The bare content type of a request: the text of its `Content-Type` value
/// before any `;`, without surrounding white space; empty without the header
/// or when the value is not text.
pub open spec fn spec_content_type(ct: Option<Seq<u8>>) -> Seq<u8> {
    match ct {
        None => Seq::empty(),
        Some(b) => match header_str(b) {
            Some(_) => trim_end(trim_start(before_semicolon(b))),
            None => Seq::empty(),
        },
    }
}

/// Whether the bare content type is, ignoring case,
/// `application/x-www-form-urlencoded`.
pub open spec fn spec_is_form_urlencoded(ct: Option<Seq<u8>>) -> bool {
    ascii_chars(lower_all(spec_content_type(ct))) == "application/x-www-form-urlencoded"@
}

proof fn lemma_before_semicolon(b: Seq<u8>, k: int, end: int)
    requires
        0 <= k <= end <= b.len(),
        forall|j: int| k <= j < end ==> #[trigger] b[j] != 0x3b,
        end == b.len() || b[end] == 0x3b,
    ensures
        before_semicolon(b.subrange(k, b.len() as int)) == b.subrange(k, end),
    decreases end - k,
{
    let s = b.subrange(k, b.len() as int);
    if k < end {
        lemma_before_semicolon(b, k + 1, end);
        assert(s.drop_first() =~= b.subrange(k + 1, b.len() as int));
        assert(s[0] == b[k]);
        assert(seq![b[k]] + b.subrange(k + 1, end) =~= b.subrange(k, end));
    } else if end < b.len() {
        assert(s[0] == b[end]);
        assert(b.subrange(k, end) =~= Seq::<u8>::empty());
    } else {
        assert(s =~= b.subrange(k, end));
    }
}

proof fn lemma_trim_start(s: Seq<u8>, k: int, lo: int)
    requires
        0 <= k <= lo <= s.len(),
        forall|j: int| k <= j < lo ==> is_ows(#[trigger] s[j]),
        lo == s.len() || !is_ows(s[lo]),
    ensures
        trim_start(s.subrange(k, s.len() as int)) == s.subrange(lo, s.len() as int),
    decreases lo - k,
{
    let t = s.subrange(k, s.len() as int);
    if k < lo {
        lemma_trim_start(s, k + 1, lo);
        assert(t.drop_first() =~= s.subrange(k + 1, s.len() as int));
        assert(t[0] == s[k]);
    } else if lo < s.len() {
        assert(t[0] == s[lo]);
    }
}

proof fn lemma_trim_end(s: Seq<u8>, lo: int, h: int, hi: int)
    requires
        0 <= lo <= hi <= h <= s.len(),
        forall|j: int| hi <= j < h ==> is_ows(#[trigger] s[j]),
        hi == lo || !is_ows(s[hi - 1]),
    ensures
        trim_end(s.subrange(lo, h)) == s.subrange(lo, hi),
    decreases h - hi,
{
    let t = s.subrange(lo, h);
    if hi < h {
        lemma_trim_end(s, lo, h - 1, hi);
        assert(t.drop_last() =~= s.subrange(lo, h - 1));
        assert(t.last() == s[h - 1]);
    } else if hi > lo {
        assert(t.last() == s[hi - 1]);
    }
}

impl RequestHead {
    /// The request's media type, read from its `Content-Type` header.
    pub fn mime_type(&self) -> (r: Result<Option<MediaType>, ContentTypeError>)
        ensures
            mime_result_view(r) == spec_mime_type(header_view(self.content_type)),
            r matches Ok(Some(m)) ==> is_ascii_chars(m@),
    {
        match &self.content_type {
            None => Ok(None),
            Some(b) => match header_to_str(b.as_slice()) {
                None => Err(ContentTypeError::ParseError),
                Some(t) => {
                    proof {
                        // Header text is visible ASCII.
                        assert forall|i: int| 0 <= i < t@.len() implies '\0' <= #[trigger] t@[i]
                            <= '\u{7f}' by {
                            assert(is_visible_ascii(b@[i]));
                        }
                    }
                    match MediaType::parse(t.as_str()) {
                        Some(m) => Ok(Some(m)),
                        None => Err(ContentTypeError::ParseError),
                    }
                },
            },
        }
    }

    /// The request's text encoding, chosen by the `charset` parameter of its
    /// media type; UTF-8 when it names none.
    pub fn encoding(&self) -> (r: Result<TextEncoding, ContentTypeError>)
        ensures
            encoding_result_view(r) == spec_encoding(header_view(self.content_type)),
            r matches Ok(e) ==> e.wf(),
    {
        match self.mime_type() {
            Err(e) => Err(e),
            Ok(None) => Ok(TextEncoding::utf8()),
            Ok(Some(m)) => match media_type_charset(&m) {
                None => Ok(TextEncoding::utf8()),
                Some(label) => match TextEncoding::for_label(label.as_str()) {
                    Some(e) => Ok(e),
                    None => Err(ContentTypeError::UnknownEncoding),
                },
            },
        }
    }

    /// The payload length that the request declares in `Content-Length`.
    pub fn content_length(&self) -> (r: Result<Option<usize>, ()>)
        ensures
            r == spec_content_length(header_view(self.content_length)),
    {
        match &self.content_length {
            None => Ok(None),
            Some(b) => match parse_usize(b.as_slice()) {
                Some(n) => Ok(Some(n)),
                None => Err(()),
            },
        }
    }

    /// Whether the request's bare content type is, ignoring case,
    /// `application/x-www-form-urlencoded`.
    #[verifier::loop_isolation(false)]
    #[verifier::rlimit(40)]
    pub fn is_form_urlencoded(&self) -> (r: bool)
        ensures
            r == spec_is_form_urlencoded(header_view(self.content_type)),
    {
        proof {
            broadcast use vstd::string::group_string_axioms;
        }
        let target = "application/x-www-form-urlencoded".to_string();
        let empty: Vec<u8> = Vec::new();
        let bytes: &[u8] = match &self.content_type {
            None => empty.as_slice(),
            Some(b) => b.as_slice(),
        };
        let ghost ct = header_view(self.content_type);
        assert(ct is Some ==> ct->0 == bytes@);
        assert(ct is None ==> bytes@ =~= Seq::<u8>::empty());
        // Only a value made of visible ASCII characters is text.
        let mut n: usize = 0;
        while n < bytes.len()
            invariant
                0 <= n <= bytes@.len(),
                forall|j: int| 0 <= j < n ==> is_visible_ascii(#[trigger] bytes@[j]),
            decreases bytes@.len() - n,
        {
            let c = bytes[n];
            if !(c == 0x09 || (0x20 <= c && c < 0x7f)) {
                proof {
                    assert(!is_visible_ascii(bytes@[n as int]));
                    assert(spec_content_type(ct) =~= Seq::<u8>::empty());
                    assert(ascii_chars(lower_all(Seq::<u8>::empty())) =~= Seq::<char>::empty());
                    reveal_strlit("application/x-www-form-urlencoded");
                }
                return false;
            }
            n = n + 1;
        }
        // The value before the first `;`.
        let mut end: usize = 0;
        while end < bytes.len() && bytes[end] != 0x3b
            invariant
                0 <= end <= bytes@.len(),
                forall|j: int| 0 <= j < end ==> #[trigger] bytes@[j] != 0x3b,
            decreases bytes@.len() - end,
        {
            end = end + 1;
        }
        // Without surrounding white space.
        let mut lo: usize = 0;
        while lo < end && (bytes[lo] == 0x20 || bytes[lo] == 0x09)
            invariant
                0 <= lo <= end <= bytes@.len(),
                forall|j: int| 0 <= j < lo ==> is_ows(#[trigger] bytes@[j]),
            decreases end - lo,
        {
            lo = lo + 1;
        }
        let mut hi: usize = end;
        while hi > lo && (bytes[hi - 1] == 0x20 || bytes[hi - 1] == 0x09)
            invariant
                0 <= lo <= hi <= end <= bytes@.len(),
                forall|j: int| hi <= j < end ==> is_ows(#[trigger] bytes@[j]),
            decreases hi - lo,
        {
            hi = hi - 1;
        }
        // In lower case.
        let mut lowered: Vec<u8> = Vec::new();
        let mut i: usize = lo;
        while i < hi
            invariant
                lo <= i <= hi <= bytes@.len(),
                lowered@ == lower_all(bytes@.subrange(lo as int, i as int)),
                forall|j: int| 0 <= j < bytes@.len() ==> is_visible_ascii(#[trigger] bytes@[j]),
            decreases hi - i,
        {
            let c = bytes[i];
            let l: u8 = if 0x41 <= c && c <= 0x5a {
                c + 0x20
            } else {
                c
            };
            lowered.push(l);
            i = i + 1;
            assert(lowered@ =~= lower_all(bytes@.subrange(lo as int, i as int)));
        }
        proof {
            let b = bytes@;
            let seg = b.subrange(0, end as int);
            lemma_before_semicolon(b, 0, end as int);
            assert(b.subrange(0, b.len() as int) =~= b);
            lemma_trim_start(seg, 0, lo as int);
            assert(seg.subrange(0, seg.len() as int) =~= seg);
            assert(seg.subrange(lo as int, seg.len() as int) =~= b.subrange(lo as int, end as int));
            let mid = b.subrange(lo as int, end as int);
            assert forall|j: int| hi - lo <= j < end - lo implies is_ows(#[trigger] mid[j]) by {
                assert(mid[j] == b[j + lo]);
            }
            if hi > lo {
                assert(mid[hi - lo - 1] == b[hi - 1]);
            }
            lemma_trim_end(mid, 0, end - lo, hi - lo);
            assert(mid.subrange(0, end - lo) =~= mid);
            assert(mid.subrange(0, hi - lo) =~= b.subrange(lo as int, hi as int));
            assert(header_str(b) is Some);
            if self.content_type is None {
                assert(b =~= Seq::<u8>::empty());
            }
            assert(spec_content_type(ct) == b.subrange(lo as int, hi as int));
            assert forall|j: int| 0 <= j < lowered@.len() implies #[trigger] lowered@[j] < 0x80 by {
                assert(is_visible_ascii(b[lo + j]));
            }
            lemma_ascii_utf8(lowered@);
        }
        match utf8_to_string(lowered.as_slice()) {
            Some(s) => s == target,
            None => false,
        }
    }
}

} // verus!
