use vstd::prelude::*;
use crate::body::{concat_chunks, declared_overflows, payload_accepted};
use crate::charset::{spec_decode_strict, spec_decode_text, spec_whatwg_encoding, utf8_name};
use crate::config::spec_check_mimetype;
use crate::error::{
    BadRequest,
    ContentTypeError,
    ExtractError,
    JsonPayloadError,
    PAYLOAD_TOO_LARGE,
    PayloadError,
    UrlencodedError,
    spec_status,
};
use crate::form::{FormBodyView, spec_form_body};
use crate::json::{spec_json_body, spec_json_read};
use crate::payload::{spec_bytes_body, spec_read_payload, spec_text_body};
use crate::request::{
    ascii_lower,
    before_semicolon,
    is_ows,
    lower_all,
    spec_content_length,
    spec_encoding,
    spec_is_form_urlencoded,
    spec_mime_type,
    trim_end,
    trim_start,
};
use crate::text::{header_str, is_visible_ascii};
use crate::media::{
    is_plain_media_text,
    lemma_plain_has_no_semicolon,
    lower_chars,
    plain_is_json,
    spec_is_json,
    spec_media_charset,
    spec_media_eq,
    spec_mime_eq,
};
use crate::text::utf8_text;
use vstd::utf8::{encode_utf8, encode_utf8_decode_utf8, encode_utf8_valid_utf8};

verus! {

/// Whether a payload is refused depends only on the bytes that arrive, not
/// on how they are split into chunks.
pub proof fn law_chunking_does_not_matter(
    limit: usize,
    declared: Option<usize>,
    a: Seq<Seq<u8>>,
    b: Seq<Seq<u8>>,
    error: Option<PayloadError>,
)
    requires
        concat_chunks(a) == concat_chunks(b),
    ensures
        payload_accepted(limit, declared, a) == payload_accepted(limit, declared, b),
        spec_read_payload(limit, declared, a, error) == spec_read_payload(limit, declared, b, error),
{
}

/// A payload that has been read never exceeds the limit.
pub proof fn law_read_payload_within_limit(
    limit: usize,
    declared: Option<usize>,
    chunks: Seq<Seq<u8>>,
    error: Option<PayloadError>,
)
    ensures
        spec_read_payload(limit, declared, chunks, error) matches Ok(body) ==> body.len() <= limit,
{
}

/// Without a required media type, every request passes the media-type
/// check: by default the media type is not enforced.
pub proof fn law_mimetype_not_enforced_by_default(ct: Option<Seq<u8>>)
    ensures
        spec_check_mimetype(None, ct) == Ok::<(), ExtractError>(()),
{
}

/// Raw bytes whose total exceeds the limit are answered with "payload too
/// large" once the media type and the declared length have passed.
pub proof fn law_bytes_overflow_is_too_large(
    limit: usize,
    required: Option<Seq<char>>,
    ct: Option<Seq<u8>>,
    cl: Option<Seq<u8>>,
    chunks: Seq<Seq<u8>>,
    error: Option<PayloadError>,
)
    requires
        spec_check_mimetype(required, ct) is Ok,
        spec_content_length(cl) is Ok,
        concat_chunks(chunks).len() > limit,
    ensures
        spec_bytes_body(limit, required, ct, cl, chunks, error) matches Err(e) && e == ExtractError::Payload(
            PayloadError::Overflow,
        ) && spec_status(e) == PAYLOAD_TOO_LARGE,
{
}

/// The text of a body is the decoding, in the request's charset, of exactly
/// the bytes that the bytes reader gives for the same request.
pub proof fn law_text_decodes_bytes(
    limit: usize,
    required: Option<Seq<char>>,
    ct: Option<Seq<u8>>,
    cl: Option<Seq<u8>>,
    chunks: Seq<Seq<u8>>,
    error: Option<PayloadError>,
)
    requires
        spec_text_body(limit, required, ct, cl, chunks, error) is Ok,
    ensures
        spec_bytes_body(limit, required, ct, cl, chunks, error) is Ok,
        spec_encoding(ct) is Ok,
        ({
            let (label, name) = spec_encoding(ct)->Ok_0;
            let b = spec_bytes_body(limit, required, ct, cl, chunks, error)->Ok_0;
            spec_decode_text(label, name, b) == Some(spec_text_body(limit, required, ct, cl, chunks, error)->Ok_0)
        }),
{
}

/// The bytes reader hands out all the bytes that arrive, in order and
/// undecoded, however they are split into chunks, once the media type and the
/// declared length pass and the bytes fit in the limit.
pub proof fn law_bytes_from_request_round_trip(
    limit: usize,
    required: Option<Seq<char>>,
    ct: Option<Seq<u8>>,
    cl: Option<Seq<u8>>,
    chunks: Seq<Seq<u8>>,
)
    requires
        spec_check_mimetype(required, ct) is Ok,
        spec_content_length(cl) matches Ok(d) && !declared_overflows(limit, d),
        concat_chunks(chunks).len() <= limit,
    ensures
        spec_bytes_body(limit, required, ct, cl, chunks, None) == Ok::<Seq<u8>, ExtractError>(
            concat_chunks(chunks),
        ),
{
}

/// The text reader decodes the body in the request's charset: as UTF-8 when
/// the charset is UTF-8 (or absent), and strictly in the named encoding
/// otherwise; a body that does not decode is refused as a bad request.
pub proof fn law_text_in_request_charset(
    limit: usize,
    required: Option<Seq<char>>,
    ct: Option<Seq<u8>>,
    cl: Option<Seq<u8>>,
    chunks: Seq<Seq<u8>>,
    error: Option<PayloadError>,
)
    requires
        spec_check_mimetype(required, ct) is Ok,
        spec_encoding(ct) is Ok,
        spec_bytes_body(limit, None, ct, cl, chunks, error) is Ok,
    ensures
        ({
            let (label, name) = spec_encoding(ct)->Ok_0;
            let b = spec_bytes_body(limit, None, ct, cl, chunks, error)->Ok_0;
            let decoded = if name == utf8_name() {
                utf8_text(b)
            } else {
                spec_decode_strict(label->0, b)
            };
            &&& label is None ==> name == utf8_name()
            &&& spec_text_body(limit, required, ct, cl, chunks, error) == match decoded {
                Some(t) => Ok::<Seq<char>, ExtractError>(t),
                None => Err(ExtractError::BadRequest(BadRequest::CannotDecodeBody)),
            }
        }),
{
}

/// The form reader keeps the body of a UTF-8 request as the bytes that
/// arrived, and decodes the body of a request in another charset strictly in
/// that charset.
pub proof fn law_form_body_in_request_charset(
    limit: usize,
    ct: Option<Seq<u8>>,
    cl: Option<Seq<u8>>,
    chunks: Seq<Seq<u8>>,
    error: Option<PayloadError>,
)
    requires
        spec_form_body(limit, ct, cl, chunks, error) is Ok,
    ensures
        error is None,
        spec_encoding(ct) is Ok,
        ({
            let (label, name) = spec_encoding(ct)->Ok_0;
            match spec_form_body(limit, ct, cl, chunks, error)->Ok_0 {
                FormBodyView::Raw(b) => name == utf8_name() && b == concat_chunks(chunks),
                FormBodyView::Decoded(t) => name != utf8_name() && label is Some && spec_decode_strict(
                    label->0,
                    concat_chunks(chunks),
                ) == Some(t),
            }
        }),
{
}

/// With a required media type, the media-type check passes exactly when the
/// request has a readable media type equal to it: ignoring ASCII case where
/// the required one has no parameters, and by the `mime` crate's equality
/// otherwise. A missing media type and an unreadable one are refused with
/// their own errors.
pub proof fn law_mimetype_check_compares_whole_types(mt: Seq<char>, ct: Option<Seq<u8>>)
    ensures
        !mt.contains(';') ==> (spec_check_mimetype(Some(mt), ct) is Ok <==> (spec_mime_type(ct) matches Ok(
            Some(m),
        ) && lower_chars(mt) == lower_chars(m))),
        mt.contains(';') ==> (spec_check_mimetype(Some(mt), ct) is Ok <==> (spec_mime_type(ct) matches Ok(
            Some(m),
        ) && spec_mime_eq(mt, m))),
        spec_mime_type(ct) matches Ok(Some(m)) && !spec_media_eq(mt, m) ==> spec_check_mimetype(Some(mt), ct)
            == Err::<(), ExtractError>(ExtractError::BadRequest(BadRequest::UnexpectedContentType)),
        spec_mime_type(ct) is Ok && spec_mime_type(ct)->Ok_0 is None ==> spec_check_mimetype(Some(mt), ct) == Err::<
            (),
            ExtractError,
        >(ExtractError::BadRequest(BadRequest::ContentTypeExpected)),
        spec_mime_type(ct) matches Err(e) ==> spec_check_mimetype(Some(mt), ct) == Err::<(), ExtractError>(
            ExtractError::ContentType(e),
        ),
{
}

/// A text sent as UTF-8 to a request read as UTF-8 comes back unchanged,
/// however its bytes are split into chunks, once the media type and the
/// declared length pass and the bytes fit in the limit.
pub proof fn law_string_from_request_round_trip(
    limit: usize,
    required: Option<Seq<char>>,
    ct: Option<Seq<u8>>,
    cl: Option<Seq<u8>>,
    chunks: Seq<Seq<u8>>,
    s: Seq<char>,
)
    requires
        spec_check_mimetype(required, ct) is Ok,
        spec_mime_type(ct) matches Ok(m) && (m matches Some(src) ==> (spec_media_charset(src) matches Some(
            label,
        ) ==> lower_chars(label) == utf8_name())),
        spec_content_length(cl) matches Ok(d) && !declared_overflows(limit, d),
        concat_chunks(chunks) == encode_utf8(s),
        encode_utf8(s).len() <= limit,
    ensures
        spec_text_body(limit, required, ct, cl, chunks, None) == Ok::<Seq<char>, ExtractError>(s),
{
    encode_utf8_valid_utf8(s);
    encode_utf8_decode_utf8(s);
}

/// The ASCII lower case of a text holds a `;` only where the text does.
proof fn lemma_lower_keeps_semicolon(t: Seq<char>)
    ensures
        lower_chars(t).contains(';') == t.contains(';'),
{
    if t.contains(';') {
        let i = choose|i: int| 0 <= i < t.len() && t[i] == ';';
        assert(lower_chars(t)[i] == ';');
    }
    if lower_chars(t).contains(';') {
        let i = choose|i: int| 0 <= i < lower_chars(t).len() && lower_chars(t)[i] == ';';
        assert(t[i] == ';');
    }
}

/// A request whose `Content-Type` is a plain `type/subtype`, in any case,
/// has that media type in lower case, and its body is read as UTF-8.
pub proof fn law_plain_content_type_reads_utf8(b: Seq<u8>)
    requires
        header_str(b) matches Some(t) && is_plain_media_text(t),
    ensures
        spec_mime_type(Some(b)) == Ok::<Option<Seq<char>>, ContentTypeError>(
            Some(lower_chars(header_str(b)->0)),
        ),
        spec_encoding(Some(b)) == Ok::<(Option<Seq<char>>, Seq<char>), ContentTypeError>((None, utf8_name())),
{
    let t = header_str(b)->0;
    lemma_plain_has_no_semicolon(t);
    lemma_lower_keeps_semicolon(t);
}

/// A request whose media type has the charset `utf-8`, in any case, has its
/// body read as UTF-8.
pub proof fn law_utf8_charset_reads_utf8(ct: Option<Seq<u8>>, src: Seq<char>, label: Seq<char>)
    requires
        spec_mime_type(ct) == Ok::<Option<Seq<char>>, ContentTypeError>(Some(src)),
        spec_media_charset(src) == Some(label),
        lower_chars(label) == utf8_name(),
    ensures
        spec_encoding(ct) == Ok::<(Option<Seq<char>>, Seq<char>), ContentTypeError>((Some(label), utf8_name())),
{
}

/// A request whose media type names a charset is read in the encoding that
/// the WHATWG label table gives for it, and refused when the label is
/// unknown; a media type without a charset is read as UTF-8.
pub proof fn law_charset_chooses_encoding(ct: Option<Seq<u8>>, src: Seq<char>)
    requires
        spec_mime_type(ct) == Ok::<Option<Seq<char>>, ContentTypeError>(Some(src)),
    ensures
        spec_media_charset(src) is None ==> spec_encoding(ct) == Ok::<
            (Option<Seq<char>>, Seq<char>),
            ContentTypeError,
        >((None, utf8_name())),
        spec_media_charset(src) matches Some(label) ==> (lower_chars(label) != utf8_name() ==> spec_encoding(
            ct,
        ) == match spec_whatwg_encoding(label) {
            Some(name) => Ok::<(Option<Seq<char>>, Seq<char>), ContentTypeError>((Some(label), name)),
            None => Err(ContentTypeError::UnknownEncoding),
        }),
{
}

/// A request whose `Content-Type` is a plain `type/subtype` has its body
/// read as JSON exactly when its subtype or its suffix is `json`, in any
/// case.
pub proof fn law_plain_json_media_type(
    limit: usize,
    b: Seq<u8>,
    cl: Option<Seq<u8>>,
    chunks: Seq<Seq<u8>>,
    error: Option<PayloadError>,
)
    requires
        header_str(b) matches Some(t) && is_plain_media_text(t),
    ensures
        plain_is_json(lower_chars(header_str(b)->0)) ==> spec_json_body(limit, Some(b), cl, chunks, error)
            == spec_json_read(limit, cl, chunks, error),
        !plain_is_json(lower_chars(header_str(b)->0)) ==> spec_json_body(limit, Some(b), cl, chunks, error)
            == Err::<Seq<u8>, JsonPayloadError>(JsonPayloadError::ContentType),
{
    let t = header_str(b)->0;
    lemma_plain_has_no_semicolon(t);
    lemma_lower_keeps_semicolon(t);
}

/// A request without a `Content-Type` header has its body read as UTF-8.
pub proof fn law_text_defaults_to_utf8(
    limit: usize,
    cl: Option<Seq<u8>>,
    chunks: Seq<Seq<u8>>,
    error: Option<PayloadError>,
)
    ensures
        spec_encoding(None) == Ok::<(Option<Seq<char>>, Seq<char>), crate::error::ContentTypeError>((None, utf8_name())),
        match spec_bytes_body(limit, None, None, cl, chunks, error) {
            Ok(b) => match utf8_text(b) {
                Some(t) => spec_text_body(limit, None, None, cl, chunks, error) == Ok::<Seq<char>, ExtractError>(t),
                None => spec_text_body(limit, None, None, cl, chunks, error) == Err::<Seq<char>, ExtractError>(
                    ExtractError::BadRequest(crate::error::BadRequest::CannotDecodeBody),
                ),
            },
            Err(e) => spec_text_body(limit, None, None, cl, chunks, error) == Err::<Seq<char>, ExtractError>(e),
        },
{
}

/// A form is read only from a request whose content type is
/// `application/x-www-form-urlencoded`.
pub proof fn law_form_needs_form_content_type(
    limit: usize,
    ct: Option<Seq<u8>>,
    cl: Option<Seq<u8>>,
    chunks: Seq<Seq<u8>>,
    error: Option<PayloadError>,
)
    ensures
        spec_form_body(limit, ct, cl, chunks, error) is Ok ==> spec_is_form_urlencoded(ct),
        !spec_is_form_urlencoded(ct) ==> spec_form_body(limit, ct, cl, chunks, error) == Err::<
            crate::form::FormBodyView,
            UrlencodedError,
        >(UrlencodedError::ContentType),
{
}

/// A JSON body is read only from a request whose media type is JSON.
pub proof fn law_json_needs_json_media_type(
    limit: usize,
    ct: Option<Seq<u8>>,
    cl: Option<Seq<u8>>,
    chunks: Seq<Seq<u8>>,
    error: Option<PayloadError>,
)
    ensures
        spec_json_body(limit, ct, cl, chunks, error) is Ok ==> (spec_mime_type(ct) matches Ok(Some(src))
            && spec_is_json(src)),
{
}

/// Every reader that reads a body under a limit refuses a body that exceeds
/// it, and never hands out more than the limit.
pub proof fn law_form_and_json_within_limit(
    limit: usize,
    ct: Option<Seq<u8>>,
    cl: Option<Seq<u8>>,
    chunks: Seq<Seq<u8>>,
    error: Option<PayloadError>,
)
    ensures
        spec_json_body(limit, ct, cl, chunks, error) matches Ok(b) ==> b.len() <= limit,
        spec_form_body(limit, ct, cl, chunks, error) matches Ok(crate::form::FormBodyView::Raw(b)) ==> b.len() <= limit,
        spec_form_body(limit, ct, cl, chunks, error) is Ok ==> concat_chunks(chunks).len() <= limit,
{
}

proof fn lemma_lower_before_semicolon(s: Seq<u8>)
    ensures
        before_semicolon(lower_all(s)) == lower_all(before_semicolon(s)),
    decreases s.len(),
{
    if s.len() > 0 {
        assert(lower_all(s).drop_first() =~= lower_all(s.drop_first()));
        lemma_lower_before_semicolon(s.drop_first());
        if s[0] == 0x3b {
            assert(lower_all(Seq::<u8>::empty()) =~= Seq::<u8>::empty());
        } else {
            assert(lower_all(seq![s[0]] + before_semicolon(s.drop_first())) =~= seq![ascii_lower(s[0])]
                + lower_all(before_semicolon(s.drop_first())));
        }
    } else {
        assert(lower_all(s) =~= s);
    }
}

proof fn lemma_lower_trim_start(s: Seq<u8>)
    ensures
        trim_start(lower_all(s)) == lower_all(trim_start(s)),
    decreases s.len(),
{
    if s.len() > 0 {
        assert(lower_all(s).drop_first() =~= lower_all(s.drop_first()));
        lemma_lower_trim_start(s.drop_first());
        assert(is_ows(ascii_lower(s[0])) == is_ows(s[0]));
    } else {
        assert(lower_all(s) =~= s);
    }
}

proof fn lemma_lower_trim_end(s: Seq<u8>)
    ensures
        trim_end(lower_all(s)) == lower_all(trim_end(s)),
    decreases s.len(),
{
    if s.len() > 0 {
        assert(lower_all(s).drop_last() =~= lower_all(s.drop_last()));
        lemma_lower_trim_end(s.drop_last());
        assert(is_ows(ascii_lower(s.last())) == is_ows(s.last()));
    } else {
        assert(lower_all(s) =~= s);
    }
}

/// The form content type is compared ignoring case: a `Content-Type` value
/// and its ASCII lower case are answered alike.
pub proof fn law_form_type_ignores_case(b: Seq<u8>)
    ensures
        spec_is_form_urlencoded(Some(b)) == spec_is_form_urlencoded(Some(lower_all(b))),
{
    let l = lower_all(b);
    assert forall|i: int| 0 <= i < b.len() implies is_visible_ascii(#[trigger] l[i]) == is_visible_ascii(b[i]) by {
    }
    if header_str(b) is Some {
        assert(header_str(l) is Some);
    } else {
        let i = choose|i: int| 0 <= i < b.len() && !is_visible_ascii(#[trigger] b[i]);
        assert(!is_visible_ascii(l[i]));
        assert(header_str(l) is None);
    }
    lemma_lower_before_semicolon(b);
    lemma_lower_trim_start(before_semicolon(b));
    lemma_lower_trim_end(trim_start(before_semicolon(b)));
    let c = trim_end(trim_start(before_semicolon(b)));
    assert(lower_all(lower_all(c)) =~= lower_all(c));
}

proof fn lemma_before_semicolon_params(b: Seq<u8>, p: Seq<u8>)
    requires
        forall|i: int| 0 <= i < b.len() ==> #[trigger] b[i] != 0x3b,
    ensures
        before_semicolon(b + seq![0x3bu8] + p) == b,
    decreases b.len(),
{
    if b.len() > 0 {
        lemma_before_semicolon_params(b.drop_first(), p);
        assert((b + seq![0x3bu8] + p).drop_first() =~= b.drop_first() + seq![0x3bu8] + p);
        assert(seq![b[0]] + b.drop_first() =~= b);
    } else {
        assert(b + seq![0x3bu8] + p =~= seq![0x3bu8] + p);
    }
}

proof fn lemma_no_semicolon(b: Seq<u8>)
    requires
        forall|i: int| 0 <= i < b.len() ==> #[trigger] b[i] != 0x3b,
    ensures
        before_semicolon(b) == b,
    decreases b.len(),
{
    if b.len() > 0 {
        lemma_no_semicolon(b.drop_first());
        assert(seq![b[0]] + b.drop_first() =~= b);
    }
}

/// Parameters after a `;` do not change whether a request is a form: a bare
/// content type and the same type followed by text parameters are answered
/// alike.
pub proof fn law_form_type_ignores_parameters(b: Seq<u8>, p: Seq<u8>)
    requires
        forall|i: int| 0 <= i < b.len() ==> #[trigger] b[i] != 0x3b,
        forall|i: int| 0 <= i < p.len() ==> is_visible_ascii(#[trigger] p[i]),
    ensures
        spec_is_form_urlencoded(Some(b + seq![0x3bu8] + p)) == spec_is_form_urlencoded(Some(b)),
{
    let full = b + seq![0x3bu8] + p;
    lemma_before_semicolon_params(b, p);
    lemma_no_semicolon(b);
    assert(b + seq![0x3bu8] + p == full);
    assert forall|i: int| 0 <= i < b.len() implies full[i] == b[i] by {}
    assert forall|i: int| 0 <= i < p.len() implies full[b.len() + 1 + i] == p[i] by {}
    if header_str(b) is Some {
        assert forall|i: int| 0 <= i < full.len() implies is_visible_ascii(#[trigger] full[i]) by {
            if i < b.len() {
                assert(full[i] == b[i]);
            } else if i > b.len() {
                assert(full[i] == p[i - b.len() - 1]);
            }
        }
        assert(header_str(full) is Some);
    } else {
        let i = choose|i: int| 0 <= i < b.len() && !is_visible_ascii(#[trigger] b[i]);
        assert(full[i] == b[i]);
        assert(header_str(full) is None);
    }
}

} // verus!
