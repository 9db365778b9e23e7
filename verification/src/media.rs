use vstd::prelude::*;
use vstd::utf8::is_ascii_chars;

verus! {

/// A media type of the `mime` crate.
#[verifier::external_type_specification]
#[verifier::external_body]
pub struct ExMime(mime::Mime);

/// A parsed media type together with its text, as the `mime` crate keeps it
/// (`Mime::as_ref`). Only the functions of this module make one, so the text
/// is always the one of the media type it stands beside.
pub struct MediaType {
    mime: mime::Mime,
    source: String,
}

impl View for MediaType {
    type V = Seq<char>;

    /// The media type's text, as the `mime` crate keeps it.
    closed spec fn view(&self) -> Seq<char> {
        self.source@
    }
}

/// The text of the media type that `mime::Mime::from_str` reads from `text`,
/// or nothing where it refuses the text.
pub uninterp spec fn spec_parse_mime(text: Seq<char>) -> Option<Seq<char>>;

/// Whether the `mime` crate holds the media types with texts `a` and `b` equal.
pub uninterp spec fn spec_mime_eq(a: Seq<char>, b: Seq<char>) -> bool;

/// The `charset` parameter of the media type with text `src`.
pub uninterp spec fn spec_mime_charset(src: Seq<char>) -> Option<Seq<char>>;

/// The subtype of the media type with text `src`.
pub uninterp spec fn spec_mime_subtype(src: Seq<char>) -> Seq<char>;

/// The suffix (after `+`) of the media type with text `src`.
pub uninterp spec fn spec_mime_suffix(src: Seq<char>) -> Option<Seq<char>>;

/// The ASCII lower case of a character.
pub open spec fn lower_char(c: char) -> char {
    if 'A' <= c <= 'Z' {
        ((c as u32) + 32) as char
    } else {
        c
    }
}

/// The ASCII lower case of a text.
pub open spec fn lower_chars(t: Seq<char>) -> Seq<char> {
    t.map_values(|c: char| lower_char(c))
}

/// Whether `c` may stand in a plain media type: an ASCII letter or digit,
/// `-`, `.` or `+`.
pub open spec fn is_plain_media_char(c: char) -> bool {
    ('a' <= c <= 'z') || ('A' <= c <= 'Z') || ('0' <= c <= '9') || c == '-' || c == '.' || c == '+'
}

/// Whether `t` is a plain media type without parameters: plain characters
/// around one `/` that is not the first character.
pub open spec fn is_plain_media_text(t: Seq<char>) -> bool {
    exists|k: int|
        0 < k < t.len() && #[trigger] t[k] == '/' && forall|i: int|
            0 <= i < t.len() && i != k ==> is_plain_media_char(#[trigger] t[i])
}

/// The text of the media type read from `text`, or nothing where the `mime`
/// crate refuses it: a text without parameters is kept in ASCII lower case,
/// and a plain `type/subtype` is always accepted.
pub open spec fn spec_media_type(text: Seq<char>) -> Option<Seq<char>> {
    if is_plain_media_text(text) {
        Some(lower_chars(text))
    } else if !text.contains(';') {
        match spec_parse_mime(text) {
            Some(_) => Some(lower_chars(text)),
            None => None,
        }
    } else {
        spec_parse_mime(text)
    }
}

/// The `charset` parameter of the media type with text `src`: none where it
/// has no parameters.
pub open spec fn spec_media_charset(src: Seq<char>) -> Option<Seq<char>> {
    if !src.contains(';') {
        None
    } else {
        spec_mime_charset(src)
    }
}

/// Whether the media types with texts `a` and `b` are equal: where the first
/// has no parameters, whether the texts are equal ignoring ASCII case.
pub open spec fn spec_media_eq(a: Seq<char>, b: Seq<char>) -> bool {
    if !a.contains(';') {
        lower_chars(a) == lower_chars(b)
    } else {
        spec_mime_eq(a, b)
    }
}

/// A plain media type text has no `;`.
pub proof fn lemma_plain_has_no_semicolon(t: Seq<char>)
    requires
        is_plain_media_text(t),
    ensures
        !t.contains(';'),
{
    let k = choose|k: int|
        0 < k < t.len() && #[trigger] t[k] == '/' && forall|i: int|
            0 <= i < t.len() && i != k ==> is_plain_media_char(#[trigger] t[i]);
    assert forall|i: int| 0 <= i < t.len() implies #[trigger] t[i] != ';' by {
        if i != k {
            assert(is_plain_media_char(t[i]));
        }
    }
}

/// Calls `<mime::Mime as FromStr>::from_str` on `text`. Claimed: the result
/// is a function of the text alone (named `spec_parse_mime`); the media type
/// comes with its own text (`Mime::as_ref`). Also claimed, from the crate's
/// parser: a plain `type/subtype` text is accepted; a text without `;` is
/// kept in ASCII lower case; an ASCII text gives an ASCII text.
#[verifier::external_body]
pub(crate) fn parse_media_type(text: &str) -> (r: Option<MediaType>)
    ensures
        match r {
            Some(m) => spec_parse_mime(text@) == Some(m@),
            None => spec_parse_mime(text@) is None,
        },
        is_plain_media_text(text@) ==> r is Some,
        !text@.contains(';') ==> (r matches Some(m) ==> m@ == lower_chars(text@)),
        is_ascii_chars(text@) ==> (r matches Some(m) ==> is_ascii_chars(m@)),
{
    text.parse::<mime::Mime>().ok().map(|m| MediaType { source: m.as_ref().to_string(), mime: m })
}

/// Wraps a media type given by a caller, with its text (`Mime::as_ref`).
/// Nothing is claimed of that text: a `Mime` is opaque here.
#[verifier::external_body]
pub(crate) fn media_type_from_mime(m: mime::Mime) -> (r: MediaType) {
    MediaType { source: m.as_ref().to_string(), mime: m }
}

/// Calls `<mime::Mime as PartialEq>::eq`. Claimed: the answer is a function
/// of the two media types' texts (named `spec_mime_eq`); where the first has
/// no parameters (no `;`), the texts are compared ignoring ASCII case. The
/// comparison cuts the second text at positions of the first, so the second
/// must be ASCII.
#[verifier::external_body]
pub(crate) fn media_type_eq(a: &MediaType, b: &MediaType) -> (r: bool)
    requires
        is_ascii_chars(b@),
    ensures
        r == spec_mime_eq(a@, b@),
        !a@.contains(';') ==> r == (lower_chars(a@) == lower_chars(b@)),
{
    a.mime == b.mime
}

/// The position of the first `c` in `t`, or the length of `t` without one.
pub open spec fn first_index_of(t: Seq<char>, c: char) -> int
    decreases t.len(),
{
    if t.len() == 0 {
        0
    } else if t[0] == c {
        0
    } else {
        1 + first_index_of(t.drop_first(), c)
    }
}

/// The position of the last `+` in `t` after position `from`, or -1.
pub open spec fn last_plus_after(t: Seq<char>, from: int) -> int
    decreases t.len(),
{
    if t.len() == 0 {
        -1
    } else if t.len() - 1 > from && t.last() == '+' {
        t.len() - 1
    } else {
        last_plus_after(t.drop_last(), from)
    }
}

/// The subtype of a media type text without parameters: after the first
/// `/`, up to the last `+` that is not its first character.
pub open spec fn plain_subtype(t: Seq<char>) -> Seq<char> {
    let k = first_index_of(t, '/');
    let p = last_plus_after(t, k + 1);
    if p > k + 1 {
        t.subrange(k + 1, p)
    } else {
        t.subrange(k + 1, t.len() as int)
    }
}

/// The suffix of a media type text without parameters: after that `+`.
pub open spec fn plain_suffix(t: Seq<char>) -> Option<Seq<char>> {
    let k = first_index_of(t, '/');
    let p = last_plus_after(t, k + 1);
    if p > k + 1 {
        Some(t.subrange(p + 1, t.len() as int))
    } else {
        None
    }
}

/// Calls `mime::Mime::get_param` with the `charset` name and copies the
/// value. Claimed: the value is a function of the media type's text; a media
/// type without parameters (no `;`) has none.
#[verifier::external_body]
pub(crate) fn media_type_charset(m: &MediaType) -> (r: Option<String>)
    ensures
        match r {
            Some(c) => spec_mime_charset(m@) == Some(c@),
            None => spec_mime_charset(m@) is None,
        },
        !m@.contains(';') ==> r is None,
{
    m.mime.get_param(mime::CHARSET).map(|n| n.as_str().to_string())
}

/// Calls `mime::Mime::subtype` and copies it. Claimed: a function of the
/// media type's text; without parameters, the text between the first `/`
/// and the suffix's `+`.
#[verifier::external_body]
pub(crate) fn media_type_subtype(m: &MediaType) -> (r: String)
    ensures
        r@ == spec_mime_subtype(m@),
        !m@.contains(';') ==> r@ == plain_subtype(m@),
{
    m.mime.subtype().as_str().to_string()
}

/// Calls `mime::Mime::suffix` and copies it. Claimed: a function of the
/// media type's text; without parameters, the text after the last `+` of
/// the subtype.
#[verifier::external_body]
pub(crate) fn media_type_suffix(m: &MediaType) -> (r: Option<String>)
    ensures
        match r {
            Some(s) => spec_mime_suffix(m@) == Some(s@),
            None => spec_mime_suffix(m@) is None,
        },
        !m@.contains(';') ==> match r {
            Some(s) => plain_suffix(m@) == Some(s@),
            None => plain_suffix(m@) is None,
        },
{
    m.mime.suffix().map(|n| n.as_str().to_string())
}

impl MediaType {
    /// Reads a media type from its text, as the `mime` crate does.
    pub fn parse(text: &str) -> (r: Option<MediaType>)
        ensures
            match r {
                Some(m) => spec_media_type(text@) == Some(m@),
                None => spec_media_type(text@) is None,
            },
            is_ascii_chars(text@) ==> (r matches Some(m) ==> is_ascii_chars(m@)),
    {
        let r = parse_media_type(text);
        proof {
            if is_plain_media_text(text@) {
                lemma_plain_has_no_semicolon(text@);
            }
        }
        r
    }

    /// Takes a media type of the `mime` crate (such as
    /// `mime::APPLICATION_JSON`) with its text. Nothing can be said of that
    /// text here: a `Mime` is opaque.
    pub fn from_mime(m: mime::Mime) -> (r: MediaType) {
        media_type_from_mime(m)
    }
}

/// Whether a media type text without parameters is JSON.
pub open spec fn plain_is_json(t: Seq<char>) -> bool {
    plain_subtype(t) == "json"@ || plain_suffix(t) == Some("json"@)
}

/// Whether a media type with text `src` is JSON: its subtype or its suffix
/// is `json`.
pub open spec fn spec_is_json(src: Seq<char>) -> bool {
    if !src.contains(';') {
        plain_is_json(src)
    } else {
        spec_mime_subtype(src) == "json"@ || spec_mime_suffix(src) == Some("json"@)
    }
}

/// Whether the media type is JSON (`application/json`, `text/json`,
/// `application/problem+json`, ...).
pub fn is_json(m: &MediaType) -> (r: bool)
    ensures
        r == spec_is_json(m@),
{
    let json = "json".to_string();
    proof {
        broadcast use vstd::string::group_string_axioms;
    }
    let sub = media_type_subtype(m);
    if sub == json {
        return true;
    }
    match media_type_suffix(m) {
        Some(s) => s == json,
        None => false,
    }
}

} // verus!
