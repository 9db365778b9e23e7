use vstd::prelude::*;
use crate::charset::{spec_decode_text, utf8_name};
use crate::config::FormConfig;
use crate::error::{ExtractError, UrlencodedError};
use crate::payload::{Payload, ReadFailure, read_payload, spec_read_payload};
use crate::request::{
    RequestHead,
    header_view,
    spec_content_length,
    spec_encoding,
    spec_is_form_urlencoded,
};
use crate::wrappers::Form;
use vstd::utf8::encode_utf8;

verus! {

/// The body of a url-encoded form, ready to be parsed: the raw bytes when the
/// request is UTF-8, or the text decoded from its charset.
pub enum FormBody {
    /// The body of a UTF-8 request.
    Raw(Vec<u8>),
    /// The body of a request in another charset, decoded.
    Decoded(String),
}

/// The view of a form body.
pub enum FormBodyView {
    /// The body of a UTF-8 request.
    Raw(Seq<u8>),
    /// The body of a request in another charset, decoded.
    Decoded(Seq<char>),
}

impl FormBody {
    /// The body's view.
    pub open spec fn view_spec(&self) -> FormBodyView {
        match self {
            FormBody::Raw(b) => FormBodyView::Raw(b@),
            FormBody::Decoded(s) => FormBodyView::Decoded(s@),
        }
    }
}

/// What reading a url-encoded form gives: the request must be
/// `application/x-www-form-urlencoded` with a known charset, declare a
/// readable length, and send a payload within the limit; the body of a UTF-8
/// request is kept as bytes, other bodies are decoded from their charset.
pub open spec fn spec_form_body(
    limit: usize,
    ct: Option<Seq<u8>>,
    cl: Option<Seq<u8>>,
    chunks: Seq<Seq<u8>>,
    error: Option<crate::error::PayloadError>,
) -> Result<FormBodyView, UrlencodedError> {
    if !spec_is_form_urlencoded(ct) {
        Err(UrlencodedError::ContentType)
    } else {
        match spec_encoding(ct) {
            Err(_) => Err(UrlencodedError::ContentType),
            Ok((label, name)) => match spec_content_length(cl) {
                Err(()) => Err(UrlencodedError::UnknownLength),
                Ok(declared) => match spec_read_payload(limit, declared, chunks, error) {
                    Err(ReadFailure::Overflow) => Err(UrlencodedError::Overflow),
                    Err(ReadFailure::Stream(e)) => Err(UrlencodedError::Payload(e)),
                    Ok(b) => if name == utf8_name() {
                        Ok(FormBodyView::Raw(b))
                    } else {
                        match spec_decode_text(label, name, b) {
                            Some(t) => Ok(FormBodyView::Decoded(t)),
                            None => Err(UrlencodedError::Parse),
                        }
                    },
                },
            },
        }
    }
}

/// The view of a form-body result.
pub open spec fn form_body_view(r: Result<FormBody, UrlencodedError>) -> Result<FormBodyView, UrlencodedError> {
    match r {
        Ok(b) => Ok(b.view_spec()),
        Err(e) => Err(e),
    }
}

/// Reads the body of a url-encoded form under the configured limit.
pub fn form_body(cfg: &FormConfig, head: &RequestHead, payload: &Payload) -> (r: Result<
    FormBody,
    UrlencodedError,
>)
    ensures
        form_body_view(r) == spec_form_body(
            cfg.limit_spec(),
            header_view(head.content_type),
            header_view(head.content_length),
            payload.chunks_spec(),
            payload.error,
        ),
        r matches Ok(FormBody::Raw(b)) ==> b@.len() <= cfg.limit_spec(),
{
    if !head.is_form_urlencoded() {
        return Err(UrlencodedError::ContentType);
    }
    let encoding = match head.encoding() {
        Err(_) => return Err(UrlencodedError::ContentType),
        Ok(e) => e,
    };
    let declared = match head.content_length() {
        Err(()) => return Err(UrlencodedError::UnknownLength),
        Ok(d) => d,
    };
    let body = match read_payload(cfg.get_limit(), declared, payload) {
        Err(ReadFailure::Overflow) => return Err(UrlencodedError::Overflow),
        Err(ReadFailure::Stream(e)) => return Err(UrlencodedError::Payload(e)),
        Ok(b) => b,
    };
    if encoding.is_utf8() {
        Ok(FormBody::Raw(body))
    } else {
        match encoding.decode(body.as_slice()) {
            Some(t) => Ok(FormBody::Decoded(t)),
            None => Err(UrlencodedError::Parse),
        }
    }
}

/// The bytes that the url-encoded parser reads from a form body: the raw
/// bytes, or the UTF-8 encoding of the decoded text.
pub open spec fn form_body_bytes(v: FormBodyView) -> Seq<u8> {
    match v {
        FormBodyView::Raw(b) => b,
        FormBodyView::Decoded(t) => encode_utf8(t),
    }
}

/// Calls `serde_urlencoded::from_bytes` to read a `T` from url-encoded
/// bytes. Nothing is claimed of the result: it depends on how `T`
/// deserializes. The call reads `bytes` alone; the request's parts are
/// taken so that every caller must show that `bytes` is that request's whole
/// form body.
#[verifier::external_body]
fn urlencoded_from_bytes<T: serde::de::DeserializeOwned>(
    cfg: &FormConfig,
    head: &RequestHead,
    payload: &Payload,
    bytes: &[u8],
) -> (r: Result<T, serde::de::value::Error>)
    requires
        spec_form_body(
            cfg.limit_spec(),
            header_view(head.content_type),
            header_view(head.content_length),
            payload.chunks_spec(),
            payload.error,
        ) matches Ok(v) && form_body_bytes(v) == bytes@,
{
    serde_urlencoded::from_bytes::<T>(bytes)
}

/// The answer that the default error handler gives to a form error.
pub open spec fn spec_form_error(e: UrlencodedError) -> ExtractError {
    ExtractError::Urlencoded(e)
}

/// The default error handler of the form reader: the error itself.
pub fn form_error(e: UrlencodedError, head: &RequestHead) -> (r: ExtractError)
    ensures
        r == spec_form_error(e),
{
    ExtractError::Urlencoded(e)
}

impl<T> Form<T> {
    /// The form that a body parsed as `r` gives: the value, or a parse
    /// error.
    pub fn from_parsed(r: Result<T, serde::de::value::Error>) -> (f: Result<Form<T>, UrlencodedError>)
        ensures
            match r {
                Ok(v) => f matches Ok(x) && x.0 == v,
                Err(_) => f == Err::<Form<T>, UrlencodedError>(UrlencodedError::Parse),
            },
    {
        match r {
            Ok(v) => Ok(Form(v)),
            Err(_) => Err(UrlencodedError::Parse),
        }
    }

    /// Reads a `T` from the request's url-encoded body under the configured
    /// limit; a failure is answered by `handler`.
    pub fn from_request_with<F>(
        cfg: &FormConfig,
        head: &RequestHead,
        payload: &Payload,
        handler: F,
    ) -> (f: Result<Form<T>, ExtractError>) where
        T: serde::de::DeserializeOwned,
        F: Fn(UrlencodedError, &RequestHead) -> ExtractError,

        requires
            forall|e: UrlencodedError| call_requires(handler, (e, head)),
        ensures
            match spec_form_body(
                cfg.limit_spec(),
                header_view(head.content_type),
                header_view(head.content_length),
                payload.chunks_spec(),
                payload.error,
            ) {
                Err(e) => f matches Err(x) && call_ensures(handler, (e, head), x),
                Ok(_) => f is Ok || (f matches Err(x) && call_ensures(
                    handler,
                    (UrlencodedError::Parse, head),
                    x,
                )),
            },
    {
        let parsed = match form_body(cfg, head, payload) {
            Err(e) => return Err(handler(e, head)),
            Ok(FormBody::Raw(b)) => Form::from_parsed(
                urlencoded_from_bytes::<T>(cfg, head, payload, b.as_slice()),
            ),
            Ok(FormBody::Decoded(t)) => Form::from_parsed(
                urlencoded_from_bytes::<T>(cfg, head, payload, t.as_str().as_bytes()),
            ),
        };
        match parsed {
            Ok(form) => Ok(form),
            Err(e) => Err(handler(e, head)),
        }
    }

    /// Reads a `T` from the request's url-encoded body under the configured
    /// limit; a failure is answered by the default error handler.
    pub fn from_request(cfg: &FormConfig, head: &RequestHead, payload: &Payload) -> (f: Result<
        Form<T>,
        ExtractError,
    >) where T: serde::de::DeserializeOwned
        ensures
            match spec_form_body(
                cfg.limit_spec(),
                header_view(head.content_type),
                header_view(head.content_length),
                payload.chunks_spec(),
                payload.error,
            ) {
                Err(e) => f == Err::<Form<T>, ExtractError>(spec_form_error(e)),
                Ok(_) => f is Ok || f == Err::<Form<T>, ExtractError>(
                    spec_form_error(UrlencodedError::Parse),
                ),
            },
    {
        Form::from_request_with(cfg, head, payload, form_error)
    }
}

} // verus!
