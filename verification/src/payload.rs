use vstd::prelude::*;
use crate::body::{chunk_views, collect_payload, concat_chunks, payload_accepted};
use crate::charset::spec_decode_text;
use crate::config::{PayloadConfig, spec_check_mimetype};
use crate::error::{BadRequest, ExtractError, PayloadError};
use crate::request::{RequestHead, header_view, spec_content_length, spec_encoding};

verus! {

/// A request payload as it arrived: its chunks in order, and the error that
/// ended the stream, if it did not end cleanly.
pub struct Payload {
    /// The chunks, in arrival order.
    pub chunks: Vec<Vec<u8>>,
    /// The error that ended the stream, if any.
    pub error: Option<PayloadError>,
}

/// Why a payload could not be read.
#[derive(Debug, Clone, Copy, PartialEq, Eq)]
pub enum ReadFailure {
    /// The declared length or the bytes that arrived exceed the limit.
    Overflow,
    /// The stream ended with an error.
    Stream(PayloadError),
}

/// What reading a payload under a limit gives: a refusal when the declared
/// length or the running total exceeds the limit (before the stream's own
/// error is seen), the stream's error, or all the bytes in order.
pub open spec fn spec_read_payload(
    limit: usize,
    declared: Option<usize>,
    chunks: Seq<Seq<u8>>,
    error: Option<PayloadError>,
) -> Result<Seq<u8>, ReadFailure> {
    if !payload_accepted(limit, declared, chunks) {
        Err(ReadFailure::Overflow)
    } else {
        match error {
            Some(e) => Err(ReadFailure::Stream(e)),
            None => Ok(concat_chunks(chunks)),
        }
    }
}

/// The view of a read result.
pub open spec fn read_view(r: Result<Vec<u8>, ReadFailure>) -> Result<Seq<u8>, ReadFailure> {
    match r {
        Ok(b) => Ok(b@),
        Err(f) => Err(f),
    }
}

impl Payload {
    /// The chunks' views.
    pub open spec fn chunks_spec(&self) -> Seq<Seq<u8>> {
        chunk_views(self.chunks@)
    }
}

/// Reads a payload under `limit`, given the length the request declared.
pub fn read_payload(limit: usize, declared: Option<usize>, payload: &Payload) -> (r: Result<
    Vec<u8>,
    ReadFailure,
>)
    ensures
        read_view(r) == spec_read_payload(limit, declared, payload.chunks_spec(), payload.error),
        r matches Ok(b) ==> b@.len() <= limit,
{
    match collect_payload(limit, declared, &payload.chunks) {
        None => Err(ReadFailure::Overflow),
        Some(body) => match payload.error {
            Some(e) => Err(ReadFailure::Stream(e)),
            None => Ok(body),
        },
    }
}

/// The raw bytes of a request's body, as the bytes reader gives them: the
/// media type is checked first; a malformed `Content-Length` is an unknown
/// length; then the payload is read under the limit.
pub open spec fn spec_bytes_body(
    limit: usize,
    required: Option<Seq<char>>,
    ct: Option<Seq<u8>>,
    cl: Option<Seq<u8>>,
    chunks: Seq<Seq<u8>>,
    error: Option<PayloadError>,
) -> Result<Seq<u8>, ExtractError> {
    match spec_check_mimetype(required, ct) {
        Err(e) => Err(e),
        Ok(()) => match spec_content_length(cl) {
            Err(()) => Err(ExtractError::Payload(PayloadError::UnknownLength)),
            Ok(declared) => match spec_read_payload(limit, declared, chunks, error) {
                Err(ReadFailure::Overflow) => Err(ExtractError::Payload(PayloadError::Overflow)),
                Err(ReadFailure::Stream(e)) => Err(ExtractError::Payload(e)),
                Ok(b) => Ok(b),
            },
        },
    }
}

/// The text of a request's body, as the text reader gives it: after the
/// media-type check, the charset must be readable, the payload is read as for
/// bytes, and it is decoded in the request's charset (UTF-8 by default).
pub open spec fn spec_text_body(
    limit: usize,
    required: Option<Seq<char>>,
    ct: Option<Seq<u8>>,
    cl: Option<Seq<u8>>,
    chunks: Seq<Seq<u8>>,
    error: Option<PayloadError>,
) -> Result<Seq<char>, ExtractError> {
    match spec_check_mimetype(required, ct) {
        Err(e) => Err(e),
        Ok(()) => match spec_encoding(ct) {
            Err(e) => Err(ExtractError::ContentType(e)),
            Ok((label, name)) => match spec_bytes_body(limit, None, ct, cl, chunks, error) {
                Err(e) => Err(e),
                Ok(b) => match spec_decode_text(label, name, b) {
                    Some(t) => Ok(t),
                    None => Err(ExtractError::BadRequest(BadRequest::CannotDecodeBody)),
                },
            },
        },
    }
}

/// The view of a bytes result.
pub open spec fn bytes_view(r: Result<Vec<u8>, ExtractError>) -> Result<Seq<u8>, ExtractError> {
    match r {
        Ok(b) => Ok(b@),
        Err(e) => Err(e),
    }
}

/// The view of a text result.
pub open spec fn text_view(r: Result<String, ExtractError>) -> Result<Seq<char>, ExtractError> {
    match r {
        Ok(s) => Ok(s@),
        Err(e) => Err(e),
    }
}

/// Reads the raw bytes of a request's body.
pub fn bytes_from_request(cfg: &PayloadConfig, head: &RequestHead, payload: &Payload) -> (r: Result<
    Vec<u8>,
    ExtractError,
>)
    ensures
        bytes_view(r) == spec_bytes_body(
            cfg.limit_spec(),
            cfg.mimetype_spec(),
            header_view(head.content_type),
            header_view(head.content_length),
            payload.chunks_spec(),
            payload.error,
        ),
        r matches Ok(b) ==> b@.len() <= cfg.limit_spec(),
{
    match cfg.check_mimetype(head) {
        Err(e) => return Err(e),
        Ok(()) => {},
    }
    read_body(cfg.get_limit(), head, payload)
}

/// Reads the body of a request whose media type was accepted.
fn read_body(limit: usize, head: &RequestHead, payload: &Payload) -> (r: Result<
    Vec<u8>,
    ExtractError,
>)
    ensures
        bytes_view(r) == spec_bytes_body(
            limit,
            None,
            header_view(head.content_type),
            header_view(head.content_length),
            payload.chunks_spec(),
            payload.error,
        ),
        r matches Ok(b) ==> b@.len() <= limit,
{
    let declared = match head.content_length() {
        Err(()) => return Err(ExtractError::Payload(PayloadError::UnknownLength)),
        Ok(d) => d,
    };
    match read_payload(limit, declared, payload) {
        Err(ReadFailure::Overflow) => Err(ExtractError::Payload(PayloadError::Overflow)),
        Err(ReadFailure::Stream(e)) => Err(ExtractError::Payload(e)),
        Ok(b) => Ok(b),
    }
}

/// Reads the body of a request as text in the request's charset.
pub fn string_from_request(cfg: &PayloadConfig, head: &RequestHead, payload: &Payload) -> (r: Result<
    String,
    ExtractError,
>)
    ensures
        text_view(r) == spec_text_body(
            cfg.limit_spec(),
            cfg.mimetype_spec(),
            header_view(head.content_type),
            header_view(head.content_length),
            payload.chunks_spec(),
            payload.error,
        ),
{
    match cfg.check_mimetype(head) {
        Err(e) => return Err(e),
        Ok(()) => {},
    }
    let encoding = match head.encoding() {
        Err(e) => return Err(ExtractError::ContentType(e)),
        Ok(enc) => enc,
    };
    let body = match read_body(cfg.get_limit(), head, payload) {
        Err(e) => return Err(e),
        Ok(b) => b,
    };
    match encoding.decode(body.as_slice()) {
        Some(t) => Ok(t),
        None => Err(ExtractError::BadRequest(BadRequest::CannotDecodeBody)),
    }
}

} // verus!
