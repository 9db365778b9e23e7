use vstd::prelude::*;

verus! {

/// The outside error that a failed query or path deserialization reports.
#[verifier::external_type_specification]
#[verifier::external_body]
pub struct ExDeError(serde::de::value::Error);

/// The outside error that `serde_json` reports.
#[verifier::external_type_specification]
#[verifier::external_body]
pub struct ExJsonError(serde_json::Error);

/// Errors that can occur while a request payload is read.
#[derive(Debug, Clone, Copy, PartialEq, Eq)]
pub enum PayloadError {
    /// The payload ended before it was complete.
    Incomplete,
    /// The content-encoding stream was corrupted.
    EncodingCorrupted,
    /// The payload is larger than the configured limit.
    Overflow,
    /// The payload length could not be determined.
    UnknownLength,
    /// The HTTP/2 stream reported an error.
    Http2Payload,
    /// The underlying connection reported an I/O error.
    Io,
}

/// Errors in the `Content-Type` header.
#[derive(Debug, Clone, Copy, PartialEq, Eq)]
pub enum ContentTypeError {
    /// The content type could not be parsed.
    ParseError,
    /// The charset named by the content type is not known.
    UnknownEncoding,
}

/// Errors that can occur while a url-encoded form is read.
#[derive(Debug, Clone, Copy, PartialEq, Eq)]
pub enum UrlencodedError {
    /// Chunked transfer encoding could not be decoded.
    Chunked,
    /// The payload is larger than the configured limit.
    Overflow,
    /// The payload length could not be determined.
    UnknownLength,
    /// The request is not `application/x-www-form-urlencoded`, or its
    /// charset cannot be read.
    ContentType,
    /// The body could not be decoded or parsed.
    Parse,
    /// Reading the payload failed.
    Payload(PayloadError),
}

/// Errors that can occur while a JSON payload is read.
#[derive(Debug)]
pub enum JsonPayloadError {
    /// The payload is larger than the configured limit.
    Overflow,
    /// The request's media type is not JSON.
    ContentType,
    /// The body is not JSON of the expected shape.
    Deserialize(serde_json::Error),
    /// Reading the payload failed.
    Payload(PayloadError),
}

/// The reasons for which a request is answered with a plain "bad request".
#[derive(Debug, Clone, Copy, PartialEq, Eq)]
pub enum BadRequest {
    /// The request's media type is not the required one.
    UnexpectedContentType,
    /// A media type is required and the request has none.
    ContentTypeExpected,
    /// The body cannot be decoded in the request's charset.
    CannotDecodeBody,
}

/// The text that a bad-request answer carries.
pub open spec fn spec_bad_request_message(b: BadRequest) -> Seq<char> {
    match b {
        BadRequest::UnexpectedContentType => "Unexpected Content-Type"@,
        BadRequest::ContentTypeExpected => "Content-Type is expected"@,
        BadRequest::CannotDecodeBody => "Can not decode body"@,
    }
}

impl BadRequest {
    /// The text that the answer carries.
    pub fn message(&self) -> (r: &'static str)
        ensures
            r@ == spec_bad_request_message(*self),
    {
        match self {
            BadRequest::UnexpectedContentType => "Unexpected Content-Type",
            BadRequest::ContentTypeExpected => "Content-Type is expected",
            BadRequest::CannotDecodeBody => "Can not decode body",
        }
    }
}

/// An error that ends the handling of a request with an error response.
#[derive(Debug)]
pub enum ExtractError {
    /// The path does not match the expected shape: answered "not found".
    NotFound(serde::de::value::Error),
    /// The query string does not match the expected shape.
    Deserialize(serde::de::value::Error),
    /// Reading the payload failed.
    Payload(PayloadError),
    /// The `Content-Type` header cannot be read.
    ContentType(ContentTypeError),
    /// Reading a url-encoded form failed.
    Urlencoded(UrlencodedError),
    /// Reading a JSON payload failed.
    Json(JsonPayloadError),
    /// The request is answered with a plain "bad request".
    BadRequest(BadRequest),
    /// A response body could not be serialized.
    Serialize(serde_json::Error),
    /// An answer with the status code that a custom error handler chose
    /// (such as 409 "conflict").
    Status(u16),
}

/// The status codes of the error responses.
pub const BAD_REQUEST: u16 = 400;
/// "Not found".
pub const NOT_FOUND: u16 = 404;
/// "Length required".
pub const LENGTH_REQUIRED: u16 = 411;
/// "Payload too large".
pub const PAYLOAD_TOO_LARGE: u16 = 413;
/// "Internal server error".
pub const INTERNAL_SERVER_ERROR: u16 = 500;

/// The status code of the response that answers an error.
pub open spec fn spec_status(e: ExtractError) -> u16 {
    match e {
        ExtractError::NotFound(_) => NOT_FOUND,
        ExtractError::Deserialize(_) => BAD_REQUEST,
        ExtractError::Payload(p) => if p == PayloadError::Overflow {
            PAYLOAD_TOO_LARGE
        } else {
            BAD_REQUEST
        },
        ExtractError::ContentType(_) => BAD_REQUEST,
        ExtractError::Urlencoded(u) => match u {
            UrlencodedError::Overflow => PAYLOAD_TOO_LARGE,
            UrlencodedError::UnknownLength => LENGTH_REQUIRED,
            _ => BAD_REQUEST,
        },
        ExtractError::Json(j) => match j {
            JsonPayloadError::Overflow => PAYLOAD_TOO_LARGE,
            _ => BAD_REQUEST,
        },
        ExtractError::BadRequest(_) => BAD_REQUEST,
        ExtractError::Serialize(_) => INTERNAL_SERVER_ERROR,
        ExtractError::Status(code) => code,
    }
}

impl ExtractError {
    /// The status code of the response that answers this error.
    pub fn status(&self) -> (r: u16)
        ensures
            r == spec_status(*self),
    {
        match self {
            ExtractError::NotFound(_) => NOT_FOUND,
            ExtractError::Deserialize(_) => BAD_REQUEST,
            ExtractError::Payload(p) => match p {
                PayloadError::Overflow => PAYLOAD_TOO_LARGE,
                _ => BAD_REQUEST,
            },
            ExtractError::ContentType(_) => BAD_REQUEST,
            ExtractError::Urlencoded(u) => match u {
                UrlencodedError::Overflow => PAYLOAD_TOO_LARGE,
                UrlencodedError::UnknownLength => LENGTH_REQUIRED,
                _ => BAD_REQUEST,
            },
            ExtractError::Json(j) => match j {
                JsonPayloadError::Overflow => PAYLOAD_TOO_LARGE,
                _ => BAD_REQUEST,
            },
            ExtractError::BadRequest(_) => BAD_REQUEST,
            ExtractError::Serialize(_) => INTERNAL_SERVER_ERROR,
            ExtractError::Status(code) => *code,
        }
    }
}

} // verus!
