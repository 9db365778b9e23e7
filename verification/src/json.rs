use vstd::prelude::*;
use crate::config::JsonConfig;
use crate::error::{ExtractError, JsonPayloadError, PayloadError};
use crate::media::{is_json, spec_is_json};
use crate::payload::{Payload, ReadFailure, read_payload, spec_read_payload};
use crate::request::{RequestHead, header_view, spec_lenient_length, spec_mime_type};
use crate::wrappers::Json;

verus! {

/// What reading a JSON payload gives: the request's media type must be JSON
/// (subtype or suffix `json`); then the payload is read.
pub open spec fn spec_json_body(
    limit: usize,
    ct: Option<Seq<u8>>,
    cl: Option<Seq<u8>>,
    chunks: Seq<Seq<u8>>,
    error: Option<PayloadError>,
) -> Result<Seq<u8>, JsonPayloadError> {
    let json = match spec_mime_type(ct) {
        Ok(Some(src)) => spec_is_json(src),
        _ => false,
    };
    if !json {
        Err(JsonPayloadError::ContentType)
    } else {
        spec_json_read(limit, cl, chunks, error)
    }
}

/// What reading the payload of a JSON request gives: a malformed
/// `Content-Length` counts as none; the payload must stay within the limit.
pub open spec fn spec_json_read(
    limit: usize,
    cl: Option<Seq<u8>>,
    chunks: Seq<Seq<u8>>,
    error: Option<PayloadError>,
) -> Result<Seq<u8>, JsonPayloadError> {
    match spec_read_payload(limit, spec_lenient_length(cl), chunks, error) {
        Err(ReadFailure::Overflow) => Err(JsonPayloadError::Overflow),
        Err(ReadFailure::Stream(e)) => Err(JsonPayloadError::Payload(e)),
        Ok(b) => Ok(b),
    }
}

/// The view of a JSON-body result.
pub open spec fn json_body_view(r: Result<Vec<u8>, JsonPayloadError>) -> Result<Seq<u8>, JsonPayloadError> {
    match r {
        Ok(b) => Ok(b@),
        Err(e) => Err(e),
    }
}

/// Reads the body of a JSON request under the configured limit.
pub fn json_body(cfg: &JsonConfig, head: &RequestHead, payload: &Payload) -> (r: Result<
    Vec<u8>,
    JsonPayloadError,
>)
    ensures
        json_body_view(r) == spec_json_body(
            cfg.limit_spec(),
            header_view(head.content_type),
            header_view(head.content_length),
            payload.chunks_spec(),
            payload.error,
        ),
        r matches Ok(b) ==> b@.len() <= cfg.limit_spec(),
{
    let json = match head.mime_type() {
        Ok(Some(m)) => is_json(&m),
        _ => false,
    };
    if !json {
        return Err(JsonPayloadError::ContentType);
    }
    let declared = match head.content_length() {
        Ok(d) => d,
        Err(()) => None,
    };
    match read_payload(cfg.get_limit(), declared, payload) {
        Err(ReadFailure::Overflow) => Err(JsonPayloadError::Overflow),
        Err(ReadFailure::Stream(e)) => Err(JsonPayloadError::Payload(e)),
        Ok(b) => Ok(b),
    }
}

/// Calls `serde_json::from_slice` to read a `T` from JSON bytes. Nothing is
/// claimed of the result: it depends on how `T` deserializes. The call reads
/// `bytes` alone; the request's parts are taken so that every caller must
/// show that `bytes` is that request's whole JSON body.
#[verifier::external_body]
fn json_from_slice<T: serde::de::DeserializeOwned>(
    cfg: &JsonConfig,
    head: &RequestHead,
    payload: &Payload,
    bytes: &[u8],
) -> (r: Result<T, serde_json::Error>)
    requires
        spec_json_body(
            cfg.limit_spec(),
            header_view(head.content_type),
            header_view(head.content_length),
            payload.chunks_spec(),
            payload.error,
        ) == Ok::<Seq<u8>, JsonPayloadError>(bytes@),
{
    serde_json::from_slice::<T>(bytes)
}

/// Calls `serde_json::to_string` on a value. Nothing is claimed of the
/// result: it depends on how `T` serializes.
#[verifier::external_body]
fn json_to_string<T: serde::Serialize>(value: &T) -> (r: Result<String, serde_json::Error>) {
    serde_json::to_string(value)
}

/// The default error handler of the JSON reader: the error itself.
pub fn json_error(e: JsonPayloadError, head: &RequestHead) -> (r: ExtractError)
    ensures
        r == ExtractError::Json(e),
{
    ExtractError::Json(e)
}

/// A response that carries a JSON body.
#[derive(Debug)]
pub struct JsonResponse {
    /// The status code.
    pub status: u16,
    /// The `Content-Type` of the body.
    pub content_type: String,
    /// The body.
    pub body: String,
}

/// The status code of a successful response.
pub const OK: u16 = 200;

/// The response that answers a value serialized as `r`: "200 OK" with the
/// JSON text and content type `application/json`, or an error response for a
/// value that cannot be serialized.
pub fn json_response(r: Result<String, serde_json::Error>) -> (resp: Result<JsonResponse, ExtractError>)
    ensures
        match r {
            Ok(body) => resp matches Ok(x) && x.status == OK && x.content_type@ == "application/json"@
                && x.body@ == body@,
            Err(e) => resp == Err::<JsonResponse, ExtractError>(ExtractError::Serialize(e)),
        },
{
    proof {
        broadcast use vstd::string::group_string_axioms;
    }
    match r {
        Ok(body) => Ok(JsonResponse { status: OK, content_type: "application/json".to_string(), body }),
        Err(e) => Err(ExtractError::Serialize(e)),
    }
}

impl<T> Json<T> {
    /// The JSON value that a body parsed as `r` gives: the value, or a
    /// deserialization error.
    pub fn from_parsed(r: Result<T, serde_json::Error>) -> (j: Result<Json<T>, JsonPayloadError>)
        ensures
            match r {
                Ok(v) => j matches Ok(x) && x.0 == v,
                Err(e) => j == Err::<Json<T>, JsonPayloadError>(JsonPayloadError::Deserialize(e)),
            },
    {
        match r {
            Ok(v) => Ok(Json(v)),
            Err(e) => Err(JsonPayloadError::Deserialize(e)),
        }
    }

    /// Reads a `T` from the request's JSON body under the configured limit;
    /// a failure is answered by `handler`.
    pub fn from_request_with<F>(
        cfg: &JsonConfig,
        head: &RequestHead,
        payload: &Payload,
        handler: F,
    ) -> (j: Result<Json<T>, ExtractError>) where
        T: serde::de::DeserializeOwned,
        F: Fn(JsonPayloadError, &RequestHead) -> ExtractError,

        requires
            forall|e: JsonPayloadError| call_requires(handler, (e, head)),
        ensures
            match spec_json_body(
                cfg.limit_spec(),
                header_view(head.content_type),
                header_view(head.content_length),
                payload.chunks_spec(),
                payload.error,
            ) {
                Err(e) => j matches Err(x) && call_ensures(handler, (e, head), x),
                Ok(_) => j is Ok || (j matches Err(x) && exists|d: serde_json::Error|
                    call_ensures(handler, (JsonPayloadError::Deserialize(d), head), x)),
            },
    {
        let body = match json_body(cfg, head, payload) {
            Err(e) => return Err(handler(e, head)),
            Ok(b) => b,
        };
        match Json::from_parsed(json_from_slice::<T>(cfg, head, payload, body.as_slice())) {
            Ok(j) => Ok(j),
            Err(e) => {
                let ghost d = e->Deserialize_0;
                let x = handler(e, head);
                assert(call_ensures(handler, (JsonPayloadError::Deserialize(d), head), x));
                Err(x)
            },
        }
    }

    /// Reads a `T` from the request's JSON body under the configured limit;
    /// a failure is answered by the default error handler.
    pub fn from_request(cfg: &JsonConfig, head: &RequestHead, payload: &Payload) -> (j: Result<
        Json<T>,
        ExtractError,
    >) where T: serde::de::DeserializeOwned
        ensures
            match spec_json_body(
                cfg.limit_spec(),
                header_view(head.content_type),
                header_view(head.content_length),
                payload.chunks_spec(),
                payload.error,
            ) {
                Err(e) => j == Err::<Json<T>, ExtractError>(ExtractError::Json(e)),
                Ok(_) => j is Ok || j matches Err(ExtractError::Json(JsonPayloadError::Deserialize(_))),
            },
    {
        Json::from_request_with(cfg, head, payload, json_error)
    }

    /// Answers with the value serialized as JSON.
    pub fn respond_to(self) -> (resp: Result<JsonResponse, ExtractError>) where T: serde::Serialize
        ensures
            match resp {
                Ok(x) => x.status == OK && x.content_type@ == "application/json"@,
                Err(e) => e is Serialize,
            },
    {
        json_response(json_to_string(&self.0))
    }
}

} // verus!
