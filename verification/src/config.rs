use vstd::prelude::*;
use crate::error::{BadRequest, ExtractError};
use crate::media::{MediaType, lower_chars, media_type_eq, spec_media_eq, spec_mime_eq};
use crate::request::{RequestHead, header_view, spec_mime_type};

verus! {

/// The payload limit that every configuration starts with: 256 KiB.
pub const DEFAULT_LIMIT: usize = 262_144;

/// Configuration of the raw payload (bytes and text) readers.
pub struct PayloadConfig {
    limit: usize,
    mimetype: Option<MediaType>,
}

/// Configuration of the url-encoded form reader.
pub struct FormConfig {
    limit: usize,
}

/// Configuration of the JSON payload reader.
pub struct JsonConfig {
    limit: usize,
}

/// What the mimetype check answers: nothing to check without a required
/// media type; otherwise the request's media type must be present, readable
/// and equal to the required one.
pub open spec fn spec_check_mimetype(required: Option<Seq<char>>, ct: Option<Seq<u8>>) -> Result<
    (),
    ExtractError,
> {
    match required {
        None => Ok(()),
        Some(mt) => match spec_mime_type(ct) {
            Ok(Some(req_mt)) => if spec_media_eq(mt, req_mt) {
                Ok(())
            } else {
                Err(ExtractError::BadRequest(BadRequest::UnexpectedContentType))
            },
            Ok(None) => Err(ExtractError::BadRequest(BadRequest::ContentTypeExpected)),
            Err(e) => Err(ExtractError::ContentType(e)),
        },
    }
}

impl PayloadConfig {
    /// The largest payload accepted, in bytes.
    pub closed spec fn limit_spec(&self) -> usize {
        self.limit
    }

    /// The text of the required media type, if one is required.
    pub closed spec fn mimetype_spec(&self) -> Option<Seq<char>> {
        match self.mimetype {
            Some(m) => Some(m@),
            None => None,
        }
    }

    /// The configuration for requests that have no other: a 256 KiB limit
    /// and no required media type.
    pub fn new() -> (r: PayloadConfig)
        ensures
            r.limit_spec() == DEFAULT_LIMIT,
            r.mimetype_spec() is None,
    {
        PayloadConfig { limit: DEFAULT_LIMIT, mimetype: None }
    }

    /// Changes the largest payload accepted.
    pub fn limit(&mut self, limit: usize) -> (r: &mut Self)
        ensures
            r.limit_spec() == limit,
            r.mimetype_spec() == old(self).mimetype_spec(),
            *final(self) == *final(r),
    {
        self.limit = limit;
        self
    }

    /// Requires the request's media type to be `mt`, in place of any earlier
    /// requirement.
    pub fn mimetype(&mut self, mt: MediaType) -> (r: &mut Self)
        ensures
            r.limit_spec() == old(self).limit_spec(),
            r.mimetype_spec() == Some(mt@),
            *final(self) == *final(r),
    {
        self.mimetype = Some(mt);
        self
    }

    /// The largest payload accepted, in bytes.
    pub fn get_limit(&self) -> (r: usize)
        ensures
            r == self.limit_spec(),
    {
        self.limit
    }

    /// Checks the request's media type against the required one.
    pub fn check_mimetype(&self, head: &RequestHead) -> (r: Result<(), ExtractError>)
        ensures
            r == spec_check_mimetype(self.mimetype_spec(), header_view(head.content_type)),
            self.mimetype_spec() matches Some(mt) ==> (!mt.contains(';') ==> (r is Ok <==> (spec_mime_type(
                header_view(head.content_type),
            ) matches Ok(Some(m)) && lower_chars(mt) == lower_chars(m)))),
            self.mimetype_spec() matches Some(mt) ==> (mt.contains(';') ==> (r is Ok <==> (spec_mime_type(
                header_view(head.content_type),
            ) matches Ok(Some(m)) && spec_mime_eq(mt, m)))),
    {
        match &self.mimetype {
            None => Ok(()),
            Some(mt) => match head.mime_type() {
                Ok(Some(req_mt)) => {
                    if !media_type_eq(mt, &req_mt) {
                        Err(ExtractError::BadRequest(BadRequest::UnexpectedContentType))
                    } else {
                        Ok(())
                    }
                },
                Ok(None) => Err(ExtractError::BadRequest(BadRequest::ContentTypeExpected)),
                Err(e) => Err(ExtractError::ContentType(e)),
            },
        }
    }
}

impl Default for PayloadConfig {
    fn default() -> (r: PayloadConfig)
        ensures
            r.limit_spec() == DEFAULT_LIMIT,
            r.mimetype_spec() is None,
    {
        PayloadConfig::new()
    }
}

impl FormConfig {
    /// The largest form accepted, in bytes.
    pub closed spec fn limit_spec(&self) -> usize {
        self.limit
    }

    /// The configuration for requests that have no other: a 256 KiB limit.
    pub fn new() -> (r: FormConfig)
        ensures
            r.limit_spec() == DEFAULT_LIMIT,
    {
        FormConfig { limit: DEFAULT_LIMIT }
    }

    /// Changes the largest form accepted.
    pub fn limit(&mut self, limit: usize) -> (r: &mut Self)
        ensures
            r.limit_spec() == limit,
            *final(self) == *final(r),
    {
        self.limit = limit;
        self
    }

    /// The largest form accepted, in bytes.
    pub fn get_limit(&self) -> (r: usize)
        ensures
            r == self.limit_spec(),
    {
        self.limit
    }
}

impl Default for FormConfig {
    fn default() -> (r: FormConfig)
        ensures
            r.limit_spec() == DEFAULT_LIMIT,
    {
        FormConfig::new()
    }
}

impl JsonConfig {
    /// The largest JSON payload accepted, in bytes.
    pub closed spec fn limit_spec(&self) -> usize {
        self.limit
    }

    /// The configuration for requests that have no other: a 256 KiB limit.
    pub fn new() -> (r: JsonConfig)
        ensures
            r.limit_spec() == DEFAULT_LIMIT,
    {
        JsonConfig { limit: DEFAULT_LIMIT }
    }

    /// Changes the largest JSON payload accepted.
    pub fn limit(&mut self, limit: usize) -> (r: &mut Self)
        ensures
            r.limit_spec() == limit,
            *final(self) == *final(r),
    {
        self.limit = limit;
        self
    }

    /// The largest JSON payload accepted, in bytes.
    pub fn get_limit(&self) -> (r: usize)
        ensures
            r == self.limit_spec(),
    {
        self.limit
    }
}

impl Default for JsonConfig {
    fn default() -> (r: JsonConfig)
        ensures
            r.limit_spec() == DEFAULT_LIMIT,
    {
        JsonConfig::new()
    }
}

} // verus!
