use vstd::prelude::*;
use crate::error::ExtractError;
use crate::request::RequestHead;

verus! {

/// Typed information from the request's path.
#[derive(Debug, PartialEq, Eq, PartialOrd, Ord)]
pub struct Path<T> {
    inner: T,
}

/// Typed information from the request's query string.
#[derive(Debug, PartialEq, Eq, PartialOrd, Ord)]
pub struct Query<T>(T);

/// Typed information from a url-encoded request body.
#[derive(Debug, PartialEq, Eq, PartialOrd, Ord)]
pub struct Form<T>(pub T);

/// Typed information from a JSON request body, or a value to answer as JSON.
#[derive(Debug)]
pub struct Json<T>(pub T);

impl<T> Path<T> {
    /// The wrapped value.
    pub closed spec fn value(&self) -> T {
        self.inner
    }

    /// The path value that wraps `v`.
    pub closed spec fn wrap(v: T) -> Self {
        Path { inner: v }
    }

    /// What a wrapped value holds is the value it was made of.
    pub broadcast proof fn lemma_wrap(v: T)
        ensures
            #[trigger] Self::wrap(v).value() == v,
    {
    }

    /// Deconstructs into the inner value.
    pub fn into_inner(self) -> (r: T)
        ensures
            r == self.value(),
    {
        self.inner
    }
}

impl<T> AsRef<T> for Path<T> {
    fn as_ref(&self) -> (r: &T)
        ensures
            *r == self.value(),
    {
        &self.inner
    }
}

impl<T> std::ops::Deref for Path<T> {
    type Target = T;

    fn deref(&self) -> (r: &T)
        ensures
            *r == self.value(),
    {
        &self.inner
    }
}

impl<T> std::ops::DerefMut for Path<T> {
    fn deref_mut(&mut self) -> (r: &mut T)
        ensures
            *r == old(self).value(),
            final(self).value() == *final(r),
    {
        &mut self.inner
    }
}

impl<T> From<T> for Path<T> {
    fn from(inner: T) -> (r: Path<T>)
        ensures
            r.value() == inner,
    {
        Path { inner }
    }
}

impl<T> vstd::std_specs::convert::FromSpecImpl<T> for Path<T> {
    open spec fn obeys_from_spec() -> bool {
        true
    }

    open spec fn from_spec(v: T) -> Self {
        Path::wrap(v)
    }
}

impl<T> Query<T> {
    /// The wrapped value.
    pub closed spec fn value(&self) -> T {
        self.0
    }

    /// Deconstructs into the inner value.
    pub fn into_inner(self) -> (r: T)
        ensures
            r == self.value(),
    {
        self.0
    }
}

impl<T> std::ops::Deref for Query<T> {
    type Target = T;

    fn deref(&self) -> (r: &T)
        ensures
            *r == self.value(),
    {
        &self.0
    }
}

impl<T> std::ops::DerefMut for Query<T> {
    fn deref_mut(&mut self) -> (r: &mut T)
        ensures
            *r == old(self).value(),
            final(self).value() == *final(r),
    {
        &mut self.0
    }
}

impl<T> Form<T> {
    /// Deconstructs into the inner value.
    pub fn into_inner(self) -> (r: T)
        ensures
            r == self.0,
    {
        self.0
    }
}

impl<T> std::ops::Deref for Form<T> {
    type Target = T;

    fn deref(&self) -> (r: &T)
        ensures
            *r == self.0,
    {
        &self.0
    }
}

impl<T> std::ops::DerefMut for Form<T> {
    fn deref_mut(&mut self) -> (r: &mut T)
        ensures
            *r == old(self).0,
            final(self).0 == *final(r),
    {
        &mut self.0
    }
}

impl<T> Json<T> {
    /// Deconstructs into the inner value.
    pub fn into_inner(self) -> (r: T)
        ensures
            r == self.0,
    {
        self.0
    }
}

impl<T> std::ops::Deref for Json<T> {
    type Target = T;

    fn deref(&self) -> (r: &T)
        ensures
            *r == self.0,
    {
        &self.0
    }
}

impl<T> std::ops::DerefMut for Json<T> {
    fn deref_mut(&mut self) -> (r: &mut T)
        ensures
            *r == old(self).0,
            final(self).0 == *final(r),
    {
        &mut self.0
    }
}

/// Calls `serde_urlencoded::from_str` to read a `T` from the request's
/// whole query string. Nothing is claimed of the result: it depends on how
/// `T` deserializes.
#[verifier::external_body]
fn urlencoded_from_str<T: serde::de::DeserializeOwned>(head: &RequestHead) -> (r: Result<
    T,
    serde::de::value::Error,
>) {
    serde_urlencoded::from_str::<T>(head.query.as_str())
}

impl<T> Path<T> {
    /// The answer to a path that was read as `r`: the value, or "not found"
    /// when the path does not have the expected shape.
    pub fn from_deserialized(r: Result<T, serde::de::value::Error>) -> (p: Result<Path<T>, ExtractError>)
        ensures
            match r {
                Ok(v) => p matches Ok(x) && x.value() == v,
                Err(e) => p == Err::<Path<T>, ExtractError>(ExtractError::NotFound(e)),
            },
    {
        match r {
            Ok(inner) => Ok(Path { inner }),
            Err(e) => Err(ExtractError::NotFound(e)),
        }
    }
}

impl<T> Query<T> {
    /// The answer to a query string that was read as `r`: the value, or a
    /// deserialization error.
    pub fn from_parsed(r: Result<T, serde::de::value::Error>) -> (q: Result<Query<T>, ExtractError>)
        ensures
            match r {
                Ok(v) => q matches Ok(x) && x.value() == v,
                Err(e) => q == Err::<Query<T>, ExtractError>(ExtractError::Deserialize(e)),
            },
    {
        match r {
            Ok(v) => Ok(Query(v)),
            Err(e) => Err(ExtractError::Deserialize(e)),
        }
    }

    /// Reads a `T` from the request's query string.
    pub fn from_request(head: &RequestHead) -> (q: Result<Query<T>, ExtractError>) where
        T: serde::de::DeserializeOwned,
        ensures
            q is Ok || q matches Err(ExtractError::Deserialize(_)),
    {
        Query::from_parsed(urlencoded_from_str::<T>(head))
    }
}

} // verus!
