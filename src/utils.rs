use vstd::prelude::*;

verus! {

/// The header that stamps embedded files with the build's entity tag.
#[derive(Debug, Clone, Copy)]
pub struct EtagStamp;

impl EtagStamp {
    /// `ETag: <etag>` when the build has a tag, else `X-Etag: not-set`.
    pub fn header(etag: Option<&str>) -> (r: (String, String))
        ensures
            etag matches Some(t) ==> r.0@ == "ETag"@ && r.1@ == t@,
            etag is None ==> r.0@ == "X-Etag"@ && r.1@ == "not-set"@,
    {
        match etag {
            Some(t) => (String::from_str("ETag"), String::from_str(t)),
            None => (String::from_str("X-Etag"), String::from_str("not-set")),
        }
    }
}

/// An embedded file together with its entity-tag stamp.
#[derive(Debug)]
pub struct EmbedEtag<T> {
    inner: T,
    stamp: EtagStamp,
}

impl<T> EmbedEtag<T> {
    pub fn new(inner: T) -> (r: Self)
        ensures
            r.inner() == inner,
    {
        EmbedEtag { inner, stamp: EtagStamp }
    }

    pub closed spec fn inner(&self) -> T {
        self.inner
    }

    pub fn into_inner(self) -> (r: T)
        ensures
            r == self.inner(),
    {
        self.inner
    }
}

/// The check of a request's `If-None-Match` against the build's entity tag.
#[derive(Debug, Clone, Copy)]
pub struct EtagCheck;

impl EtagCheck {
    /// Whether the client already has this build's file: the build has a tag and
    /// the request names exactly that tag.
    pub fn not_modified(etag: Option<&str>, if_none_match: Option<&str>) -> (r: bool)
        ensures
            r == (etag is Some && if_none_match is Some && etag->Some_0@ == if_none_match->Some_0@),
    {
        match (etag, if_none_match) {
            (Some(t), Some(given)) => String::from_str(t) == String::from_str(given),
            _ => false,
        }
    }
}

} // verus!
