//! What the store knows of one object.

use vstd::prelude::*;
use crate::store::bucket::S3Bucket;
use crate::store::error::StoreError;
use crate::store::error::StoreFailure;
use crate::store::time::http_date_instant;
use crate::store::time::parse_http_date;
use crate::store::time::read_as;
use crate::store::time::Timestamp;

verus! {

/// The metadata of an object as the store answers it.
#[derive(Clone, Debug, PartialEq, Eq)]
pub struct HeadReply {
    /// Whether the key holds a marker of removal in place of an object.
    pub delete_marker: Option<bool>,
    pub content_length: Option<i64>,
    pub content_type: Option<String>,
    /// When the object was last written, as an HTTP date.
    pub last_modified: Option<String>,
}

/// The metadata of an object that is there.
#[derive(Clone, Debug, PartialEq, Eq)]
pub struct HeadResponse {
    pub content_type: Option<String>,
    pub content_length: Option<i64>,
    pub last_modified: Option<Timestamp>,
}

/// A length as it is handed on: a negative one is dropped.
pub open spec fn kept_length(length: Option<i64>) -> Option<i64> {
    match length {
        Some(n) => if n >= 0 {
            Some(n)
        } else {
            None
        },
        None => None,
    }
}

/// Whether the answer says that the key holds a marker of removal.
pub open spec fn is_tombstone(meta: HeadReply) -> bool {
    meta.delete_marker == Some(true)
}

/// What the metadata of an object that is there amount to, or the error of
/// a timestamp that cannot be read.
pub open spec fn described(meta: HeadReply) -> Result<Option<HeadResponse>, StoreError> {
    match meta.last_modified {
        None => Ok(
            Some(
                HeadResponse {
                    content_type: meta.content_type,
                    content_length: kept_length(meta.content_length),
                    last_modified: None,
                },
            ),
        ),
        Some(text) => match read_as(text, http_date_instant(text@)) {
            Ok(instant) => Ok(
                Some(
                    HeadResponse {
                        content_type: meta.content_type,
                        content_length: kept_length(meta.content_length),
                        last_modified: Some(instant),
                    },
                ),
            ),
            Err(e) => Err(e),
        },
    }
}

/// What the answer to a request for metadata means: `None` for a key without
/// an object, whether it never had one or holds a marker of removal; the
/// metadata of an object that is there; an error for every other failure and
/// for a timestamp that cannot be read.
pub open spec fn head_outcome(reply: Result<HeadReply, StoreFailure>) -> Result<
    Option<HeadResponse>,
    StoreError,
> {
    match reply {
        Ok(meta) => if is_tombstone(meta) {
            Ok(None)
        } else {
            described(meta)
        },
        Err(failure) => if failure.is_not_found() {
            Ok(None)
        } else {
            Err(failure.as_error())
        },
    }
}

impl S3Bucket {
    /// Interprets the answer to a request for the metadata of an object.
    pub fn head(&self, reply: Result<HeadReply, StoreFailure>) -> (r: Result<
        Option<HeadResponse>,
        StoreError,
    >)
        ensures
            r == head_outcome(reply),
    {
        match reply {
            Ok(meta) => {
                if let Some(delete_marker) = meta.delete_marker {
                    if delete_marker {
                        return Ok(None);
                    }
                }
                let content_length = match meta.content_length {
                    Some(n) => if n >= 0 {
                        Some(n)
                    } else {
                        None
                    },
                    None => None,
                };
                let last_modified = match &meta.last_modified {
                    None => None,
                    Some(text) => match parse_http_date(text) {
                        Ok(instant) => Some(instant),
                        Err(e) => {
                            return Err(e);
                        },
                    },
                };
                Ok(Some(HeadResponse { content_type: meta.content_type, content_length, last_modified }))
            },
            Err(failure) => {
                if failure.not_found() {
                    Ok(None)
                } else {
                    Err(failure.into_error())
                }
            },
        }
    }
}

/// A key that never held an object and a key that holds a marker of removal
/// are answered alike: with `None`.
pub proof fn lemma_absent_and_removed_alike(meta: HeadReply, failure: StoreFailure)
    requires
        is_tombstone(meta),
        failure.is_not_found(),
    ensures
        head_outcome(Ok(meta)) == head_outcome(Err(failure)),
        head_outcome(Ok(meta)) == Ok::<Option<HeadResponse>, StoreError>(None),
{
}

/// Every failure but "not found" comes out of `head` as an error, and as
/// the error that the failure stands for.
pub proof fn lemma_other_failures_surface(failure: StoreFailure)
    requires
        !failure.is_not_found(),
    ensures
        head_outcome(Err(failure)) == Err::<Option<HeadResponse>, StoreError>(failure.as_error()),
{
}

/// `head` answers `None` only for a key without an object: for a marker of
/// removal or a failure that says "not found".
pub proof fn lemma_none_means_absent(reply: Result<HeadReply, StoreFailure>)
    requires
        head_outcome(reply) == Ok::<Option<HeadResponse>, StoreError>(None),
    ensures
        match reply {
            Ok(meta) => is_tombstone(meta),
            Err(failure) => failure.is_not_found(),
        },
{
}

} // verus!
