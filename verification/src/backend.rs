//! The exchange with the storage backend, as plain values.
//!
//! The library never talks to the backend. It says which [`Request`] is to be
//! sent, and is told the [`Reply`] that came back.

use crate::buffer::shared_bytes;
use bytes::Bytes;
use vstd::prelude::*;
use vstd::string::StringExecFns;

verus! {

/// The calls of the backend that the provider makes.
#[derive(Clone, Copy, Debug, PartialEq, Eq, Hash, Structural)]
pub enum Call {
    HeadBucket,
    CreateBucket,
    DeleteBucket,
    ListObjects,
    GetObject,
    PutObject,
    CopyObject,
    DeleteObject,
    DeleteObjects,
    HeadObject,
}

/// How a call of the backend failed.
#[derive(Clone, Debug, PartialEq, Eq)]
pub enum BackendError {
    /// The container or object does not exist.
    NotFound,
    /// The container to create exists already and belongs to the caller.
    AlreadyOwned,
    /// The backend could not be reached or did not answer in full; the text
    /// is the backend's.
    Transient(String),
    /// The backend refused the call for another reason; the text is the
    /// backend's.
    Unexpected(String),
}

/// [`BackendError`] in specifications.
pub enum BackendErrorModel {
    NotFound,
    AlreadyOwned,
    Transient(Seq<char>),
    Unexpected(Seq<char>),
}

impl View for BackendError {
    type V = BackendErrorModel;

    open spec fn view(&self) -> BackendErrorModel {
        match self {
            BackendError::NotFound => BackendErrorModel::NotFound,
            BackendError::AlreadyOwned => BackendErrorModel::AlreadyOwned,
            BackendError::Transient(text) => BackendErrorModel::Transient(text@),
            BackendError::Unexpected(text) => BackendErrorModel::Unexpected(text@),
        }
    }
}

/// A call of the backend with its arguments. Container names are physical:
/// aliases are resolved before a request is made.
#[derive(Debug, PartialEq, Eq)]
pub enum Request {
    /// Probe a container.
    HeadBucket { bucket: String },
    /// Create a container.
    CreateBucket { bucket: String },
    /// Delete a container.
    DeleteBucket { bucket: String },
    /// List the objects of a container, at most `max_keys` if given.
    ListObjects { bucket: String, max_keys: Option<i32> },
    /// Read the bytes of an object that the HTTP range `range` selects.
    GetObject { bucket: String, key: String, range: String },
    /// Write an object in one piece.
    PutObject { bucket: String, key: String, body: Bytes },
    /// Copy the object `copy_source` (container, `/`, key) to `bucket`/`key`.
    CopyObject { copy_source: String, bucket: String, key: String },
    /// Delete one object.
    DeleteObject { bucket: String, key: String },
    /// Delete several objects of one container.
    DeleteObjects { bucket: String, keys: Vec<String> },
    /// Probe an object.
    HeadObject { bucket: String, key: String },
}

/// [`Request`] in specifications.
pub enum RequestModel {
    HeadBucket { bucket: Seq<char> },
    CreateBucket { bucket: Seq<char> },
    DeleteBucket { bucket: Seq<char> },
    ListObjects { bucket: Seq<char>, max_keys: Option<i32> },
    GetObject { bucket: Seq<char>, key: Seq<char>, range: Seq<char> },
    PutObject { bucket: Seq<char>, key: Seq<char>, body: Seq<u8> },
    CopyObject { copy_source: Seq<char>, bucket: Seq<char>, key: Seq<char> },
    DeleteObject { bucket: Seq<char>, key: Seq<char> },
    DeleteObjects { bucket: Seq<char>, keys: Seq<Seq<char>> },
    HeadObject { bucket: Seq<char>, key: Seq<char> },
}

impl View for Request {
    type V = RequestModel;

    open spec fn view(&self) -> RequestModel {
        match self {
            Request::HeadBucket { bucket } => RequestModel::HeadBucket { bucket: bucket@ },
            Request::CreateBucket { bucket } => RequestModel::CreateBucket { bucket: bucket@ },
            Request::DeleteBucket { bucket } => RequestModel::DeleteBucket { bucket: bucket@ },
            Request::ListObjects { bucket, max_keys } => RequestModel::ListObjects {
                bucket: bucket@,
                max_keys: *max_keys,
            },
            Request::GetObject { bucket, key, range } => RequestModel::GetObject {
                bucket: bucket@,
                key: key@,
                range: range@,
            },
            Request::PutObject { bucket, key, body } => RequestModel::PutObject {
                bucket: bucket@,
                key: key@,
                body: shared_bytes(*body),
            },
            Request::CopyObject { copy_source, bucket, key } => RequestModel::CopyObject {
                copy_source: copy_source@,
                bucket: bucket@,
                key: key@,
            },
            Request::DeleteObject { bucket, key } => RequestModel::DeleteObject {
                bucket: bucket@,
                key: key@,
            },
            Request::DeleteObjects { bucket, keys } => RequestModel::DeleteObjects {
                bucket: bucket@,
                keys: keys.deep_view(),
            },
            Request::HeadObject { bucket, key } => RequestModel::HeadObject {
                bucket: bucket@,
                key: key@,
            },
        }
    }
}

impl RequestModel {
    /// The call that the request makes.
    pub open spec fn call(self) -> Call {
        match self {
            RequestModel::HeadBucket { .. } => Call::HeadBucket,
            RequestModel::CreateBucket { .. } => Call::CreateBucket,
            RequestModel::DeleteBucket { .. } => Call::DeleteBucket,
            RequestModel::ListObjects { .. } => Call::ListObjects,
            RequestModel::GetObject { .. } => Call::GetObject,
            RequestModel::PutObject { .. } => Call::PutObject,
            RequestModel::CopyObject { .. } => Call::CopyObject,
            RequestModel::DeleteObject { .. } => Call::DeleteObject,
            RequestModel::DeleteObjects { .. } => Call::DeleteObjects,
            RequestModel::HeadObject { .. } => Call::HeadObject,
        }
    }
}

impl Request {
    /// The call that the request makes.
    pub fn call(&self) -> (call: Call)
        ensures
            call == self@.call(),
    {
        match self {
            Request::HeadBucket { .. } => Call::HeadBucket,
            Request::CreateBucket { .. } => Call::CreateBucket,
            Request::DeleteBucket { .. } => Call::DeleteBucket,
            Request::ListObjects { .. } => Call::ListObjects,
            Request::GetObject { .. } => Call::GetObject,
            Request::PutObject { .. } => Call::PutObject,
            Request::CopyObject { .. } => Call::CopyObject,
            Request::DeleteObject { .. } => Call::DeleteObject,
            Request::DeleteObjects { .. } => Call::DeleteObjects,
            Request::HeadObject { .. } => Call::HeadObject,
        }
    }
}

/// What came back from the backend for a request.
#[derive(Clone, Debug, PartialEq, Eq)]
pub enum Reply {
    /// The call succeeded; it returns nothing that the provider reads.
    Done,
    /// An object was probed: its length, if the backend told it.
    Head { content_length: Option<i64> },
    /// A page of a listing: for each object its key, if it has one. The
    /// backend leaves `contents` out for an empty page.
    Listing { contents: Option<Vec<Option<String>>> },
    /// A bulk delete was carried out: for each object that could not be
    /// deleted its key, if the backend names it.
    Deleted { failed: Vec<Option<String>> },
    /// An object was opened: its body is at hand as a stream of bytes.
    Body,
    /// The call failed.
    Failed(BackendError),
}

/// [`Reply`] in specifications.
pub enum ReplyModel {
    Done,
    Head { content_length: Option<i64> },
    Listing { contents: Option<Seq<Option<Seq<char>>>> },
    Deleted { failed: Seq<Option<Seq<char>>> },
    Body,
    Failed(BackendErrorModel),
}

impl View for Reply {
    type V = ReplyModel;

    open spec fn view(&self) -> ReplyModel {
        match self {
            Reply::Done => ReplyModel::Done,
            Reply::Head { content_length } => ReplyModel::Head { content_length: *content_length },
            Reply::Listing { contents } => ReplyModel::Listing { contents: contents.deep_view() },
            Reply::Deleted { failed } => ReplyModel::Deleted { failed: failed.deep_view() },
            Reply::Body => ReplyModel::Body,
            Reply::Failed(error) => ReplyModel::Failed(error@),
        }
    }
}

/// The text of the failure that stands for a reply of the wrong shape.
pub open spec fn mismatch_text() -> Seq<char> {
    "the reply does not answer the request"@
}

/// The failure that stands for a reply of the wrong shape.
pub open spec fn mismatch() -> BackendErrorModel {
    BackendErrorModel::Unexpected(mismatch_text())
}

impl ReplyModel {
    /// The reply read as that of a call that returns nothing.
    pub open spec fn done(self) -> Result<(), BackendErrorModel> {
        match self {
            ReplyModel::Done => Ok(()),
            ReplyModel::Failed(error) => Err(error),
            _ => Err(mismatch()),
        }
    }

    /// The reply read as that of a probe of an object.
    pub open spec fn head(self) -> Result<Option<i64>, BackendErrorModel> {
        match self {
            ReplyModel::Head { content_length } => Ok(content_length),
            ReplyModel::Failed(error) => Err(error),
            _ => Err(mismatch()),
        }
    }

    /// The reply read as that of a listing.
    pub open spec fn listing(self) -> Result<Option<Seq<Option<Seq<char>>>>, BackendErrorModel> {
        match self {
            ReplyModel::Listing { contents } => Ok(contents),
            ReplyModel::Failed(error) => Err(error),
            _ => Err(mismatch()),
        }
    }

    /// The reply read as that of a bulk delete.
    pub open spec fn deleted(self) -> Result<Seq<Option<Seq<char>>>, BackendErrorModel> {
        match self {
            ReplyModel::Deleted { failed } => Ok(failed),
            ReplyModel::Failed(error) => Err(error),
            _ => Err(mismatch()),
        }
    }

    /// The reply read as that of opening an object.
    pub open spec fn body(self) -> Result<(), BackendErrorModel> {
        match self {
            ReplyModel::Body => Ok(()),
            ReplyModel::Failed(error) => Err(error),
            _ => Err(mismatch()),
        }
    }
}

/// The answer to a call in specifications: the value as it is, or the
/// content of the error.
pub open spec fn model<T>(reply: Result<T, BackendError>) -> Result<T, BackendErrorModel> {
    match reply {
        Ok(value) => Ok(value),
        Err(error) => Err(error@),
    }
}

/// Whether `got` is what `expected` says: the same value, or an error with
/// the same content.
pub open spec fn answers<T>(got: Result<T, BackendError>, expected: Result<T, BackendErrorModel>)
    -> bool {
    match expected {
        Ok(value) => got == Ok::<T, BackendError>(value),
        Err(error) => got is Err && got->Err_0@ == error,
    }
}

fn mismatched() -> (error: BackendError)
    ensures
        error@ == mismatch(),
{
    BackendError::Unexpected(String::from_str("the reply does not answer the request"))
}

impl Reply {
    /// Reads the reply as that of a call that returns nothing. A reply of
    /// another shape counts as an unexpected failure.
    pub fn done(self) -> (result: Result<(), BackendError>)
        ensures
            answers(result, self@.done()),
    {
        match self {
            Reply::Done => Ok(()),
            Reply::Failed(error) => Err(error),
            _ => Err(mismatched()),
        }
    }

    /// Reads the reply as that of a probe of an object. A reply of another
    /// shape counts as an unexpected failure.
    pub fn head(self) -> (result: Result<Option<i64>, BackendError>)
        ensures
            answers(result, self@.head()),
    {
        match self {
            Reply::Head { content_length } => Ok(content_length),
            Reply::Failed(error) => Err(error),
            _ => Err(mismatched()),
        }
    }

    /// Reads the reply as that of a listing. A reply of another shape counts
    /// as an unexpected failure.
    pub fn listing(self) -> (result: Result<Option<Vec<Option<String>>>, BackendError>)
        ensures
            match self@.listing() {
                Ok(contents) => result is Ok && result->Ok_0.deep_view() == contents,
                Err(error) => result is Err && result->Err_0@ == error,
            },
    {
        match self {
            Reply::Listing { contents } => Ok(contents),
            Reply::Failed(error) => Err(error),
            _ => Err(mismatched()),
        }
    }

    /// Reads the reply as that of a bulk delete. A reply of another shape
    /// counts as an unexpected failure.
    pub fn deleted(self) -> (result: Result<Vec<Option<String>>, BackendError>)
        ensures
            match self@.deleted() {
                Ok(failed) => result is Ok && result->Ok_0.deep_view() == failed,
                Err(error) => result is Err && result->Err_0@ == error,
            },
    {
        match self {
            Reply::Deleted { failed } => Ok(failed),
            Reply::Failed(error) => Err(error),
            _ => Err(mismatched()),
        }
    }

    /// Reads the reply as that of opening an object. A reply of another shape
    /// counts as an unexpected failure.
    pub fn body(self) -> (result: Result<(), BackendError>)
        ensures
            answers(result, self@.body()),
    {
        match self {
            Reply::Body => Ok(()),
            Reply::Failed(error) => Err(error),
            _ => Err(mismatched()),
        }
    }
}

} // verus!
