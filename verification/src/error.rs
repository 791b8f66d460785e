//! The failures that an operation can end with.

use crate::backend::{BackendError, BackendErrorModel, Call};
use crate::text::{joined, push_joined, texts};
use vstd::prelude::*;
use vstd::string::StringExecFns;

verus! {

/// Why an operation failed. The caller receives [`StorageError::describe`].
#[derive(Clone, Debug, PartialEq, Eq)]
pub enum StorageError {
    /// The invocation names no caller, or one for which no link is
    /// registered.
    UnknownLink { source_id: Option<String> },
    /// The backend has no such container (`key` is `None`) or object.
    NotFound { bucket: String, key: Option<String> },
    /// The byte range is empty or reversed: `end` is not above `start`.
    Range { start: u64, end: u64 },
    /// A bulk delete left these keys undeleted.
    PartialFailure { keys: Vec<String> },
    /// The backend could not be reached or did not answer in full.
    TransientBackend { call: Call, message: String },
    /// The backend refused the call.
    UnexpectedBackend { call: Call, message: String },
    /// The inbound data of the invocation could not be received.
    Channel { message: String },
}

/// [`StorageError`] in specifications.
pub enum StorageErrorModel {
    UnknownLink { source_id: Option<Seq<char>> },
    NotFound { bucket: Seq<char>, key: Option<Seq<char>> },
    Range { start: u64, end: u64 },
    PartialFailure { keys: Seq<Seq<char>> },
    TransientBackend { call: Call, message: Seq<char> },
    UnexpectedBackend { call: Call, message: Seq<char> },
    Channel { message: Seq<char> },
}

impl View for StorageError {
    type V = StorageErrorModel;

    open spec fn view(&self) -> StorageErrorModel {
        match self {
            StorageError::UnknownLink { source_id } => StorageErrorModel::UnknownLink {
                source_id: source_id.deep_view(),
            },
            StorageError::NotFound { bucket, key } => StorageErrorModel::NotFound {
                bucket: bucket@,
                key: key.deep_view(),
            },
            StorageError::Range { start, end } => StorageErrorModel::Range {
                start: *start,
                end: *end,
            },
            StorageError::PartialFailure { keys } => StorageErrorModel::PartialFailure {
                keys: keys.deep_view(),
            },
            StorageError::TransientBackend { call, message } => StorageErrorModel::TransientBackend {
                call: *call,
                message: message@,
            },
            StorageError::UnexpectedBackend { call, message } => {
                StorageErrorModel::UnexpectedBackend { call: *call, message: message@ }
            },
            StorageError::Channel { message } => StorageErrorModel::Channel { message: message@ },
        }
    }
}

impl Call {
    /// What was being done when the call failed.
    pub open spec fn context_spec(self) -> Seq<char> {
        match self {
            Call::HeadBucket => "failed to `head` bucket"@,
            Call::CreateBucket => "failed to create bucket"@,
            Call::DeleteBucket => "failed to delete bucket"@,
            Call::ListObjects => "failed to list objects"@,
            Call::GetObject => "failed to get object"@,
            Call::PutObject => "failed to put object"@,
            Call::CopyObject => "failed to copy object"@,
            Call::DeleteObject => "failed to delete object"@,
            Call::DeleteObjects => "failed to delete objects"@,
            Call::HeadObject => "failed to `head` object"@,
        }
    }

    /// What was being done when the call failed.
    pub fn context(self) -> (text: &'static str)
        ensures
            text@ == self.context_spec(),
    {
        match self {
            Call::HeadBucket => "failed to `head` bucket",
            Call::CreateBucket => "failed to create bucket",
            Call::DeleteBucket => "failed to delete bucket",
            Call::ListObjects => "failed to list objects",
            Call::GetObject => "failed to get object",
            Call::PutObject => "failed to put object",
            Call::CopyObject => "failed to copy object",
            Call::DeleteObject => "failed to delete object",
            Call::DeleteObjects => "failed to delete objects",
            Call::HeadObject => "failed to `head` object",
        }
    }
}

/// The text that stands for a backend that reports an existing container
/// where none was to be created.
pub open spec fn already_owned_text() -> Seq<char> {
    "the container exists already"@
}

/// The failure of the operation that a failed `call` on `bucket`, or on the
/// object `key` in it, amounts to where the operation has no use of its own
/// for the backend's answer: an absent resource is reported as such, and
/// every other failure as the backend's, with the call that failed.
pub open spec fn surfaced(
    call: Call,
    bucket: Seq<char>,
    key: Option<Seq<char>>,
    error: BackendErrorModel,
) -> StorageErrorModel {
    match error {
        BackendErrorModel::NotFound => StorageErrorModel::NotFound { bucket, key },
        BackendErrorModel::AlreadyOwned => StorageErrorModel::UnexpectedBackend {
            call,
            message: already_owned_text(),
        },
        BackendErrorModel::Transient(message) => StorageErrorModel::TransientBackend {
            call,
            message,
        },
        BackendErrorModel::Unexpected(message) => StorageErrorModel::UnexpectedBackend {
            call,
            message,
        },
    }
}

/// Turns the failure of a backend call into that of the operation. See
/// [`surfaced`].
pub fn surface(call: Call, bucket: &str, key: Option<&str>, error: BackendError) -> (failure:
    StorageError)
    ensures
        failure@ == surfaced(call, bucket@, key.deep_view(), error@),
{
    match error {
        BackendError::NotFound => {
            let key = match key {
                Some(key) => Some(String::from_str(key)),
                None => None,
            };
            StorageError::NotFound { bucket: String::from_str(bucket), key }
        },
        BackendError::AlreadyOwned => StorageError::UnexpectedBackend {
            call,
            message: String::from_str("the container exists already"),
        },
        BackendError::Transient(message) => StorageError::TransientBackend { call, message },
        BackendError::Unexpected(message) => StorageError::UnexpectedBackend { call, message },
    }
}

/// Whether `got` is what `expected` says: the same value, or a failure with
/// the same content.
pub open spec fn reports<T>(got: Result<T, StorageError>, expected: Result<T, StorageErrorModel>)
    -> bool {
    match expected {
        Ok(value) => got == Ok::<T, StorageError>(value),
        Err(failure) => got is Err && got->Err_0@ == failure,
    }
}

impl StorageErrorModel {
    /// The text that the caller receives.
    pub open spec fn describe(self) -> Seq<char> {
        match self {
            StorageErrorModel::UnknownLink { source_id: Some(id) } => "failed to lookup "@ + id
                + " configuration"@,
            StorageErrorModel::UnknownLink { source_id: None } => {
                "failed to lookup invocation source ID"@
            },
            StorageErrorModel::NotFound { bucket, key: None } => "bucket ["@ + bucket
                + "] not found"@,
            StorageErrorModel::NotFound { bucket, key: Some(key) } => "object ["@ + bucket + "/"@
                + key + "] not found"@,
            StorageErrorModel::Range { .. } => "`end` must be greater than `start`"@,
            StorageErrorModel::PartialFailure { keys } => "failed with errors ["@ + joined(
                keys,
                ", "@,
            ) + "]"@,
            StorageErrorModel::TransientBackend { call, message } => call.context_spec()
                + ": backend unavailable: "@ + message,
            StorageErrorModel::UnexpectedBackend { call, message } => call.context_spec() + ": "@
                + message,
            StorageErrorModel::Channel { message } => message,
        }
    }
}

impl StorageError {
    /// The text that the caller receives in place of a result.
    pub fn describe(&self) -> (text: String)
        ensures
            text@ == self@.describe(),
    {
        match self {
            StorageError::UnknownLink { source_id: Some(id) } => {
                let mut text = String::from_str("failed to lookup ");
                text.append(id.as_str());
                text.append(" configuration");
                text
            },
            StorageError::UnknownLink { source_id: None } => String::from_str(
                "failed to lookup invocation source ID",
            ),
            StorageError::NotFound { bucket, key: None } => {
                let mut text = String::from_str("bucket [");
                text.append(bucket.as_str());
                text.append("] not found");
                text
            },
            StorageError::NotFound { bucket, key: Some(key) } => {
                let mut text = String::from_str("object [");
                text.append(bucket.as_str());
                text.append("/");
                text.append(key.as_str());
                text.append("] not found");
                text
            },
            StorageError::Range { .. } => String::from_str("`end` must be greater than `start`"),
            StorageError::PartialFailure { keys } => {
                let mut text = String::from_str("failed with errors [");
                push_joined(&mut text, keys, ", ");
                text.append("]");
                proof {
                    assert(texts(keys@) =~= keys.deep_view());
                }
                text
            },
            StorageError::TransientBackend { call, message } => {
                let mut text = String::from_str(call.context());
                text.append(": backend unavailable: ");
                text.append(message.as_str());
                text
            },
            StorageError::UnexpectedBackend { call, message } => {
                let mut text = String::from_str(call.context());
                text.append(": ");
                text.append(message.as_str());
                text
            },
            StorageError::Channel { message } => message.clone(),
        }
    }
}

} // verus!
