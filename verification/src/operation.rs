//! The operations and the course that each one takes.
//!
//! An operation is handled in steps. Each step either names a request for
//! the backend and what the handler then waits for, or it ends the operation
//! with its one outcome. [`started`] says what the first step is and
//! [`resumed`] what follows a reply.

use crate::alias::resolve;
use crate::backend::{ReplyModel, Request, RequestModel};
use crate::buffer::gathered_bytes;
use crate::client::{
    byte_range, container_exists_result, copy_object_result, copy_source, create_container_result,
    delete_container_result, delete_object_result, delete_objects_result,
    get_container_info_result, get_object_info_result, get_object_result, has_object_result,
    list_container_objects_result, max_keys, put_object_result,
};
use crate::error::{StorageError, StorageErrorModel};
use crate::kind::OperationKind;
use crate::object::{ContainerMetadata, ObjectId, ObjectMetadata};
use bytes::BytesMut;
use vstd::prelude::*;

verus! {

/// [`ObjectId`] in specifications.
pub struct ObjectIdModel {
    pub container: Seq<char>,
    pub object: Seq<char>,
}

impl View for ObjectId {
    type V = ObjectIdModel;

    open spec fn view(&self) -> ObjectIdModel {
        ObjectIdModel { container: self.container@, object: self.object@ }
    }
}

/// An operation with its parameters, as it arrives with an invocation.
#[derive(Debug, PartialEq, Eq)]
pub enum Operation {
    /// Delete all objects of a container.
    ClearContainer { container: String },
    /// Tell whether a container exists.
    ContainerExists { container: String },
    /// Create a container.
    CreateContainer { container: String },
    /// Delete a container.
    DeleteContainer { container: String },
    /// Tell what is known of a container.
    GetContainerInfo { container: String },
    /// Name the objects of a container: at most `limit` of them, behind the
    /// first `offset`.
    ListContainerObjects { container: String, limit: Option<u64>, offset: Option<u64> },
    /// Copy an object.
    CopyObject { src: ObjectId, dest: ObjectId },
    /// Delete an object.
    DeleteObject { id: ObjectId },
    /// Delete several objects of a container.
    DeleteObjects { container: String, objects: Vec<String> },
    /// Read the bytes of an object from `start` to `end`.
    GetContainerData { id: ObjectId, start: u64, end: u64 },
    /// Tell what is known of an object.
    GetObjectInfo { id: ObjectId },
    /// Tell whether an object exists.
    HasObject { id: ObjectId },
    /// Copy an object and delete it where it was.
    MoveObject { src: ObjectId, dest: ObjectId },
    /// Write an object. `data` is what became of the inbound stream of its
    /// bytes: all of them, or the text of the error that ended the stream.
    WriteContainerData { id: ObjectId, data: Result<BytesMut, String> },
}

/// [`Operation`] in specifications.
pub enum OperationModel {
    ClearContainer { container: Seq<char> },
    ContainerExists { container: Seq<char> },
    CreateContainer { container: Seq<char> },
    DeleteContainer { container: Seq<char> },
    GetContainerInfo { container: Seq<char> },
    ListContainerObjects { container: Seq<char>, limit: Option<u64>, offset: Option<u64> },
    CopyObject { src: ObjectIdModel, dest: ObjectIdModel },
    DeleteObject { id: ObjectIdModel },
    DeleteObjects { container: Seq<char>, objects: Seq<Seq<char>> },
    GetContainerData { id: ObjectIdModel, start: u64, end: u64 },
    GetObjectInfo { id: ObjectIdModel },
    HasObject { id: ObjectIdModel },
    MoveObject { src: ObjectIdModel, dest: ObjectIdModel },
    WriteContainerData { id: ObjectIdModel, data: Result<Seq<u8>, Seq<char>> },
}

impl View for Operation {
    type V = OperationModel;

    open spec fn view(&self) -> OperationModel {
        match self {
            Operation::ClearContainer { container } => OperationModel::ClearContainer {
                container: container@,
            },
            Operation::ContainerExists { container } => OperationModel::ContainerExists {
                container: container@,
            },
            Operation::CreateContainer { container } => OperationModel::CreateContainer {
                container: container@,
            },
            Operation::DeleteContainer { container } => OperationModel::DeleteContainer {
                container: container@,
            },
            Operation::GetContainerInfo { container } => OperationModel::GetContainerInfo {
                container: container@,
            },
            Operation::ListContainerObjects { container, limit, offset } => {
                OperationModel::ListContainerObjects {
                    container: container@,
                    limit: *limit,
                    offset: *offset,
                }
            },
            Operation::CopyObject { src, dest } => OperationModel::CopyObject {
                src: src@,
                dest: dest@,
            },
            Operation::DeleteObject { id } => OperationModel::DeleteObject { id: id@ },
            Operation::DeleteObjects { container, objects } => OperationModel::DeleteObjects {
                container: container@,
                objects: objects.deep_view(),
            },
            Operation::GetContainerData { id, start, end } => OperationModel::GetContainerData {
                id: id@,
                start: *start,
                end: *end,
            },
            Operation::GetObjectInfo { id } => OperationModel::GetObjectInfo { id: id@ },
            Operation::HasObject { id } => OperationModel::HasObject { id: id@ },
            Operation::MoveObject { src, dest } => OperationModel::MoveObject {
                src: src@,
                dest: dest@,
            },
            Operation::WriteContainerData { id, data } => OperationModel::WriteContainerData {
                id: id@,
                data: match data {
                    Ok(bytes) => Ok(gathered_bytes(*bytes)),
                    Err(text) => Err(text@),
                },
            },
        }
    }
}

impl OperationModel {
    /// The kind of the operation.
    pub open spec fn kind(self) -> OperationKind {
        match self {
            OperationModel::ClearContainer { .. } => OperationKind::ClearContainer,
            OperationModel::ContainerExists { .. } => OperationKind::ContainerExists,
            OperationModel::CreateContainer { .. } => OperationKind::CreateContainer,
            OperationModel::DeleteContainer { .. } => OperationKind::DeleteContainer,
            OperationModel::GetContainerInfo { .. } => OperationKind::GetContainerInfo,
            OperationModel::ListContainerObjects { .. } => OperationKind::ListContainerObjects,
            OperationModel::CopyObject { .. } => OperationKind::CopyObject,
            OperationModel::DeleteObject { .. } => OperationKind::DeleteObject,
            OperationModel::DeleteObjects { .. } => OperationKind::DeleteObjects,
            OperationModel::GetContainerData { .. } => OperationKind::GetContainerData,
            OperationModel::GetObjectInfo { .. } => OperationKind::GetObjectInfo,
            OperationModel::HasObject { .. } => OperationKind::HasObject,
            OperationModel::MoveObject { .. } => OperationKind::MoveObject,
            OperationModel::WriteContainerData { .. } => OperationKind::WriteContainerData,
        }
    }
}

impl Operation {
    /// The kind of the operation.
    pub fn kind(&self) -> (kind: OperationKind)
        ensures
            kind == self@.kind(),
    {
        match self {
            Operation::ClearContainer { .. } => OperationKind::ClearContainer,
            Operation::ContainerExists { .. } => OperationKind::ContainerExists,
            Operation::CreateContainer { .. } => OperationKind::CreateContainer,
            Operation::DeleteContainer { .. } => OperationKind::DeleteContainer,
            Operation::GetContainerInfo { .. } => OperationKind::GetContainerInfo,
            Operation::ListContainerObjects { .. } => OperationKind::ListContainerObjects,
            Operation::CopyObject { .. } => OperationKind::CopyObject,
            Operation::DeleteObject { .. } => OperationKind::DeleteObject,
            Operation::DeleteObjects { .. } => OperationKind::DeleteObjects,
            Operation::GetContainerData { .. } => OperationKind::GetContainerData,
            Operation::GetObjectInfo { .. } => OperationKind::GetObjectInfo,
            Operation::HasObject { .. } => OperationKind::HasObject,
            Operation::MoveObject { .. } => OperationKind::MoveObject,
            Operation::WriteContainerData { .. } => OperationKind::WriteContainerData,
        }
    }
}

/// What an operation that succeeded returns.
#[derive(Clone, Debug, PartialEq, Eq)]
pub enum Payload {
    /// Nothing but the success.
    Done,
    /// Whether the container or object exists.
    Exists(bool),
    /// What is known of the container.
    ContainerInfo(ContainerMetadata),
    /// What is known of the object.
    ObjectInfo(ObjectMetadata),
    /// The names of the objects.
    ObjectNames(Vec<String>),
    /// The body that the backend handed out, of which the caller is to get
    /// the first `limit` bytes and no more.
    Data { limit: u64 },
}

/// [`Payload`] in specifications.
pub enum PayloadModel {
    Done,
    Exists(bool),
    ContainerInfo(ContainerMetadata),
    ObjectInfo(ObjectMetadata),
    ObjectNames(Seq<Seq<char>>),
    Data { limit: u64 },
}

impl View for Payload {
    type V = PayloadModel;

    open spec fn view(&self) -> PayloadModel {
        match self {
            Payload::Done => PayloadModel::Done,
            Payload::Exists(exists) => PayloadModel::Exists(*exists),
            Payload::ContainerInfo(info) => PayloadModel::ContainerInfo(*info),
            Payload::ObjectInfo(info) => PayloadModel::ObjectInfo(*info),
            Payload::ObjectNames(names) => PayloadModel::ObjectNames(names.deep_view()),
            Payload::Data { limit } => PayloadModel::Data { limit: *limit },
        }
    }
}

/// What a handler waits for while a request is with the backend, with what
/// it needs to go on. Container names are physical.
#[derive(Clone, Debug, PartialEq, Eq)]
pub enum Pending {
    /// Clearing a container: its objects are being listed.
    ClearList { bucket: String },
    /// Clearing a container: its objects are being deleted.
    ClearDelete { bucket: String },
    ContainerExists { bucket: String },
    CreateContainer { bucket: String },
    DeleteContainer { bucket: String },
    GetContainerInfo { bucket: String },
    ListContainerObjects { bucket: String, limit: Option<u64>, offset: Option<u64> },
    /// Copying the object `key` of `bucket`.
    CopyObject { bucket: String, key: String },
    DeleteObject { bucket: String, key: String },
    DeleteObjects { bucket: String },
    /// Opening an object of which `wanted` bytes are to be read.
    GetContainerData { bucket: String, key: String, wanted: u64 },
    GetObjectInfo { bucket: String, key: String },
    HasObject { bucket: String, key: String },
    /// Moving the object `key` of `bucket`: it is being copied.
    MoveCopy { bucket: String, key: String },
    /// Moving the object `key` of `bucket`: it is being deleted where it was.
    MoveDelete { bucket: String, key: String },
    WriteContainerData { bucket: String, key: String },
}

/// [`Pending`] in specifications.
pub enum PendingModel {
    ClearList { bucket: Seq<char> },
    ClearDelete { bucket: Seq<char> },
    ContainerExists { bucket: Seq<char> },
    CreateContainer { bucket: Seq<char> },
    DeleteContainer { bucket: Seq<char> },
    GetContainerInfo { bucket: Seq<char> },
    ListContainerObjects { bucket: Seq<char>, limit: Option<u64>, offset: Option<u64> },
    CopyObject { bucket: Seq<char>, key: Seq<char> },
    DeleteObject { bucket: Seq<char>, key: Seq<char> },
    DeleteObjects { bucket: Seq<char> },
    GetContainerData { bucket: Seq<char>, key: Seq<char>, wanted: u64 },
    GetObjectInfo { bucket: Seq<char>, key: Seq<char> },
    HasObject { bucket: Seq<char>, key: Seq<char> },
    MoveCopy { bucket: Seq<char>, key: Seq<char> },
    MoveDelete { bucket: Seq<char>, key: Seq<char> },
    WriteContainerData { bucket: Seq<char>, key: Seq<char> },
}

impl View for Pending {
    type V = PendingModel;

    open spec fn view(&self) -> PendingModel {
        match self {
            Pending::ClearList { bucket } => PendingModel::ClearList { bucket: bucket@ },
            Pending::ClearDelete { bucket } => PendingModel::ClearDelete { bucket: bucket@ },
            Pending::ContainerExists { bucket } => PendingModel::ContainerExists {
                bucket: bucket@,
            },
            Pending::CreateContainer { bucket } => PendingModel::CreateContainer {
                bucket: bucket@,
            },
            Pending::DeleteContainer { bucket } => PendingModel::DeleteContainer {
                bucket: bucket@,
            },
            Pending::GetContainerInfo { bucket } => PendingModel::GetContainerInfo {
                bucket: bucket@,
            },
            Pending::ListContainerObjects { bucket, limit, offset } => {
                PendingModel::ListContainerObjects {
                    bucket: bucket@,
                    limit: *limit,
                    offset: *offset,
                }
            },
            Pending::CopyObject { bucket, key } => PendingModel::CopyObject {
                bucket: bucket@,
                key: key@,
            },
            Pending::DeleteObject { bucket, key } => PendingModel::DeleteObject {
                bucket: bucket@,
                key: key@,
            },
            Pending::DeleteObjects { bucket } => PendingModel::DeleteObjects { bucket: bucket@ },
            Pending::GetContainerData { bucket, key, wanted } => PendingModel::GetContainerData {
                bucket: bucket@,
                key: key@,
                wanted: *wanted,
            },
            Pending::GetObjectInfo { bucket, key } => PendingModel::GetObjectInfo {
                bucket: bucket@,
                key: key@,
            },
            Pending::HasObject { bucket, key } => PendingModel::HasObject {
                bucket: bucket@,
                key: key@,
            },
            Pending::MoveCopy { bucket, key } => PendingModel::MoveCopy {
                bucket: bucket@,
                key: key@,
            },
            Pending::MoveDelete { bucket, key } => PendingModel::MoveDelete {
                bucket: bucket@,
                key: key@,
            },
            Pending::WriteContainerData { bucket, key } => PendingModel::WriteContainerData {
                bucket: bucket@,
                key: key@,
            },
        }
    }
}

/// One step of an operation.
#[derive(Debug, PartialEq, Eq)]
pub enum Step {
    /// Send `request` to the backend and come back with its reply and
    /// `pending`.
    Call { request: Request, pending: Pending },
    /// The operation is over. `outcome` is what the caller gets: the payload
    /// on the result channel, or the failure on the error channel.
    Finish { outcome: Result<Payload, StorageError> },
}

/// [`Step`] in specifications.
pub enum StepModel {
    Call { request: RequestModel, pending: PendingModel },
    Finish { outcome: Result<PayloadModel, StorageErrorModel> },
}

impl View for Step {
    type V = StepModel;

    open spec fn view(&self) -> StepModel {
        match self {
            Step::Call { request, pending } => StepModel::Call {
                request: request@,
                pending: pending@,
            },
            Step::Finish { outcome } => StepModel::Finish {
                outcome: match outcome {
                    Ok(payload) => Ok(payload@),
                    Err(failure) => Err(failure@),
                },
            },
        }
    }
}

/// The links of a provider in specifications: for each caller that has a
/// link, by its source id, the alias table of the link.
pub type Links = Map<Seq<char>, Map<Seq<char>, Seq<char>>>;

/// The failure that ends an operation before the caller is looked at: a byte
/// range whose end is not above its start, or inbound data that did not
/// arrive in full.
pub open spec fn refusal(operation: OperationModel) -> Option<StorageErrorModel> {
    match operation {
        OperationModel::GetContainerData { start, end, .. } => if end > start {
            None
        } else {
            Some(StorageErrorModel::Range { start, end })
        },
        OperationModel::WriteContainerData { data: Err(message), .. } => Some(
            StorageErrorModel::Channel { message },
        ),
        _ => None,
    }
}

/// The alias table of the caller's link, or the failure where the invocation
/// names no caller or one without a link.
pub open spec fn link_of(links: Links, source_id: Option<Seq<char>>) -> Result<
    Map<Seq<char>, Seq<char>>,
    StorageErrorModel,
> {
    match source_id {
        Some(id) => if links.contains_key(id) {
            Ok(links[id])
        } else {
            Err(StorageErrorModel::UnknownLink { source_id })
        },
        None => Err(StorageErrorModel::UnknownLink { source_id }),
    }
}

/// The operation has ended with this payload.
pub open spec fn succeeded(payload: PayloadModel) -> StepModel {
    StepModel::Finish { outcome: Ok(payload) }
}

/// The operation has ended with this failure.
pub open spec fn failed(failure: StorageErrorModel) -> StepModel {
    StepModel::Finish { outcome: Err(failure) }
}

/// The operation has ended: with `payload` if `result` is a success, with
/// the failure otherwise.
pub open spec fn concluded(result: Result<(), StorageErrorModel>, payload: PayloadModel)
    -> StepModel {
    match result {
        Ok(()) => succeeded(payload),
        Err(failure) => failed(failure),
    }
}

/// The step that deletes `keys` from `bucket`: without keys there is nothing
/// to ask the backend, and the deletion has succeeded.
pub open spec fn deletion(bucket: Seq<char>, keys: Seq<Seq<char>>, pending: PendingModel)
    -> StepModel {
    if keys.len() == 0 {
        succeeded(PayloadModel::Done)
    } else {
        StepModel::Call { request: RequestModel::DeleteObjects { bucket, keys }, pending }
    }
}

/// The first step of `operation` for a caller whose link has the alias table
/// `aliases`: the request that goes to the backend, unless the operation is
/// one that [`refusal`] refuses or a deletion of nothing. Every container
/// name is resolved through the aliases.
pub open spec fn planned(aliases: Map<Seq<char>, Seq<char>>, operation: OperationModel)
    -> StepModel {
    match operation {
        OperationModel::ClearContainer { container } => {
            let bucket = resolve(aliases, container);
            StepModel::Call {
                request: RequestModel::ListObjects { bucket, max_keys: None },
                pending: PendingModel::ClearList { bucket },
            }
        },
        OperationModel::ContainerExists { container } => {
            let bucket = resolve(aliases, container);
            StepModel::Call {
                request: RequestModel::HeadBucket { bucket },
                pending: PendingModel::ContainerExists { bucket },
            }
        },
        OperationModel::CreateContainer { container } => {
            let bucket = resolve(aliases, container);
            StepModel::Call {
                request: RequestModel::CreateBucket { bucket },
                pending: PendingModel::CreateContainer { bucket },
            }
        },
        OperationModel::DeleteContainer { container } => {
            let bucket = resolve(aliases, container);
            StepModel::Call {
                request: RequestModel::DeleteBucket { bucket },
                pending: PendingModel::DeleteContainer { bucket },
            }
        },
        OperationModel::GetContainerInfo { container } => {
            let bucket = resolve(aliases, container);
            StepModel::Call {
                request: RequestModel::HeadBucket { bucket },
                pending: PendingModel::GetContainerInfo { bucket },
            }
        },
        OperationModel::ListContainerObjects { container, limit, offset } => {
            let bucket = resolve(aliases, container);
            StepModel::Call {
                request: RequestModel::ListObjects { bucket, max_keys: max_keys(limit) },
                pending: PendingModel::ListContainerObjects { bucket, limit, offset },
            }
        },
        OperationModel::CopyObject { src, dest } => {
            let bucket = resolve(aliases, src.container);
            StepModel::Call {
                request: RequestModel::CopyObject {
                    copy_source: copy_source(bucket, src.object),
                    bucket: resolve(aliases, dest.container),
                    key: dest.object,
                },
                pending: PendingModel::CopyObject { bucket, key: src.object },
            }
        },
        OperationModel::DeleteObject { id } => {
            let bucket = resolve(aliases, id.container);
            StepModel::Call {
                request: RequestModel::DeleteObject { bucket, key: id.object },
                pending: PendingModel::DeleteObject { bucket, key: id.object },
            }
        },
        OperationModel::DeleteObjects { container, objects } => {
            let bucket = resolve(aliases, container);
            deletion(bucket, objects, PendingModel::DeleteObjects { bucket })
        },
        OperationModel::GetContainerData { id, start, end } => {
            let bucket = resolve(aliases, id.container);
            if end > start {
                StepModel::Call {
                    request: RequestModel::GetObject {
                        bucket,
                        key: id.object,
                        range: byte_range(start, end),
                    },
                    pending: PendingModel::GetContainerData {
                        bucket,
                        key: id.object,
                        wanted: (end - start) as u64,
                    },
                }
            } else {
                failed(StorageErrorModel::Range { start, end })
            }
        },
        OperationModel::GetObjectInfo { id } => {
            let bucket = resolve(aliases, id.container);
            StepModel::Call {
                request: RequestModel::HeadObject { bucket, key: id.object },
                pending: PendingModel::GetObjectInfo { bucket, key: id.object },
            }
        },
        OperationModel::HasObject { id } => {
            let bucket = resolve(aliases, id.container);
            StepModel::Call {
                request: RequestModel::HeadObject { bucket, key: id.object },
                pending: PendingModel::HasObject { bucket, key: id.object },
            }
        },
        OperationModel::MoveObject { src, dest } => {
            let bucket = resolve(aliases, src.container);
            StepModel::Call {
                request: RequestModel::CopyObject {
                    copy_source: copy_source(bucket, src.object),
                    bucket: resolve(aliases, dest.container),
                    key: dest.object,
                },
                pending: PendingModel::MoveCopy { bucket, key: src.object },
            }
        },
        OperationModel::WriteContainerData { id, data } => {
            let bucket = resolve(aliases, id.container);
            match data {
                Ok(body) => StepModel::Call {
                    request: RequestModel::PutObject { bucket, key: id.object, body },
                    pending: PendingModel::WriteContainerData { bucket, key: id.object },
                },
                Err(message) => failed(StorageErrorModel::Channel { message }),
            }
        },
    }
}

/// The first step of `operation`, invoked by the caller `source_id`, at a
/// provider with `links`. An operation that is refused beforehand ends with
/// that failure, whoever the caller is. Otherwise the caller must have a
/// link, or the operation ends as that of an unknown link; with a link, the
/// first request goes to the backend.
pub open spec fn started(links: Links, source_id: Option<Seq<char>>, operation: OperationModel)
    -> StepModel {
    match refusal(operation) {
        Some(failure) => failed(failure),
        None => match link_of(links, source_id) {
            Ok(aliases) => planned(aliases, operation),
            Err(failure) => failed(failure),
        },
    }
}

/// The step that follows when `reply` answers the request that `pending`
/// waits for. Two operations go on with a second request: clearing a
/// container deletes what the listing named, and moving an object deletes the
/// source once the copy is made. Every other reply, and every failure,
/// ends the operation.
pub open spec fn resumed(pending: PendingModel, reply: ReplyModel) -> StepModel {
    match pending {
        PendingModel::ClearList { bucket } => match list_container_objects_result(
            bucket,
            reply.listing(),
            None,
            None,
        ) {
            Ok(names) => deletion(bucket, names, PendingModel::ClearDelete { bucket }),
            Err(failure) => failed(failure),
        },
        PendingModel::ClearDelete { bucket } => concluded(
            delete_objects_result(bucket, reply.deleted()),
            PayloadModel::Done,
        ),
        PendingModel::ContainerExists { bucket } => match container_exists_result(
            bucket,
            reply.done(),
        ) {
            Ok(exists) => succeeded(PayloadModel::Exists(exists)),
            Err(failure) => failed(failure),
        },
        PendingModel::CreateContainer { bucket } => concluded(
            create_container_result(bucket, reply.done()),
            PayloadModel::Done,
        ),
        PendingModel::DeleteContainer { bucket } => concluded(
            delete_container_result(bucket, reply.done()),
            PayloadModel::Done,
        ),
        PendingModel::GetContainerInfo { bucket } => match get_container_info_result(
            bucket,
            reply.done(),
        ) {
            Ok(info) => succeeded(PayloadModel::ContainerInfo(info)),
            Err(failure) => failed(failure),
        },
        PendingModel::ListContainerObjects {
            bucket,
            limit,
            offset,
        } => match list_container_objects_result(bucket, reply.listing(), limit, offset) {
            Ok(names) => succeeded(PayloadModel::ObjectNames(names)),
            Err(failure) => failed(failure),
        },
        PendingModel::CopyObject { bucket, key } => concluded(
            copy_object_result(bucket, key, reply.done()),
            PayloadModel::Done,
        ),
        PendingModel::DeleteObject { bucket, key } => concluded(
            delete_object_result(bucket, key, reply.done()),
            PayloadModel::Done,
        ),
        PendingModel::DeleteObjects { bucket } => concluded(
            delete_objects_result(bucket, reply.deleted()),
            PayloadModel::Done,
        ),
        PendingModel::GetContainerData { bucket, key, wanted } => concluded(
            get_object_result(bucket, key, reply.body()),
            PayloadModel::Data { limit: wanted },
        ),
        PendingModel::GetObjectInfo { bucket, key } => match get_object_info_result(
            bucket,
            key,
            reply.head(),
        ) {
            Ok(info) => succeeded(PayloadModel::ObjectInfo(info)),
            Err(failure) => failed(failure),
        },
        PendingModel::HasObject { bucket, key } => match has_object_result(
            bucket,
            key,
            reply.head(),
        ) {
            Ok(exists) => succeeded(PayloadModel::Exists(exists)),
            Err(failure) => failed(failure),
        },
        PendingModel::MoveCopy { bucket, key } => match copy_object_result(
            bucket,
            key,
            reply.done(),
        ) {
            Ok(()) => StepModel::Call {
                request: RequestModel::DeleteObject { bucket, key },
                pending: PendingModel::MoveDelete { bucket, key },
            },
            Err(failure) => failed(failure),
        },
        PendingModel::MoveDelete { bucket, key } => concluded(
            delete_object_result(bucket, key, reply.done()),
            PayloadModel::Done,
        ),
        PendingModel::WriteContainerData { bucket, key } => concluded(
            put_object_result(bucket, key, reply.done()),
            PayloadModel::Done,
        ),
    }
}

} // verus!
