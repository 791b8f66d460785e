//! The handlers of the operations, step by step.
//!
//! A handler makes the first step of an operation: it tests what can be
//! tested beforehand, finds the caller's link, resolves the container names
//! and names the request for the backend. [`resume`] makes each further step
//! from the backend's reply. Every course ends in exactly one
//! [`Step::Finish`].

use crate::backend::{Reply, Request};
use crate::buffer::{freeze, gathered_bytes};
use crate::client::StorageClient;
use crate::error::StorageError;
use crate::object::ObjectId;
use crate::operation::{
    deletion, failed, resumed, started, succeeded, Operation, OperationModel, Payload, Pending,
    Step,
};
use crate::provider::BlobstoreS3Provider;
use bytes::BytesMut;
use vstd::prelude::*;
use vstd::string::StringExecFns;

verus! {

fn fail(failure: StorageError) -> (step: Step)
    ensures
        step@ == failed(failure@),
{
    Step::Finish { outcome: Err(failure) }
}

fn succeed(payload: Payload) -> (step: Step)
    ensures
        step@ == succeeded(payload@),
{
    Step::Finish { outcome: Ok(payload) }
}

fn conclude(result: Result<(), StorageError>, payload: Payload) -> (step: Step)
    ensures
        match result {
            Ok(()) => step@ == succeeded(payload@),
            Err(failure) => step@ == failed(failure@),
        },
{
    match result {
        Ok(()) => succeed(payload),
        Err(failure) => fail(failure),
    }
}

fn delete_all(bucket: &str, keys: Vec<String>, pending: Pending) -> (step: Step)
    ensures
        step@ == deletion(bucket@, keys.deep_view(), pending@),
{
    let ghost names = keys.deep_view();
    assert(names.len() == keys@.len());
    match StorageClient::delete_objects_request(bucket, keys) {
        Some(request) => Step::Call { request, pending },
        None => succeed(Payload::Done),
    }
}

impl BlobstoreS3Provider {
    /// Begins to clear a container: its objects are listed, all of them.
    pub fn serve_clear_container(&self, source_id: Option<&str>, container: &str) -> (step: Step)
        ensures
            step@ == started(
                self@,
                source_id.deep_view(),
                OperationModel::ClearContainer { container: container@ },
            ),
    {
        match self.client(source_id) {
            Ok(client) => {
                let bucket = client.unalias(container);
                Step::Call {
                    request: StorageClient::list_container_objects_request(bucket, None),
                    pending: Pending::ClearList { bucket: String::from_str(bucket) },
                }
            },
            Err(failure) => fail(failure),
        }
    }

    /// Begins to tell whether a container exists.
    pub fn serve_container_exists(&self, source_id: Option<&str>, container: &str) -> (step: Step)
        ensures
            step@ == started(
                self@,
                source_id.deep_view(),
                OperationModel::ContainerExists { container: container@ },
            ),
    {
        match self.client(source_id) {
            Ok(client) => {
                let bucket = client.unalias(container);
                Step::Call {
                    request: Request::HeadBucket { bucket: String::from_str(bucket) },
                    pending: Pending::ContainerExists { bucket: String::from_str(bucket) },
                }
            },
            Err(failure) => fail(failure),
        }
    }

    /// Begins to create a container.
    pub fn serve_create_container(&self, source_id: Option<&str>, container: &str) -> (step: Step)
        ensures
            step@ == started(
                self@,
                source_id.deep_view(),
                OperationModel::CreateContainer { container: container@ },
            ),
    {
        match self.client(source_id) {
            Ok(client) => {
                let bucket = client.unalias(container);
                Step::Call {
                    request: Request::CreateBucket { bucket: String::from_str(bucket) },
                    pending: Pending::CreateContainer { bucket: String::from_str(bucket) },
                }
            },
            Err(failure) => fail(failure),
        }
    }

    /// Begins to delete a container.
    pub fn serve_delete_container(&self, source_id: Option<&str>, container: &str) -> (step: Step)
        ensures
            step@ == started(
                self@,
                source_id.deep_view(),
                OperationModel::DeleteContainer { container: container@ },
            ),
    {
        match self.client(source_id) {
            Ok(client) => {
                let bucket = client.unalias(container);
                Step::Call {
                    request: Request::DeleteBucket { bucket: String::from_str(bucket) },
                    pending: Pending::DeleteContainer { bucket: String::from_str(bucket) },
                }
            },
            Err(failure) => fail(failure),
        }
    }

    /// Begins to tell what is known of a container.
    pub fn serve_get_container_info(&self, source_id: Option<&str>, container: &str) -> (step:
        Step)
        ensures
            step@ == started(
                self@,
                source_id.deep_view(),
                OperationModel::GetContainerInfo { container: container@ },
            ),
    {
        match self.client(source_id) {
            Ok(client) => {
                let bucket = client.unalias(container);
                Step::Call {
                    request: Request::HeadBucket { bucket: String::from_str(bucket) },
                    pending: Pending::GetContainerInfo { bucket: String::from_str(bucket) },
                }
            },
            Err(failure) => fail(failure),
        }
    }

    /// Begins to name the objects of a container.
    pub fn serve_list_container_objects(
        &self,
        source_id: Option<&str>,
        container: &str,
        limit: Option<u64>,
        offset: Option<u64>,
    ) -> (step: Step)
        ensures
            step@ == started(
                self@,
                source_id.deep_view(),
                OperationModel::ListContainerObjects { container: container@, limit, offset },
            ),
    {
        match self.client(source_id) {
            Ok(client) => {
                let bucket = client.unalias(container);
                Step::Call {
                    request: StorageClient::list_container_objects_request(bucket, limit),
                    pending: Pending::ListContainerObjects {
                        bucket: String::from_str(bucket),
                        limit,
                        offset,
                    },
                }
            },
            Err(failure) => fail(failure),
        }
    }

    /// Begins to copy an object.
    pub fn serve_copy_object(&self, source_id: Option<&str>, src: &ObjectId, dest: &ObjectId) -> (step:
        Step)
        ensures
            step@ == started(
                self@,
                source_id.deep_view(),
                OperationModel::CopyObject { src: src@, dest: dest@ },
            ),
    {
        match self.client(source_id) {
            Ok(client) => {
                let src_bucket = client.unalias(src.container.as_str());
                let dest_bucket = client.unalias(dest.container.as_str());
                Step::Call {
                    request: StorageClient::copy_object_request(
                        src_bucket,
                        src.object.as_str(),
                        dest_bucket,
                        dest.object.as_str(),
                    ),
                    pending: Pending::CopyObject {
                        bucket: String::from_str(src_bucket),
                        key: src.object.clone(),
                    },
                }
            },
            Err(failure) => fail(failure),
        }
    }

    /// Begins to delete an object.
    pub fn serve_delete_object(&self, source_id: Option<&str>, id: &ObjectId) -> (step: Step)
        ensures
            step@ == started(
                self@,
                source_id.deep_view(),
                OperationModel::DeleteObject { id: id@ },
            ),
    {
        match self.client(source_id) {
            Ok(client) => {
                let bucket = client.unalias(id.container.as_str());
                Step::Call {
                    request: Request::DeleteObject {
                        bucket: String::from_str(bucket),
                        key: id.object.clone(),
                    },
                    pending: Pending::DeleteObject {
                        bucket: String::from_str(bucket),
                        key: id.object.clone(),
                    },
                }
            },
            Err(failure) => fail(failure),
        }
    }

    /// Begins to delete several objects of a container. Without objects the
    /// operation is over at once, with success and without a request.
    pub fn serve_delete_objects(
        &self,
        source_id: Option<&str>,
        container: &str,
        objects: Vec<String>,
    ) -> (step: Step)
        ensures
            step@ == started(
                self@,
                source_id.deep_view(),
                OperationModel::DeleteObjects {
                    container: container@,
                    objects: objects.deep_view(),
                },
            ),
    {
        match self.client(source_id) {
            Ok(client) => {
                let bucket = client.unalias(container);
                delete_all(
                    bucket,
                    objects,
                    Pending::DeleteObjects { bucket: String::from_str(bucket) },
                )
            },
            Err(failure) => fail(failure),
        }
    }

    /// Begins to read the bytes of an object from `start` to `end`. The end
    /// must lie above the start: a range that is empty or reversed ends the
    /// operation at once, before the caller is looked at and without a
    /// request.
    pub fn serve_get_container_data(
        &self,
        source_id: Option<&str>,
        id: &ObjectId,
        start: u64,
        end: u64,
    ) -> (step: Step)
        ensures
            step@ == started(
                self@,
                source_id.deep_view(),
                OperationModel::GetContainerData { id: id@, start, end },
            ),
    {
        if end <= start {
            return fail(StorageError::Range { start, end });
        }
        let wanted = end - start;
        match self.client(source_id) {
            Ok(client) => {
                let bucket = client.unalias(id.container.as_str());
                Step::Call {
                    request: StorageClient::get_object_request(
                        bucket,
                        id.object.as_str(),
                        start,
                        end,
                    ),
                    pending: Pending::GetContainerData {
                        bucket: String::from_str(bucket),
                        key: id.object.clone(),
                        wanted,
                    },
                }
            },
            Err(failure) => fail(failure),
        }
    }

    /// Begins to tell what is known of an object.
    pub fn serve_get_object_info(&self, source_id: Option<&str>, id: &ObjectId) -> (step: Step)
        ensures
            step@ == started(
                self@,
                source_id.deep_view(),
                OperationModel::GetObjectInfo { id: id@ },
            ),
    {
        match self.client(source_id) {
            Ok(client) => {
                let bucket = client.unalias(id.container.as_str());
                Step::Call {
                    request: Request::HeadObject {
                        bucket: String::from_str(bucket),
                        key: id.object.clone(),
                    },
                    pending: Pending::GetObjectInfo {
                        bucket: String::from_str(bucket),
                        key: id.object.clone(),
                    },
                }
            },
            Err(failure) => fail(failure),
        }
    }

    /// Begins to tell whether an object exists.
    pub fn serve_has_object(&self, source_id: Option<&str>, id: &ObjectId) -> (step: Step)
        ensures
            step@ == started(self@, source_id.deep_view(), OperationModel::HasObject { id: id@ }),
    {
        match self.client(source_id) {
            Ok(client) => {
                let bucket = client.unalias(id.container.as_str());
                Step::Call {
                    request: Request::HeadObject {
                        bucket: String::from_str(bucket),
                        key: id.object.clone(),
                    },
                    pending: Pending::HasObject {
                        bucket: String::from_str(bucket),
                        key: id.object.clone(),
                    },
                }
            },
            Err(failure) => fail(failure),
        }
    }

    /// Begins to move an object: it is copied first.
    pub fn serve_move_object(&self, source_id: Option<&str>, src: &ObjectId, dest: &ObjectId) -> (step:
        Step)
        ensures
            step@ == started(
                self@,
                source_id.deep_view(),
                OperationModel::MoveObject { src: src@, dest: dest@ },
            ),
    {
        match self.client(source_id) {
            Ok(client) => {
                let src_bucket = client.unalias(src.container.as_str());
                let dest_bucket = client.unalias(dest.container.as_str());
                Step::Call {
                    request: StorageClient::copy_object_request(
                        src_bucket,
                        src.object.as_str(),
                        dest_bucket,
                        dest.object.as_str(),
                    ),
                    pending: Pending::MoveCopy {
                        bucket: String::from_str(src_bucket),
                        key: src.object.clone(),
                    },
                }
            },
            Err(failure) => fail(failure),
        }
    }

    /// Begins to write an object whose bytes were received beforehand. Where
    /// they were not received in full, the operation is over at once, with
    /// the error of the stream, before the caller is looked at and without a
    /// request.
    pub fn serve_write_container_data(
        &self,
        source_id: Option<&str>,
        id: &ObjectId,
        data: Result<BytesMut, String>,
    ) -> (step: Step)
        ensures
            step@ == started(
                self@,
                source_id.deep_view(),
                OperationModel::WriteContainerData {
                    id: id@,
                    data: match data {
                        Ok(bytes) => Ok(gathered_bytes(bytes)),
                        Err(text) => Err(text@),
                    },
                },
            ),
    {
        let body = match data {
            Ok(gathered) => freeze(gathered),
            Err(message) => {
                return fail(StorageError::Channel { message });
            },
        };
        match self.client(source_id) {
            Ok(client) => {
                let bucket = client.unalias(id.container.as_str());
                Step::Call {
                    request: StorageClient::put_object_request(bucket, id.object.as_str(), body),
                    pending: Pending::WriteContainerData {
                        bucket: String::from_str(bucket),
                        key: id.object.clone(),
                    },
                }
            },
            Err(failure) => fail(failure),
        }
    }

    /// Makes the first step of `operation` for the caller `source_id`, with
    /// the handler of its kind.
    pub fn handle(&self, source_id: Option<&str>, operation: Operation) -> (step: Step)
        ensures
            step@ == started(self@, source_id.deep_view(), operation@),
    {
        match operation {
            Operation::ClearContainer { container } => self.serve_clear_container(
                source_id,
                container.as_str(),
            ),
            Operation::ContainerExists { container } => self.serve_container_exists(
                source_id,
                container.as_str(),
            ),
            Operation::CreateContainer { container } => self.serve_create_container(
                source_id,
                container.as_str(),
            ),
            Operation::DeleteContainer { container } => self.serve_delete_container(
                source_id,
                container.as_str(),
            ),
            Operation::GetContainerInfo { container } => self.serve_get_container_info(
                source_id,
                container.as_str(),
            ),
            Operation::ListContainerObjects {
                container,
                limit,
                offset,
            } => self.serve_list_container_objects(source_id, container.as_str(), limit, offset),
            Operation::CopyObject { src, dest } => self.serve_copy_object(source_id, &src, &dest),
            Operation::DeleteObject { id } => self.serve_delete_object(source_id, &id),
            Operation::DeleteObjects { container, objects } => self.serve_delete_objects(
                source_id,
                container.as_str(),
                objects,
            ),
            Operation::GetContainerData { id, start, end } => self.serve_get_container_data(
                source_id,
                &id,
                start,
                end,
            ),
            Operation::GetObjectInfo { id } => self.serve_get_object_info(source_id, &id),
            Operation::HasObject { id } => self.serve_has_object(source_id, &id),
            Operation::MoveObject { src, dest } => self.serve_move_object(source_id, &src, &dest),
            Operation::WriteContainerData { id, data } => self.serve_write_container_data(
                source_id,
                &id,
                data,
            ),
        }
    }
}

/// Makes the step that follows when `reply` answers the request that
/// `pending` waits for. See [`resumed`].
pub fn resume(pending: Pending, reply: Reply) -> (step: Step)
    ensures
        step@ == resumed(pending@, reply@),
{
    match pending {
        Pending::ClearList { bucket } => {
            match StorageClient::list_container_objects(
                bucket.as_str(),
                reply.listing(),
                None,
                None,
            ) {
                Ok(names) => {
                    let pending = Pending::ClearDelete { bucket: bucket.clone() };
                    delete_all(bucket.as_str(), names, pending)
                },
                Err(failure) => fail(failure),
            }
        },
        Pending::ClearDelete { bucket } => conclude(
            StorageClient::delete_objects(bucket.as_str(), reply.deleted()),
            Payload::Done,
        ),
        Pending::ContainerExists { bucket } => {
            match StorageClient::container_exists(bucket.as_str(), reply.done()) {
                Ok(exists) => succeed(Payload::Exists(exists)),
                Err(failure) => fail(failure),
            }
        },
        Pending::CreateContainer { bucket } => conclude(
            StorageClient::create_container(bucket.as_str(), reply.done()),
            Payload::Done,
        ),
        Pending::DeleteContainer { bucket } => conclude(
            StorageClient::delete_container(bucket.as_str(), reply.done()),
            Payload::Done,
        ),
        Pending::GetContainerInfo { bucket } => {
            match StorageClient::get_container_info(bucket.as_str(), reply.done()) {
                Ok(info) => succeed(Payload::ContainerInfo(info)),
                Err(failure) => fail(failure),
            }
        },
        Pending::ListContainerObjects { bucket, limit, offset } => {
            match StorageClient::list_container_objects(
                bucket.as_str(),
                reply.listing(),
                limit,
                offset,
            ) {
                Ok(names) => succeed(Payload::ObjectNames(names)),
                Err(failure) => fail(failure),
            }
        },
        Pending::CopyObject { bucket, key } => conclude(
            StorageClient::copy_object(bucket.as_str(), key.as_str(), reply.done()),
            Payload::Done,
        ),
        Pending::DeleteObject { bucket, key } => conclude(
            StorageClient::delete_object(bucket.as_str(), key.as_str(), reply.done()),
            Payload::Done,
        ),
        Pending::DeleteObjects { bucket } => conclude(
            StorageClient::delete_objects(bucket.as_str(), reply.deleted()),
            Payload::Done,
        ),
        Pending::GetContainerData { bucket, key, wanted } => conclude(
            StorageClient::get_object(bucket.as_str(), key.as_str(), reply.body()),
            Payload::Data { limit: wanted },
        ),
        Pending::GetObjectInfo { bucket, key } => {
            match StorageClient::get_object_info(bucket.as_str(), key.as_str(), reply.head()) {
                Ok(info) => succeed(Payload::ObjectInfo(info)),
                Err(failure) => fail(failure),
            }
        },
        Pending::HasObject { bucket, key } => {
            match StorageClient::has_object(bucket.as_str(), key.as_str(), reply.head()) {
                Ok(exists) => succeed(Payload::Exists(exists)),
                Err(failure) => fail(failure),
            }
        },
        Pending::MoveCopy { bucket, key } => {
            match StorageClient::copy_object(bucket.as_str(), key.as_str(), reply.done()) {
                Ok(()) => Step::Call {
                    request: Request::DeleteObject { bucket: bucket.clone(), key: key.clone() },
                    pending: Pending::MoveDelete { bucket, key },
                },
                Err(failure) => fail(failure),
            }
        },
        Pending::MoveDelete { bucket, key } => conclude(
            StorageClient::delete_object(bucket.as_str(), key.as_str(), reply.done()),
            Payload::Done,
        ),
        Pending::WriteContainerData { bucket, key } => conclude(
            StorageClient::put_object(bucket.as_str(), key.as_str(), reply.done()),
            Payload::Done,
        ),
    }
}

} // verus!
