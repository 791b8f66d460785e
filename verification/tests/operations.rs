use bytes::{Bytes, BytesMut};
use provider_blobstore_s3::backend::{BackendError, Call, Reply, Request};
use provider_blobstore_s3::config::StorageConfig;
use provider_blobstore_s3::error::StorageError;
use provider_blobstore_s3::handler::resume;
use provider_blobstore_s3::kind::OperationKind;
use provider_blobstore_s3::object::{ContainerMetadata, ObjectId, ObjectMetadata};
use provider_blobstore_s3::operation::{Operation, Payload, Pending, Step};
use provider_blobstore_s3::provider::BlobstoreS3Provider;

fn text(value: &str) -> String {
    value.to_string()
}

fn object(container: &str, name: &str) -> ObjectId {
    ObjectId { container: text(container), object: text(name) }
}

/// A provider with one link, of the caller `actor`, with the aliases
/// `images` -> `bucket-7` and `logs` -> `bucket-9`.
fn linked() -> BlobstoreS3Provider {
    let mut provider = BlobstoreS3Provider::default();
    let accepted = provider.receive_link_config_as_target(
        "actor",
        Ok(StorageConfig::default()),
        &vec![(text("alias_images"), text("bucket-7")), (text("alias_logs"), text("bucket-9"))],
    );
    assert_eq!(accepted, Ok(()));
    provider
}

fn call(request: Request, pending: Pending) -> Step {
    Step::Call { request, pending }
}

fn done(payload: Payload) -> Step {
    Step::Finish { outcome: Ok(payload) }
}

fn failure(error: StorageError) -> Step {
    Step::Finish { outcome: Err(error) }
}

fn unknown(source_id: Option<&str>) -> Step {
    failure(StorageError::UnknownLink { source_id: source_id.map(text) })
}

fn every_operation() -> Vec<Operation> {
    vec![
        Operation::ClearContainer { container: text("images") },
        Operation::ContainerExists { container: text("images") },
        Operation::CreateContainer { container: text("images") },
        Operation::DeleteContainer { container: text("images") },
        Operation::GetContainerInfo { container: text("images") },
        Operation::ListContainerObjects { container: text("images"), limit: None, offset: None },
        Operation::CopyObject { src: object("images", "a"), dest: object("logs", "b") },
        Operation::DeleteObject { id: object("images", "a") },
        Operation::DeleteObjects { container: text("images"), objects: vec![text("a")] },
        Operation::DeleteObjects { container: text("images"), objects: vec![] },
        Operation::GetContainerData { id: object("images", "a"), start: 0, end: 1 },
        Operation::GetObjectInfo { id: object("images", "a") },
        Operation::HasObject { id: object("images", "a") },
        Operation::MoveObject { src: object("images", "a"), dest: object("logs", "b") },
        Operation::WriteContainerData {
            id: object("images", "a"),
            data: Ok(BytesMut::from(&[1u8, 2, 3][..])),
        },
    ]
}

#[test]
fn unknown_source_fails_every_operation() {
    let provider = linked();
    for operation in every_operation() {
        assert_eq!(provider.handle(Some("stranger"), operation), unknown(Some("stranger")));
    }
    for operation in every_operation() {
        assert_eq!(provider.handle(None, operation), unknown(None));
    }
    let empty = BlobstoreS3Provider::default();
    for operation in every_operation() {
        assert_eq!(empty.handle(Some("actor"), operation), unknown(Some("actor")));
    }
}

#[test]
fn client_lookup_by_source_id() {
    let provider = linked();
    assert!(provider.has_link("actor"));
    assert!(!provider.has_link("Actor"));
    match provider.client(Some("actor")) {
        Ok(client) => assert_eq!(client.unalias("images"), "bucket-7"),
        Err(error) => panic!("{error:?}"),
    }
    assert_eq!(
        provider.client(Some("stranger")).err(),
        Some(StorageError::UnknownLink { source_id: Some(text("stranger")) })
    );
    assert_eq!(provider.client(None).err(), Some(StorageError::UnknownLink { source_id: None }));
}

#[test]
fn link_is_replaced_by_a_new_one() {
    let mut provider = linked();
    let accepted = provider.receive_link_config_as_target(
        "actor",
        Ok(StorageConfig::default()),
        &vec![(text("alias_images"), text("bucket-8"))],
    );
    assert_eq!(accepted, Ok(()));
    match provider.client(Some("actor")) {
        Ok(client) => {
            assert_eq!(client.unalias("images"), "bucket-8");
            assert_eq!(client.unalias("logs"), "logs");
        }
        Err(error) => panic!("{error:?}"),
    }
}

#[test]
fn link_without_configuration_is_turned_down() {
    let mut provider = linked();
    let refused = provider.receive_link_config_as_target(
        "actor",
        Err(text("invalid configuration")),
        &vec![(text("alias_images"), text("bucket-8"))],
    );
    assert_eq!(refused.map_err(|error| error.message), Err(text("invalid configuration")));
    match provider.client(Some("actor")) {
        Ok(client) => assert_eq!(client.unalias("images"), "bucket-7"),
        Err(error) => panic!("{error:?}"),
    }
    let refused = provider.receive_link_config_as_target("other", Err(text("no")), &vec![]);
    assert!(refused.is_err());
    assert!(!provider.has_link("other"));
}

#[test]
fn deleted_link_is_unknown() {
    let mut provider = linked();
    provider
        .receive_link_config_as_target("second", Ok(StorageConfig::default()), &vec![])
        .unwrap();
    provider.delete_link("actor");
    assert!(!provider.has_link("actor"));
    assert!(provider.has_link("second"));
    assert_eq!(
        provider.serve_container_exists(Some("actor"), "images"),
        unknown(Some("actor"))
    );
    provider.delete_link("never-linked");
    assert!(provider.has_link("second"));
}

#[test]
fn shutdown_drops_all_links() {
    let mut provider = linked();
    provider
        .receive_link_config_as_target("second", Ok(StorageConfig::default()), &vec![])
        .unwrap();
    provider.shutdown();
    assert!(!provider.has_link("actor"));
    assert!(!provider.has_link("second"));
    assert_eq!(provider.serve_has_object(Some("second"), &object("a", "b")), unknown(Some("second")));
}

#[test]
fn operation_kinds() {
    let kinds: Vec<OperationKind> = every_operation().iter().map(Operation::kind).collect();
    assert_eq!(
        kinds,
        vec![
            OperationKind::ClearContainer,
            OperationKind::ContainerExists,
            OperationKind::CreateContainer,
            OperationKind::DeleteContainer,
            OperationKind::GetContainerInfo,
            OperationKind::ListContainerObjects,
            OperationKind::CopyObject,
            OperationKind::DeleteObject,
            OperationKind::DeleteObjects,
            OperationKind::DeleteObjects,
            OperationKind::GetContainerData,
            OperationKind::GetObjectInfo,
            OperationKind::HasObject,
            OperationKind::MoveObject,
            OperationKind::WriteContainerData,
        ]
    );
}

#[test]
fn container_exists_course() {
    let provider = linked();
    let step = provider.serve_container_exists(Some("actor"), "alias_images");
    assert_eq!(
        step,
        call(
            Request::HeadBucket { bucket: text("bucket-7") },
            Pending::ContainerExists { bucket: text("bucket-7") }
        )
    );
    let pending = || Pending::ContainerExists { bucket: text("bucket-7") };
    assert_eq!(resume(pending(), Reply::Done), done(Payload::Exists(true)));
    assert_eq!(
        resume(pending(), Reply::Failed(BackendError::NotFound)),
        done(Payload::Exists(false))
    );
    assert_eq!(
        resume(pending(), Reply::Failed(BackendError::Unexpected(text("denied")))),
        failure(StorageError::UnexpectedBackend { call: Call::HeadBucket, message: text("denied") })
    );
    assert_eq!(
        resume(pending(), Reply::Failed(BackendError::Transient(text("timeout")))),
        failure(StorageError::TransientBackend { call: Call::HeadBucket, message: text("timeout") })
    );
}

#[test]
fn create_container_on_owned_container_succeeds() {
    let provider = linked();
    let step = provider.serve_create_container(Some("actor"), "fresh");
    assert_eq!(
        step,
        call(
            Request::CreateBucket { bucket: text("fresh") },
            Pending::CreateContainer { bucket: text("fresh") }
        )
    );
    let pending = || Pending::CreateContainer { bucket: text("fresh") };
    assert_eq!(resume(pending(), Reply::Done), done(Payload::Done));
    assert_eq!(resume(pending(), Reply::Failed(BackendError::AlreadyOwned)), done(Payload::Done));
    assert_eq!(
        resume(pending(), Reply::Failed(BackendError::Unexpected(text("taken")))),
        failure(StorageError::UnexpectedBackend { call: Call::CreateBucket, message: text("taken") })
    );
}

#[test]
fn delete_container_course() {
    let provider = linked();
    assert_eq!(
        provider.serve_delete_container(Some("actor"), "logs"),
        call(
            Request::DeleteBucket { bucket: text("bucket-9") },
            Pending::DeleteContainer { bucket: text("bucket-9") }
        )
    );
    let pending = || Pending::DeleteContainer { bucket: text("bucket-9") };
    assert_eq!(resume(pending(), Reply::Done), done(Payload::Done));
    assert_eq!(
        resume(pending(), Reply::Failed(BackendError::NotFound)),
        failure(StorageError::NotFound { bucket: text("bucket-9"), key: None })
    );
    assert_eq!(
        resume(pending(), Reply::Failed(BackendError::AlreadyOwned)),
        failure(StorageError::UnexpectedBackend {
            call: Call::DeleteBucket,
            message: text("the container exists already")
        })
    );
}

#[test]
fn get_container_info_course() {
    let provider = linked();
    assert_eq!(
        provider.serve_get_container_info(Some("actor"), "images"),
        call(
            Request::HeadBucket { bucket: text("bucket-7") },
            Pending::GetContainerInfo { bucket: text("bucket-7") }
        )
    );
    let pending = || Pending::GetContainerInfo { bucket: text("bucket-7") };
    assert_eq!(
        resume(pending(), Reply::Done),
        done(Payload::ContainerInfo(ContainerMetadata { created_at: 0 }))
    );
    assert_eq!(
        resume(pending(), Reply::Failed(BackendError::NotFound)),
        failure(StorageError::NotFound { bucket: text("bucket-7"), key: None })
    );
}

#[test]
fn list_container_objects_course() {
    let provider = linked();
    assert_eq!(
        provider.serve_list_container_objects(Some("actor"), "images", Some(2), Some(1)),
        call(
            Request::ListObjects { bucket: text("bucket-7"), max_keys: Some(2) },
            Pending::ListContainerObjects {
                bucket: text("bucket-7"),
                limit: Some(2),
                offset: Some(1)
            }
        )
    );
    let page = || Reply::Listing {
        contents: Some(vec![Some(text("a")), None, Some(text("b")), Some(text("c")), Some(text("d"))]),
    };
    let pending = |limit, offset| Pending::ListContainerObjects {
        bucket: text("bucket-7"),
        limit,
        offset,
    };
    assert_eq!(
        resume(pending(Some(2), Some(1)), page()),
        done(Payload::ObjectNames(vec![text("b"), text("c")]))
    );
    assert_eq!(
        resume(pending(None, None), page()),
        done(Payload::ObjectNames(vec![text("a"), text("b"), text("c"), text("d")]))
    );
    assert_eq!(
        resume(pending(None, Some(3)), page()),
        done(Payload::ObjectNames(vec![text("d")]))
    );
    assert_eq!(resume(pending(None, Some(4)), page()), done(Payload::ObjectNames(vec![])));
    assert_eq!(resume(pending(None, Some(u64::MAX)), page()), done(Payload::ObjectNames(vec![])));
    assert_eq!(resume(pending(Some(0), None), page()), done(Payload::ObjectNames(vec![])));
    assert_eq!(
        resume(pending(Some(u64::MAX), Some(0)), page()),
        done(Payload::ObjectNames(vec![text("a"), text("b"), text("c"), text("d")]))
    );
    assert_eq!(
        resume(pending(Some(1), None), Reply::Listing { contents: None }),
        done(Payload::ObjectNames(vec![]))
    );
    assert_eq!(
        resume(pending(None, None), Reply::Failed(BackendError::Unexpected(text("no")))),
        failure(StorageError::UnexpectedBackend { call: Call::ListObjects, message: text("no") })
    );
}

#[test]
fn list_limit_is_clamped_for_the_backend() {
    let provider = linked();
    let max_keys = |limit| match provider.serve_list_container_objects(Some("actor"), "x", limit, None) {
        Step::Call { request: Request::ListObjects { max_keys, .. }, .. } => max_keys,
        other => panic!("{other:?}"),
    };
    assert_eq!(max_keys(None), None);
    assert_eq!(max_keys(Some(0)), Some(0));
    assert_eq!(max_keys(Some(2147483647)), Some(2147483647));
    assert_eq!(max_keys(Some(2147483648)), Some(2147483647));
    assert_eq!(max_keys(Some(u64::MAX)), Some(i32::MAX));
}

#[test]
fn clear_container_lists_then_deletes() {
    let provider = linked();
    let step = provider.serve_clear_container(Some("actor"), "images");
    assert_eq!(
        step,
        call(
            Request::ListObjects { bucket: text("bucket-7"), max_keys: None },
            Pending::ClearList { bucket: text("bucket-7") }
        )
    );
    let listed = resume(
        Pending::ClearList { bucket: text("bucket-7") },
        Reply::Listing { contents: Some(vec![Some(text("a")), None, Some(text("b"))]) },
    );
    assert_eq!(
        listed,
        call(
            Request::DeleteObjects { bucket: text("bucket-7"), keys: vec![text("a"), text("b")] },
            Pending::ClearDelete { bucket: text("bucket-7") }
        )
    );
    assert_eq!(
        resume(Pending::ClearDelete { bucket: text("bucket-7") }, Reply::Deleted { failed: vec![] }),
        done(Payload::Done)
    );
    assert_eq!(
        resume(
            Pending::ClearDelete { bucket: text("bucket-7") },
            Reply::Deleted { failed: vec![Some(text("b"))] }
        ),
        failure(StorageError::PartialFailure { keys: vec![text("b")] })
    );
}

#[test]
fn clear_of_empty_container_sends_no_delete() {
    let pending = || Pending::ClearList { bucket: text("bucket-7") };
    assert_eq!(resume(pending(), Reply::Listing { contents: None }), done(Payload::Done));
    assert_eq!(resume(pending(), Reply::Listing { contents: Some(vec![]) }), done(Payload::Done));
    assert_eq!(
        resume(pending(), Reply::Listing { contents: Some(vec![None, None]) }),
        done(Payload::Done)
    );
    assert_eq!(
        resume(pending(), Reply::Failed(BackendError::Transient(text("reset")))),
        failure(StorageError::TransientBackend { call: Call::ListObjects, message: text("reset") })
    );
}

#[test]
fn copy_object_course() {
    let provider = linked();
    let step =
        provider.serve_copy_object(Some("actor"), &object("images", "a/b.png"), &object("alias_logs", "c"));
    assert_eq!(
        step,
        call(
            Request::CopyObject {
                copy_source: text("bucket-7/a/b.png"),
                bucket: text("bucket-9"),
                key: text("c")
            },
            Pending::CopyObject { bucket: text("bucket-7"), key: text("a/b.png") }
        )
    );
    let pending = || Pending::CopyObject { bucket: text("bucket-7"), key: text("a/b.png") };
    assert_eq!(resume(pending(), Reply::Done), done(Payload::Done));
    assert_eq!(
        resume(pending(), Reply::Failed(BackendError::NotFound)),
        failure(StorageError::NotFound { bucket: text("bucket-7"), key: Some(text("a/b.png")) })
    );
}

#[test]
fn move_object_copies_then_deletes_source() {
    let provider = linked();
    let step = provider.serve_move_object(Some("actor"), &object("images", "a"), &object("logs", "b"));
    assert_eq!(
        step,
        call(
            Request::CopyObject {
                copy_source: text("bucket-7/a"),
                bucket: text("bucket-9"),
                key: text("b")
            },
            Pending::MoveCopy { bucket: text("bucket-7"), key: text("a") }
        )
    );
    let copied = resume(Pending::MoveCopy { bucket: text("bucket-7"), key: text("a") }, Reply::Done);
    assert_eq!(
        copied,
        call(
            Request::DeleteObject { bucket: text("bucket-7"), key: text("a") },
            Pending::MoveDelete { bucket: text("bucket-7"), key: text("a") }
        )
    );
    let pending = || Pending::MoveDelete { bucket: text("bucket-7"), key: text("a") };
    assert_eq!(resume(pending(), Reply::Done), done(Payload::Done));
    assert_eq!(
        resume(pending(), Reply::Failed(BackendError::Unexpected(text("locked")))),
        failure(StorageError::UnexpectedBackend { call: Call::DeleteObject, message: text("locked") })
    );
}

#[test]
fn move_object_whose_copy_fails_deletes_nothing() {
    let step = resume(
        Pending::MoveCopy { bucket: text("bucket-7"), key: text("a") },
        Reply::Failed(BackendError::Unexpected(text("denied"))),
    );
    assert_eq!(
        step,
        failure(StorageError::UnexpectedBackend { call: Call::CopyObject, message: text("denied") })
    );
}

#[test]
fn delete_object_course() {
    let provider = linked();
    assert_eq!(
        provider.serve_delete_object(Some("actor"), &object("images", "a")),
        call(
            Request::DeleteObject { bucket: text("bucket-7"), key: text("a") },
            Pending::DeleteObject { bucket: text("bucket-7"), key: text("a") }
        )
    );
    let pending = || Pending::DeleteObject { bucket: text("bucket-7"), key: text("a") };
    assert_eq!(resume(pending(), Reply::Done), done(Payload::Done));
    assert_eq!(
        resume(pending(), Reply::Failed(BackendError::Transient(text("slow")))),
        failure(StorageError::TransientBackend { call: Call::DeleteObject, message: text("slow") })
    );
}

#[test]
fn delete_objects_with_empty_set_makes_no_call() {
    let provider = linked();
    assert_eq!(provider.serve_delete_objects(Some("actor"), "images", vec![]), done(Payload::Done));
}

#[test]
fn delete_objects_course() {
    let provider = linked();
    assert_eq!(
        provider.serve_delete_objects(Some("actor"), "images", vec![text("a"), text("b")]),
        call(
            Request::DeleteObjects { bucket: text("bucket-7"), keys: vec![text("a"), text("b")] },
            Pending::DeleteObjects { bucket: text("bucket-7") }
        )
    );
    let pending = || Pending::DeleteObjects { bucket: text("bucket-7") };
    assert_eq!(resume(pending(), Reply::Deleted { failed: vec![] }), done(Payload::Done));
    assert_eq!(
        resume(pending(), Reply::Deleted { failed: vec![Some(text("b")), None, Some(text(""))] }),
        failure(StorageError::PartialFailure { keys: vec![text("b"), text("")] })
    );
    assert_eq!(
        resume(pending(), Reply::Deleted { failed: vec![None] }),
        failure(StorageError::PartialFailure { keys: vec![] })
    );
    assert_eq!(
        resume(pending(), Reply::Failed(BackendError::Unexpected(text("denied")))),
        failure(StorageError::UnexpectedBackend { call: Call::DeleteObjects, message: text("denied") })
    );
}

#[test]
fn get_container_data_rejects_reversed_range() {
    let provider = linked();
    assert_eq!(
        provider.serve_get_container_data(Some("actor"), &object("images", "a"), 10, 5),
        failure(StorageError::Range { start: 10, end: 5 })
    );
    // the range is checked before the caller is looked up
    assert_eq!(
        provider.serve_get_container_data(None, &object("images", "a"), 10, 5),
        failure(StorageError::Range { start: 10, end: 5 })
    );
}

#[test]
fn get_container_data_rejects_empty_range() {
    let provider = linked();
    assert_eq!(
        provider.serve_get_container_data(Some("actor"), &object("images", "a"), 7, 7),
        failure(StorageError::Range { start: 7, end: 7 })
    );
    assert_eq!(
        provider.serve_get_container_data(Some("actor"), &object("images", "a"), 0, 0),
        failure(StorageError::Range { start: 0, end: 0 })
    );
}

#[test]
fn get_container_data_course() {
    let provider = linked();
    assert_eq!(
        provider.serve_get_container_data(Some("actor"), &object("images", "a"), 5, 10),
        call(
            Request::GetObject { bucket: text("bucket-7"), key: text("a"), range: text("bytes=5-10") },
            Pending::GetContainerData { bucket: text("bucket-7"), key: text("a"), wanted: 5 }
        )
    );
    let pending = || Pending::GetContainerData { bucket: text("bucket-7"), key: text("a"), wanted: 5 };
    assert_eq!(resume(pending(), Reply::Body), done(Payload::Data { limit: 5 }));
    assert_eq!(
        resume(pending(), Reply::Failed(BackendError::NotFound)),
        failure(StorageError::NotFound { bucket: text("bucket-7"), key: Some(text("a")) })
    );
}

#[test]
fn byte_range_is_written_in_decimal() {
    let provider = linked();
    let range = |start, end| match provider.serve_get_container_data(Some("actor"), &object("b", "k"), start, end) {
        Step::Call { request: Request::GetObject { range, .. }, pending: Pending::GetContainerData { wanted, .. } } => {
            (range, wanted)
        }
        other => panic!("{other:?}"),
    };
    assert_eq!(range(0, 1), (text("bytes=0-1"), 1));
    assert_eq!(range(9, 10), (text("bytes=9-10"), 1));
    assert_eq!(range(100, 1234567890), (text("bytes=100-1234567890"), 1234567790));
    assert_eq!(
        range(0, u64::MAX),
        (text("bytes=0-18446744073709551615"), 18446744073709551615)
    );
    assert_eq!(
        range(u64::MAX - 1, u64::MAX),
        (text("bytes=18446744073709551614-18446744073709551615"), 1)
    );
}

#[test]
fn get_object_info_course() {
    let provider = linked();
    assert_eq!(
        provider.serve_get_object_info(Some("actor"), &object("images", "a")),
        call(
            Request::HeadObject { bucket: text("bucket-7"), key: text("a") },
            Pending::GetObjectInfo { bucket: text("bucket-7"), key: text("a") }
        )
    );
    let pending = || Pending::GetObjectInfo { bucket: text("bucket-7"), key: text("a") };
    let info = |size| done(Payload::ObjectInfo(ObjectMetadata { created_at: 0, size }));
    assert_eq!(resume(pending(), Reply::Head { content_length: Some(42) }), info(42));
    assert_eq!(resume(pending(), Reply::Head { content_length: Some(0) }), info(0));
    assert_eq!(resume(pending(), Reply::Head { content_length: None }), info(0));
    assert_eq!(resume(pending(), Reply::Head { content_length: Some(-1) }), info(0));
    assert_eq!(resume(pending(), Reply::Head { content_length: Some(i64::MIN) }), info(0));
    assert_eq!(
        resume(pending(), Reply::Head { content_length: Some(i64::MAX) }),
        info(9223372036854775807)
    );
    assert_eq!(
        resume(pending(), Reply::Failed(BackendError::NotFound)),
        failure(StorageError::NotFound { bucket: text("bucket-7"), key: Some(text("a")) })
    );
    assert_eq!(
        resume(pending(), Reply::Failed(BackendError::Unexpected(text("denied")))),
        failure(StorageError::UnexpectedBackend { call: Call::HeadObject, message: text("denied") })
    );
}

#[test]
fn has_object_course() {
    let provider = linked();
    assert_eq!(
        provider.serve_has_object(Some("actor"), &object("alias_images", "a")),
        call(
            Request::HeadObject { bucket: text("bucket-7"), key: text("a") },
            Pending::HasObject { bucket: text("bucket-7"), key: text("a") }
        )
    );
    let pending = || Pending::HasObject { bucket: text("bucket-7"), key: text("a") };
    assert_eq!(resume(pending(), Reply::Head { content_length: Some(3) }), done(Payload::Exists(true)));
    assert_eq!(resume(pending(), Reply::Head { content_length: None }), done(Payload::Exists(true)));
    assert_eq!(
        resume(pending(), Reply::Failed(BackendError::NotFound)),
        done(Payload::Exists(false))
    );
    assert_eq!(
        resume(pending(), Reply::Failed(BackendError::Transient(text("reset")))),
        failure(StorageError::TransientBackend { call: Call::HeadObject, message: text("reset") })
    );
}

#[test]
fn write_container_data_course() {
    let provider = linked();
    assert_eq!(
        provider.serve_write_container_data(
            Some("actor"),
            &object("images", "a"),
            Ok(BytesMut::from(&[1u8, 2, 3][..]))
        ),
        call(
            Request::PutObject {
                bucket: text("bucket-7"),
                key: text("a"),
                body: Bytes::from_static(&[1, 2, 3])
            },
            Pending::WriteContainerData { bucket: text("bucket-7"), key: text("a") }
        )
    );
    let pending = || Pending::WriteContainerData { bucket: text("bucket-7"), key: text("a") };
    assert_eq!(resume(pending(), Reply::Done), done(Payload::Done));
    assert_eq!(
        resume(pending(), Reply::Failed(BackendError::Unexpected(text("full")))),
        failure(StorageError::UnexpectedBackend { call: Call::PutObject, message: text("full") })
    );
}

#[test]
fn write_container_data_with_broken_stream_makes_no_call() {
    let provider = linked();
    assert_eq!(
        provider.serve_write_container_data(Some("actor"), &object("images", "a"), Err(text("stream reset"))),
        failure(StorageError::Channel { message: text("stream reset") })
    );
    // the stream is looked at before the caller
    assert_eq!(
        provider.serve_write_container_data(None, &object("images", "a"), Err(text("stream reset"))),
        failure(StorageError::Channel { message: text("stream reset") })
    );
}

#[test]
fn written_bytes_are_read_back_from_the_same_object() {
    let provider = linked();
    let bytes = vec![7u8, 8, 9, 10];
    let id = object("alias_images", "photo");
    let mut gathered = BytesMut::new();
    gathered.extend_from_slice(&bytes[..2]);
    gathered.extend_from_slice(&bytes[2..]);
    let written = provider.serve_write_container_data(Some("actor"), &id, Ok(gathered));
    let (put_bucket, put_key, body) = match written {
        Step::Call { request: Request::PutObject { bucket, key, body }, .. } => (bucket, key, body),
        other => panic!("{other:?}"),
    };
    assert_eq!(body.to_vec(), bytes);
    let read = provider.serve_get_container_data(Some("actor"), &id, 0, bytes.len() as u64);
    match read {
        Step::Call { request: Request::GetObject { bucket, key, range }, pending } => {
            assert_eq!(bucket, put_bucket);
            assert_eq!(key, put_key);
            assert_eq!(range, "bytes=0-4");
            assert_eq!(resume(pending, Reply::Body), done(Payload::Data { limit: 4 }));
        }
        other => panic!("{other:?}"),
    }
}

#[test]
fn handle_takes_the_handler_of_the_kind() {
    let provider = linked();
    assert_eq!(
        provider.handle(Some("actor"), Operation::ContainerExists { container: text("images") }),
        provider.serve_container_exists(Some("actor"), "images")
    );
    assert_eq!(
        provider.handle(
            Some("actor"),
            Operation::GetContainerData { id: object("images", "a"), start: 10, end: 5 }
        ),
        failure(StorageError::Range { start: 10, end: 5 })
    );
    assert_eq!(
        provider.handle(
            None,
            Operation::WriteContainerData { id: object("images", "a"), data: Err(text("gone")) }
        ),
        failure(StorageError::Channel { message: text("gone") })
    );
    assert_eq!(
        provider.handle(
            Some("actor"),
            Operation::MoveObject { src: object("images", "a"), dest: object("logs", "b") }
        ),
        provider.serve_move_object(Some("actor"), &object("images", "a"), &object("logs", "b"))
    );
    assert_eq!(
        provider.handle(Some("actor"), Operation::DeleteObjects { container: text("x"), objects: vec![] }),
        done(Payload::Done)
    );
}

#[test]
fn reply_of_the_wrong_shape_is_an_unexpected_failure() {
    let mismatch = |call| {
        failure(StorageError::UnexpectedBackend {
            call,
            message: text("the reply does not answer the request"),
        })
    };
    assert_eq!(
        resume(Pending::ContainerExists { bucket: text("b") }, Reply::Body),
        mismatch(Call::HeadBucket)
    );
    assert_eq!(
        resume(Pending::HasObject { bucket: text("b"), key: text("k") }, Reply::Done),
        mismatch(Call::HeadObject)
    );
    assert_eq!(
        resume(Pending::ClearList { bucket: text("b") }, Reply::Deleted { failed: vec![] }),
        mismatch(Call::ListObjects)
    );
    assert_eq!(
        resume(Pending::DeleteObjects { bucket: text("b") }, Reply::Listing { contents: None }),
        mismatch(Call::DeleteObjects)
    );
    assert_eq!(
        resume(
            Pending::GetContainerData { bucket: text("b"), key: text("k"), wanted: 1 },
            Reply::Head { content_length: Some(1) }
        ),
        mismatch(Call::GetObject)
    );
}

#[test]
fn every_course_ends_within_two_replies() {
    let provider = linked();
    let replies = || {
        vec![
            Reply::Done,
            Reply::Body,
            Reply::Head { content_length: Some(1) },
            Reply::Listing { contents: Some(vec![Some(text("k"))]) },
            Reply::Deleted { failed: vec![] },
            Reply::Failed(BackendError::NotFound),
        ]
    };
    for first in replies() {
        for second in replies() {
            for operation in every_operation() {
                let mut step = provider.handle(Some("actor"), operation);
                let mut answers = vec![second.clone(), first.clone()];
                let mut calls = 0;
                while let Step::Call { pending, .. } = step {
                    calls += 1;
                    assert!(calls <= 2);
                    step = resume(pending, answers.pop().unwrap());
                }
                assert!(matches!(step, Step::Finish { .. }));
            }
        }
    }
}

#[test]
fn written_body_is_what_was_gathered() {
    let provider = linked();
    let body_of = |gathered: BytesMut| {
        match provider.serve_write_container_data(Some("actor"), &object("b", "k"), Ok(gathered)) {
            Step::Call { request: Request::PutObject { body, .. }, .. } => body.to_vec(),
            other => panic!("{other:?}"),
        }
    };
    assert_eq!(body_of(BytesMut::new()), Vec::<u8>::new());
    assert_eq!(body_of(BytesMut::from(&b"hello world"[..])), b"hello world".to_vec());
    let mut split = BytesMut::from(&b"0123456789"[..]);
    let head = split.split_to(4);
    assert_eq!(body_of(split), b"456789".to_vec());
    assert_eq!(body_of(head), b"0123".to_vec());
}

#[test]
fn pending_read_does_not_hold_up_an_existence_check() {
    let provider = linked();
    // a read is begun and its reply is outstanding
    let read = provider.serve_get_container_data(Some("actor"), &object("images", "big"), 0, 1 << 30);
    let waiting = match read {
        Step::Call { pending, .. } => pending,
        other => panic!("{other:?}"),
    };
    // meanwhile an existence check on another container runs from start to end
    let probe = provider.serve_container_exists(Some("actor"), "logs");
    let probing = match probe {
        Step::Call { request, pending } => {
            assert_eq!(request, Request::HeadBucket { bucket: text("bucket-9") });
            pending
        }
        other => panic!("{other:?}"),
    };
    assert_eq!(resume(probing, Reply::Done), done(Payload::Exists(true)));
    // the read ends as it would have without the check
    assert_eq!(resume(waiting, Reply::Body), done(Payload::Data { limit: 1 << 30 }));
}

#[test]
fn dropping_a_link_leaves_operations_under_way_alone() {
    let mut provider = linked();
    let step = provider.serve_move_object(Some("actor"), &object("images", "a"), &object("logs", "b"));
    provider.delete_link("actor");
    let waiting = match step {
        Step::Call { pending, .. } => pending,
        other => panic!("{other:?}"),
    };
    // the move goes on with the names that were resolved when it began
    assert_eq!(
        resume(waiting, Reply::Done),
        call(
            Request::DeleteObject { bucket: text("bucket-7"), key: text("a") },
            Pending::MoveDelete { bucket: text("bucket-7"), key: text("a") }
        )
    );
}
