//! The client of one link: its aliases, the requests it makes of the backend
//! and what it makes of the replies.
//!
//! For each storage operation there is what goes to the backend and what the
//! backend's answer means. The functions that read an answer take it as a
//! plain value, so they say what is returned for every answer there can be.

use crate::alias::{pairs, resolve, with_entries, with_link_values, AliasTable};
use crate::backend::{BackendError, BackendErrorModel, Call, Request, RequestModel};
use crate::buffer::shared_bytes;
use crate::config::StorageConfig;
use crate::error::{reports, surface, surfaced, StorageError, StorageErrorModel};
use crate::object::{ContainerMetadata, ObjectMetadata};
use crate::text::{decimal, push_decimal};
use bytes::Bytes;
use vstd::prelude::*;
use vstd::string::StringExecFns;

verus! {

/// The state of one link: the aliases under which its caller may address
/// containers. They are fixed when the link is made.
pub struct StorageClient {
    aliases: AliasTable,
}

impl View for StorageClient {
    type V = Map<Seq<char>, Seq<char>>;

    /// The alias table: logical name to physical name.
    closed spec fn view(&self) -> Map<Seq<char>, Seq<char>> {
        self.aliases@
    }
}

/// The alias table of a link: the aliases of the general configuration, in
/// order, then those among the link's own configuration values, in order, so
/// that the link's values count where both define a name.
pub open spec fn link_aliases(
    general: Seq<(Seq<char>, Seq<char>)>,
    link_values: Seq<(Seq<char>, Seq<char>)>,
) -> Map<Seq<char>, Seq<char>> {
    with_link_values(with_entries(Map::empty(), general), link_values)
}

/// The container probe answered: the container exists unless the backend
/// says that it is absent.
pub open spec fn container_exists_result(
    bucket: Seq<char>,
    reply: Result<(), BackendErrorModel>,
) -> Result<bool, StorageErrorModel> {
    match reply {
        Ok(()) => Ok(true),
        Err(BackendErrorModel::NotFound) => Ok(false),
        Err(error) => Err(surfaced(Call::HeadBucket, bucket, None, error)),
    }
}

/// The creation of a container answered: a container that exists already and
/// belongs to the caller counts as created.
pub open spec fn create_container_result(
    bucket: Seq<char>,
    reply: Result<(), BackendErrorModel>,
) -> Result<(), StorageErrorModel> {
    match reply {
        Ok(()) => Ok(()),
        Err(BackendErrorModel::AlreadyOwned) => Ok(()),
        Err(error) => Err(surfaced(Call::CreateBucket, bucket, None, error)),
    }
}

/// The container probe answered, for its metadata: the backend tells no
/// date of creation, so it is 0; an absent container is a failure.
pub open spec fn get_container_info_result(
    bucket: Seq<char>,
    reply: Result<(), BackendErrorModel>,
) -> Result<ContainerMetadata, StorageErrorModel> {
    match reply {
        Ok(()) => Ok(ContainerMetadata { created_at: 0 }),
        Err(error) => Err(surfaced(Call::HeadBucket, bucket, None, error)),
    }
}

/// The deletion of a container answered.
pub open spec fn delete_container_result(
    bucket: Seq<char>,
    reply: Result<(), BackendErrorModel>,
) -> Result<(), StorageErrorModel> {
    match reply {
        Ok(()) => Ok(()),
        Err(error) => Err(surfaced(Call::DeleteBucket, bucket, None, error)),
    }
}

/// The copy of the object `key` of `bucket` answered.
pub open spec fn copy_object_result(
    bucket: Seq<char>,
    key: Seq<char>,
    reply: Result<(), BackendErrorModel>,
) -> Result<(), StorageErrorModel> {
    match reply {
        Ok(()) => Ok(()),
        Err(error) => Err(surfaced(Call::CopyObject, bucket, Some(key), error)),
    }
}

/// The deletion of an object answered.
pub open spec fn delete_object_result(
    bucket: Seq<char>,
    key: Seq<char>,
    reply: Result<(), BackendErrorModel>,
) -> Result<(), StorageErrorModel> {
    match reply {
        Ok(()) => Ok(()),
        Err(error) => Err(surfaced(Call::DeleteObject, bucket, Some(key), error)),
    }
}

/// The object probe answered: the object exists unless the backend says that
/// it is absent.
pub open spec fn has_object_result(
    bucket: Seq<char>,
    key: Seq<char>,
    reply: Result<Option<i64>, BackendErrorModel>,
) -> Result<bool, StorageErrorModel> {
    match reply {
        Ok(_) => Ok(true),
        Err(BackendErrorModel::NotFound) => Ok(false),
        Err(error) => Err(surfaced(Call::HeadObject, bucket, Some(key), error)),
    }
}

/// The size that a probe of an object tells: the length that the backend
/// gave, or 0 where it gave none or a negative one.
pub open spec fn object_size(content_length: Option<i64>) -> u64 {
    match content_length {
        Some(length) => if length >= 0 {
            length as u64
        } else {
            0
        },
        None => 0,
    }
}

/// The object probe answered, for its metadata: the backend tells no date of
/// creation, so it is 0; an absent object is a failure.
pub open spec fn get_object_info_result(
    bucket: Seq<char>,
    key: Seq<char>,
    reply: Result<Option<i64>, BackendErrorModel>,
) -> Result<ObjectMetadata, StorageErrorModel> {
    match reply {
        Ok(content_length) => Ok(
            ObjectMetadata { created_at: 0, size: object_size(content_length) },
        ),
        Err(error) => Err(surfaced(Call::HeadObject, bucket, Some(key), error)),
    }
}

/// The bulk delete answered: it succeeded if no object is left undeleted.
/// Otherwise it failed as a whole, with the keys of the objects that are
/// left, as far as the backend names them.
pub open spec fn delete_objects_result(
    bucket: Seq<char>,
    reply: Result<Seq<Option<Seq<char>>>, BackendErrorModel>,
) -> Result<(), StorageErrorModel> {
    match reply {
        Ok(failed) => if failed.len() == 0 {
            Ok(())
        } else {
            Err(StorageErrorModel::PartialFailure { keys: keys_of(failed) })
        },
        Err(error) => Err(surfaced(Call::DeleteObjects, bucket, None, error)),
    }
}

/// The opening of an object answered: the body is there or the call failed.
pub open spec fn get_object_result(
    bucket: Seq<char>,
    key: Seq<char>,
    reply: Result<(), BackendErrorModel>,
) -> Result<(), StorageErrorModel> {
    match reply {
        Ok(()) => Ok(()),
        Err(error) => Err(surfaced(Call::GetObject, bucket, Some(key), error)),
    }
}

/// The writing of an object answered.
pub open spec fn put_object_result(
    bucket: Seq<char>,
    key: Seq<char>,
    reply: Result<(), BackendErrorModel>,
) -> Result<(), StorageErrorModel> {
    match reply {
        Ok(()) => Ok(()),
        Err(error) => Err(surfaced(Call::PutObject, bucket, Some(key), error)),
    }
}

impl StorageClient {
    /// The client of a new link. Its aliases are those of `config`, then
    /// those among `config_values`, the configuration values of the link; an
    /// alias of the link with an empty name or target is passed over.
    pub fn new(config: StorageConfig, config_values: &Vec<(String, String)>) -> (client: Self)
        ensures
            client@ == link_aliases(pairs(config.aliases@), pairs(config_values@)),
    {
        let mut aliases = AliasTable::new();
        aliases.extend(&config.aliases);
        aliases.extend_from_link(config_values);
        StorageClient { aliases }
    }

    /// The physical name of a container that the caller names
    /// `bucket_or_alias`. The marker in front of the name is optional: a name
    /// is looked up with or without it, and a name that is no alias stands
    /// for itself.
    pub fn unalias<'n, 's: 'n>(&'s self, bucket_or_alias: &'n str) -> (bucket: &'n str)
        ensures
            bucket@ == resolve(self@, bucket_or_alias@),
    {
        self.aliases.resolve(bucket_or_alias)
    }

    /// Whether the container exists, from the answer to its probe.
    pub fn container_exists(bucket: &str, reply: Result<(), BackendError>) -> (result: Result<
        bool,
        StorageError,
    >)
        ensures
            reports(result, container_exists_result(bucket@, crate::backend::model(reply))),
    {
        match reply {
            Ok(()) => Ok(true),
            Err(BackendError::NotFound) => Ok(false),
            Err(error) => Err(surface(Call::HeadBucket, bucket, None, error)),
        }
    }

    /// Whether the container is there after the answer to its creation.
    pub fn create_container(bucket: &str, reply: Result<(), BackendError>) -> (result: Result<
        (),
        StorageError,
    >)
        ensures
            reports(result, create_container_result(bucket@, crate::backend::model(reply))),
    {
        match reply {
            Ok(()) => Ok(()),
            Err(BackendError::AlreadyOwned) => Ok(()),
            Err(error) => Err(surface(Call::CreateBucket, bucket, None, error)),
        }
    }

    /// The metadata of the container, from the answer to its probe.
    pub fn get_container_info(bucket: &str, reply: Result<(), BackendError>) -> (result: Result<
        ContainerMetadata,
        StorageError,
    >)
        ensures
            reports(result, get_container_info_result(bucket@, crate::backend::model(reply))),
    {
        match reply {
            Ok(()) => Ok(ContainerMetadata { created_at: 0 }),
            Err(error) => Err(surface(Call::HeadBucket, bucket, None, error)),
        }
    }

    /// Whether the container is gone after the answer to its deletion.
    pub fn delete_container(bucket: &str, reply: Result<(), BackendError>) -> (result: Result<
        (),
        StorageError,
    >)
        ensures
            reports(result, delete_container_result(bucket@, crate::backend::model(reply))),
    {
        match reply {
            Ok(()) => Ok(()),
            Err(error) => Err(surface(Call::DeleteBucket, bucket, None, error)),
        }
    }

    /// Whether the object `src_key` of `src_bucket` was copied, from the
    /// answer to the copy.
    pub fn copy_object(src_bucket: &str, src_key: &str, reply: Result<(), BackendError>) -> (result:
        Result<(), StorageError>)
        ensures
            reports(
                result,
                copy_object_result(src_bucket@, src_key@, crate::backend::model(reply)),
            ),
    {
        match reply {
            Ok(()) => Ok(()),
            Err(error) => Err(surface(Call::CopyObject, src_bucket, Some(src_key), error)),
        }
    }

    /// Whether the object is gone after the answer to its deletion.
    pub fn delete_object(container: &str, object: &str, reply: Result<(), BackendError>) -> (result:
        Result<(), StorageError>)
        ensures
            reports(
                result,
                delete_object_result(container@, object@, crate::backend::model(reply)),
            ),
    {
        match reply {
            Ok(()) => Ok(()),
            Err(error) => Err(surface(Call::DeleteObject, container, Some(object), error)),
        }
    }

    /// Whether the object exists, from the answer to its probe.
    pub fn has_object(bucket: &str, key: &str, reply: Result<Option<i64>, BackendError>) -> (result:
        Result<bool, StorageError>)
        ensures
            reports(result, has_object_result(bucket@, key@, crate::backend::model(reply))),
    {
        match reply {
            Ok(_) => Ok(true),
            Err(BackendError::NotFound) => Ok(false),
            Err(error) => Err(surface(Call::HeadObject, bucket, Some(key), error)),
        }
    }

    /// The metadata of the object, from the answer to its probe.
    pub fn get_object_info(
        bucket: &str,
        key: &str,
        reply: Result<Option<i64>, BackendError>,
    ) -> (result: Result<ObjectMetadata, StorageError>)
        ensures
            reports(result, get_object_info_result(bucket@, key@, crate::backend::model(reply))),
    {
        match reply {
            Ok(content_length) => {
                let size: u64 = match content_length {
                    Some(length) => if length >= 0 {
                        length as u64
                    } else {
                        0
                    },
                    None => 0,
                };
                Ok(ObjectMetadata { created_at: 0, size })
            },
            Err(error) => Err(surface(Call::HeadObject, bucket, Some(key), error)),
        }
    }
}

/// The most keys to ask the backend for when the caller wants at most
/// `limit` names: `limit` itself, or the largest number the backend takes
/// where `limit` is above it; nothing where the caller sets no limit.
pub open spec fn max_keys(limit: Option<u64>) -> Option<i32> {
    match limit {
        Some(limit) => Some(
            if limit <= i32::MAX as u64 {
                limit as i32
            } else {
                i32::MAX
            },
        ),
        None => None,
    }
}

/// The keys of the objects of a page, in order; an object without a key is
/// passed over.
pub open spec fn keys_of(items: Seq<Option<Seq<char>>>) -> Seq<Seq<char>>
    decreases items.len(),
{
    if items.len() == 0 {
        Seq::empty()
    } else {
        let before = keys_of(items.drop_last());
        match items.last() {
            Some(key) => before.push(key),
            None => before,
        }
    }
}

/// The keys of a page that may have been left out.
pub open spec fn page_keys(contents: Option<Seq<Option<Seq<char>>>>) -> Seq<Seq<char>> {
    match contents {
        Some(items) => keys_of(items),
        None => Seq::empty(),
    }
}

/// Where the names that are returned begin among `count` names: behind the
/// first `offset` of them.
pub open spec fn window_start(count: nat, offset: Option<u64>) -> int {
    match offset {
        Some(offset) => if offset < count {
            offset as int
        } else {
            count as int
        },
        None => 0,
    }
}

/// How many of the `available` names behind the offset are returned: all of
/// them, or the first `limit`.
pub open spec fn window_len(available: int, limit: Option<u64>) -> int {
    match limit {
        Some(limit) => if limit < available {
            limit as int
        } else {
            available
        },
        None => available,
    }
}

/// `names` without the first `offset` of them, and of the rest at most
/// `limit`.
pub open spec fn window(names: Seq<Seq<char>>, limit: Option<u64>, offset: Option<u64>) -> Seq<
    Seq<char>,
> {
    let start = window_start(names.len(), offset);
    names.subrange(start, start + window_len(names.len() - start, limit))
}

/// The listing answered: the keys of the page, windowed by `offset` and
/// `limit`.
pub open spec fn list_container_objects_result(
    bucket: Seq<char>,
    reply: Result<Option<Seq<Option<Seq<char>>>>, BackendErrorModel>,
    limit: Option<u64>,
    offset: Option<u64>,
) -> Result<Seq<Seq<char>>, StorageErrorModel> {
    match reply {
        Ok(contents) => Ok(window(page_keys(contents), limit, offset)),
        Err(error) => Err(surfaced(Call::ListObjects, bucket, None, error)),
    }
}

/// The source of a copy as the backend wants it: container, `/`, key.
pub open spec fn copy_source(bucket: Seq<char>, key: Seq<char>) -> Seq<char> {
    bucket + "/"@ + key
}

/// The HTTP range that is asked for to read from `start` to `end`.
pub open spec fn byte_range(start: u64, end: u64) -> Seq<char> {
    "bytes="@ + decimal(start as nat) + "-"@ + decimal(end as nat)
}

fn collect_keys(items: &Vec<Option<String>>) -> (keys: Vec<String>)
    ensures
        keys.deep_view() == keys_of(items.deep_view()),
{
    let mut keys: Vec<String> = Vec::new();
    let mut i: usize = 0;
    assert(items.deep_view().take(0) =~= Seq::<Option<Seq<char>>>::empty());
    assert(keys.deep_view() =~= Seq::<Seq<char>>::empty());
    while i < items.len()
        invariant
            i <= items.len(),
            keys.deep_view() == keys_of(items.deep_view().take(i as int)),
        decreases items.len() - i,
    {
        let ghost before = keys.deep_view();
        proof {
            let upto = items.deep_view().take(i + 1);
            assert(upto.drop_last() =~= items.deep_view().take(i as int));
            assert(upto.last() == items@[i as int].deep_view());
        }
        match &items[i] {
            Some(key) => {
                keys.push(key.clone());
                assert(keys.deep_view() =~= before.push(key@));
            },
            None => {},
        }
        i += 1;
    }
    assert(items.deep_view().take(i as int) =~= items.deep_view());
    keys
}

impl StorageClient {
    /// The request that lists the objects of `bucket` for a caller who wants
    /// at most `limit` names.
    pub fn list_container_objects_request(bucket: &str, limit: Option<u64>) -> (request: Request)
        ensures
            request@ == (RequestModel::ListObjects { bucket: bucket@, max_keys: max_keys(limit) }),
    {
        let max_keys: Option<i32> = match limit {
            Some(limit) => Some(
                if limit <= i32::MAX as u64 {
                    limit as i32
                } else {
                    i32::MAX
                },
            ),
            None => None,
        };
        Request::ListObjects { bucket: String::from_str(bucket), max_keys }
    }

    /// The names of the objects of the container, from the answer to the
    /// listing: the keys of the page in the backend's order, without the
    /// first `offset` of them and at most `limit` of the rest.
    pub fn list_container_objects(
        bucket: &str,
        reply: Result<Option<Vec<Option<String>>>, BackendError>,
        limit: Option<u64>,
        offset: Option<u64>,
    ) -> (result: Result<Vec<String>, StorageError>)
        ensures
            match list_container_objects_result(
                bucket@,
                match reply {
                    Ok(contents) => Ok(contents.deep_view()),
                    Err(error) => Err(error@),
                },
                limit,
                offset,
            ) {
                Ok(names) => result is Ok && result->Ok_0.deep_view() == names,
                Err(failure) => result is Err && result->Err_0@ == failure,
            },
    {
        match reply {
            Ok(contents) => {
                let keys = match &contents {
                    Some(items) => collect_keys(items),
                    None => Vec::new(),
                };
                assert(keys.deep_view() =~= page_keys(contents.deep_view()));
                let count = keys.len();
                let start: usize = match offset {
                    Some(offset) => if offset < count as u64 {
                        offset as usize
                    } else {
                        count
                    },
                    None => 0,
                };
                let available = count - start;
                let len: usize = match limit {
                    Some(limit) => if limit < available as u64 {
                        limit as usize
                    } else {
                        available
                    },
                    None => available,
                };
                let mut names: Vec<String> = Vec::new();
                let mut i: usize = 0;
                assert(names.deep_view() =~= keys.deep_view().subrange(start as int, start as int));
                while i < len
                    invariant
                        i <= len,
                        start + len <= keys.len(),
                        names.deep_view() == keys.deep_view().subrange(
                            start as int,
                            start + i as int,
                        ),
                    decreases len - i,
                {
                    let ghost before = names.deep_view();
                    names.push(keys[start + i].clone());
                    assert(names.deep_view() =~= before.push(keys@[start + i]@));
                    assert(names.deep_view() =~= keys.deep_view().subrange(
                        start as int,
                        start + i + 1,
                    ));
                    i += 1;
                }
                Ok(names)
            },
            Err(error) => Err(surface(Call::ListObjects, bucket, None, error)),
        }
    }

    /// The request that copies the object `src_key` of `src_bucket` to
    /// `dest_key` of `dest_bucket`.
    pub fn copy_object_request(
        src_bucket: &str,
        src_key: &str,
        dest_bucket: &str,
        dest_key: &str,
    ) -> (request: Request)
        ensures
            request@ == (RequestModel::CopyObject {
                copy_source: copy_source(src_bucket@, src_key@),
                bucket: dest_bucket@,
                key: dest_key@,
            }),
    {
        let mut source = String::from_str(src_bucket);
        source.append("/");
        source.append(src_key);
        Request::CopyObject {
            copy_source: source,
            bucket: String::from_str(dest_bucket),
            key: String::from_str(dest_key),
        }
    }

    /// The request that deletes `objects` from `container`, or `None` where
    /// there is nothing to delete and so nothing to ask.
    pub fn delete_objects_request(container: &str, objects: Vec<String>) -> (request: Option<
        Request,
    >)
        ensures
            objects@.len() == 0 <==> request is None,
            request matches Some(r) ==> r@ == (RequestModel::DeleteObjects {
                bucket: container@,
                keys: objects.deep_view(),
            }),
    {
        if objects.len() == 0 {
            None
        } else {
            Some(Request::DeleteObjects { bucket: String::from_str(container), keys: objects })
        }
    }

    /// Whether all objects are gone after the answer to a bulk delete: a
    /// delete that left objects behind fails as a whole, with their keys.
    pub fn delete_objects(
        container: &str,
        reply: Result<Vec<Option<String>>, BackendError>,
    ) -> (result: Result<(), StorageError>)
        ensures
            reports(
                result,
                delete_objects_result(
                    container@,
                    match reply {
                        Ok(failed) => Ok(failed.deep_view()),
                        Err(error) => Err(error@),
                    },
                ),
            ),
    {
        match reply {
            Ok(failed) => if failed.len() == 0 {
                assert(failed.deep_view().len() == 0);
                Ok(())
            } else {
                assert(failed.deep_view().len() != 0);
                Err(StorageError::PartialFailure { keys: collect_keys(&failed) })
            },
            Err(error) => Err(surface(Call::DeleteObjects, container, None, error)),
        }
    }

    /// The request that reads the object `key` of `bucket` from `start` to
    /// `end`.
    pub fn get_object_request(bucket: &str, key: &str, start: u64, end: u64) -> (request: Request)
        ensures
            request@ == (RequestModel::GetObject {
                bucket: bucket@,
                key: key@,
                range: byte_range(start, end),
            }),
    {
        let mut range = String::from_str("bytes=");
        push_decimal(&mut range, start);
        range.append("-");
        push_decimal(&mut range, end);
        Request::GetObject { bucket: String::from_str(bucket), key: String::from_str(key), range }
    }

    /// Whether the body of the object is at hand, from the answer to its
    /// opening.
    pub fn get_object(bucket: &str, key: &str, reply: Result<(), BackendError>) -> (result: Result<
        (),
        StorageError,
    >)
        ensures
            reports(result, get_object_result(bucket@, key@, crate::backend::model(reply))),
    {
        match reply {
            Ok(()) => Ok(()),
            Err(error) => Err(surface(Call::GetObject, bucket, Some(key), error)),
        }
    }

    /// The request that writes `body` as the object `key` of `bucket`, in one
    /// piece.
    pub fn put_object_request(bucket: &str, key: &str, body: Bytes) -> (request: Request)
        ensures
            request@ == (RequestModel::PutObject {
                bucket: bucket@,
                key: key@,
                body: shared_bytes(body),
            }),
    {
        Request::PutObject { bucket: String::from_str(bucket), key: String::from_str(key), body }
    }

    /// Whether the object is written, from the answer to its writing.
    pub fn put_object(bucket: &str, key: &str, reply: Result<(), BackendError>) -> (result: Result<
        (),
        StorageError,
    >)
        ensures
            reports(result, put_object_result(bucket@, key@, crate::backend::model(reply))),
    {
        match reply {
            Ok(()) => Ok(()),
            Err(error) => Err(surface(Call::PutObject, bucket, Some(key), error)),
        }
    }
}

} // verus!
