//! What holds of every course that an operation can take.

use crate::alias::resolve;
use crate::backend::{BackendErrorModel, ReplyModel, RequestModel};
use crate::client::byte_range;
use crate::error::StorageErrorModel;
use crate::operation::{
    failed, planned, refusal, resumed, started, succeeded, Links, ObjectIdModel, OperationModel,
    PayloadModel, PendingModel, StepModel,
};
use vstd::prelude::*;

verus! {

/// Where an operation stands after `replies` have come in, one for each
/// request, starting from `step`. An operation that is over stays over: what
/// comes in later changes nothing.
pub open spec fn course(step: StepModel, replies: Seq<ReplyModel>) -> StepModel
    decreases replies.len(),
{
    if replies.len() == 0 {
        step
    } else {
        match step {
            StepModel::Call { pending, .. } => course(
                resumed(pending, replies[0]),
                replies.drop_first(),
            ),
            StepModel::Finish { .. } => step,
        }
    }
}

/// The most requests that can still follow the one that `pending` waits for.
pub open spec fn requests_ahead(pending: PendingModel) -> nat {
    match pending {
        PendingModel::ClearList { .. } => 1,
        PendingModel::MoveCopy { .. } => 1,
        _ => 0,
    }
}

/// An invocation of a caller without a link fails as that of an unknown link,
/// whatever the operation, as soon as the caller is looked at: that is,
/// unless the operation is refused beforehand.
pub proof fn lemma_unknown_link_fails(
    links: Links,
    source_id: Option<Seq<char>>,
    operation: OperationModel,
)
    requires
        source_id matches Some(id) ==> !links.contains_key(id),
        refusal(operation) is None,
    ensures
        started(links, source_id, operation) == failed(
            StorageErrorModel::UnknownLink { source_id },
        ),
{
}

/// Once a caller's link is dropped, its invocations fail as those of an
/// unknown link, and those of every other caller go on as before.
pub proof fn lemma_dropped_link_is_unknown(
    links: Links,
    dropped: Seq<char>,
    source_id: Seq<char>,
    operation: OperationModel,
)
    requires
        refusal(operation) is None,
    ensures
        source_id == dropped ==> started(links.remove(dropped), Some(source_id), operation)
            == failed(StorageErrorModel::UnknownLink { source_id: Some(source_id) }),
        source_id != dropped ==> started(links.remove(dropped), Some(source_id), operation)
            == started(links, Some(source_id), operation),
{
}

/// A link that is made anew replaces the one the caller had: the caller's
/// invocations go by the new aliases alone, and those of every other caller
/// go on as before.
pub proof fn lemma_new_link_replaces_old(
    links: Links,
    linked: Seq<char>,
    aliases: Map<Seq<char>, Seq<char>>,
    source_id: Seq<char>,
    operation: OperationModel,
)
    requires
        refusal(operation) is None,
    ensures
        source_id == linked ==> started(links.insert(linked, aliases), Some(source_id), operation)
            == planned(aliases, operation),
        source_id != linked ==> started(links.insert(linked, aliases), Some(source_id), operation)
            == started(links, Some(source_id), operation),
{
}

/// Deleting no objects succeeds at once and asks nothing of the backend.
pub proof fn lemma_deleting_nothing_succeeds(
    links: Links,
    source_id: Seq<char>,
    container: Seq<char>,
)
    requires
        links.contains_key(source_id),
    ensures
        started(
            links,
            Some(source_id),
            OperationModel::DeleteObjects { container, objects: Seq::empty() },
        ) == succeeded(PayloadModel::Done),
{
}

/// Clearing a container that turns out to hold nothing succeeds with the
/// listing and sends no delete.
pub proof fn lemma_clearing_empty_container_succeeds(bucket: Seq<char>)
    ensures
        resumed(PendingModel::ClearList { bucket }, ReplyModel::Listing { contents: None })
            == succeeded(PayloadModel::Done),
        resumed(
            PendingModel::ClearList { bucket },
            ReplyModel::Listing { contents: Some(Seq::empty()) },
        ) == succeeded(PayloadModel::Done),
{
    let none: Seq<Seq<char>> = Seq::empty();
    assert(none.subrange(0, 0) =~= none);
    assert(crate::client::window(none, None, None) == none);
    assert(crate::client::keys_of(Seq::empty()) == none);
}

/// A byte range whose end is not above its start is refused for every
/// caller, with or without a link, and nothing is asked of the backend.
pub proof fn lemma_reversed_range_refused(
    links: Links,
    source_id: Option<Seq<char>>,
    id: ObjectIdModel,
    start: u64,
    end: u64,
)
    requires
        end <= start,
    ensures
        started(links, source_id, OperationModel::GetContainerData { id, start, end }) == failed(
            StorageErrorModel::Range { start, end },
        ),
{
}

/// Inbound data that did not arrive in full ends a write for every caller,
/// with or without a link, with the error of the stream, and nothing is
/// asked of the backend.
pub proof fn lemma_unreceived_data_refused(
    links: Links,
    source_id: Option<Seq<char>>,
    id: ObjectIdModel,
    message: Seq<char>,
)
    ensures
        started(
            links,
            source_id,
            OperationModel::WriteContainerData { id, data: Err(message) },
        ) == failed(StorageErrorModel::Channel { message }),
{
}

/// Creating a container that exists already and belongs to the caller
/// succeeds, as does creating one that did not exist.
pub proof fn lemma_create_is_idempotent(bucket: Seq<char>)
    ensures
        resumed(PendingModel::CreateContainer { bucket }, ReplyModel::Done) == succeeded(
            PayloadModel::Done,
        ),
        resumed(
            PendingModel::CreateContainer { bucket },
            ReplyModel::Failed(BackendErrorModel::AlreadyOwned),
        ) == succeeded(PayloadModel::Done),
{
}

/// A probe that finds nothing tells that the container or object does not
/// exist, while a request for its metadata fails.
pub proof fn lemma_absent_is_false_or_failure(bucket: Seq<char>, key: Seq<char>)
    ensures
        resumed(
            PendingModel::ContainerExists { bucket },
            ReplyModel::Failed(BackendErrorModel::NotFound),
        ) == succeeded(PayloadModel::Exists(false)),
        resumed(
            PendingModel::HasObject { bucket, key },
            ReplyModel::Failed(BackendErrorModel::NotFound),
        ) == succeeded(PayloadModel::Exists(false)),
        resumed(
            PendingModel::GetContainerInfo { bucket },
            ReplyModel::Failed(BackendErrorModel::NotFound),
        ) == failed(StorageErrorModel::NotFound { bucket, key: None }),
        resumed(
            PendingModel::GetObjectInfo { bucket, key },
            ReplyModel::Failed(BackendErrorModel::NotFound),
        ) == failed(StorageErrorModel::NotFound { bucket, key: Some(key) }),
{
}

/// A call that the backend fails is not tried again: whatever request was
/// under way and however it failed, the operation ends with that reply.
pub proof fn lemma_failed_call_ends_operation(pending: PendingModel, error: BackendErrorModel)
    ensures
        resumed(pending, ReplyModel::Failed(error)) is Finish,
{
}

/// Each reply brings an operation nearer to its end: the request that
/// follows a reply, if one follows, has fewer requests ahead of it.
pub proof fn lemma_reply_brings_end_nearer(pending: PendingModel, reply: ReplyModel)
    ensures
        match resumed(pending, reply) {
            StepModel::Call { pending: next, .. } => requests_ahead(next) < requests_ahead(
                pending,
            ),
            StepModel::Finish { .. } => true,
        },
{
}

/// The first request of an operation is followed by one more at most.
pub proof fn lemma_first_request_nearly_last(
    links: Links,
    source_id: Option<Seq<char>>,
    operation: OperationModel,
)
    ensures
        started(links, source_id, operation) matches StepModel::Call { pending, .. }
            ==> requests_ahead(pending) <= 1,
{
}

/// Every invocation has exactly one outcome. Whatever the backend replies, an
/// operation is over after two replies at the latest, and once it is over
/// its outcome stands, whatever else comes in.
pub proof fn lemma_one_outcome(
    links: Links,
    source_id: Option<Seq<char>>,
    operation: OperationModel,
    replies: Seq<ReplyModel>,
    later: Seq<ReplyModel>,
)
    requires
        replies.len() >= 2,
    ensures
        course(started(links, source_id, operation), replies) is Finish,
        course(started(links, source_id, operation), replies + later) == course(
            started(links, source_id, operation),
            replies,
        ),
{
    let first = started(links, source_id, operation);
    lemma_first_request_nearly_last(links, source_id, operation);
    lemma_course_ends(first, replies);
    lemma_course_extends(first, replies, later);
    lemma_over_stays_over(course(first, replies), later);
}

/// A course is over once as many replies have come in as requests were
/// ahead, and one more.
pub proof fn lemma_course_ends(step: StepModel, replies: Seq<ReplyModel>)
    requires
        step matches StepModel::Call { pending, .. } ==> requests_ahead(pending) < replies.len(),
    ensures
        course(step, replies) is Finish,
    decreases replies.len(),
{
    match step {
        StepModel::Call { pending, .. } => {
            lemma_reply_brings_end_nearer(pending, replies[0]);
            lemma_course_ends(resumed(pending, replies[0]), replies.drop_first());
        },
        StepModel::Finish { .. } => {},
    }
}

/// An operation that is over stays over.
pub proof fn lemma_over_stays_over(step: StepModel, replies: Seq<ReplyModel>)
    requires
        step is Finish,
    ensures
        course(step, replies) == step,
{
}

/// Replies can be fed one batch after the other.
pub proof fn lemma_course_extends(
    step: StepModel,
    replies: Seq<ReplyModel>,
    later: Seq<ReplyModel>,
)
    ensures
        course(step, replies + later) == course(course(step, replies), later),
    decreases replies.len(),
{
    if replies.len() == 0 {
        assert(replies + later =~= later);
    } else {
        let all = replies + later;
        assert(all[0] == replies[0]);
        assert(all.drop_first() =~= replies.drop_first() + later);
        match step {
            StepModel::Call { pending, .. } => {
                lemma_course_extends(
                    resumed(pending, replies[0]),
                    replies.drop_first(),
                    later,
                );
            },
            StepModel::Finish { .. } => {
                lemma_over_stays_over(step, later);
            },
        }
    }
}

/// A move whose copy fails deletes nothing, and a move whose copy succeeds
/// deletes the source and nothing else. If that deletion fails the move
/// fails with it, and the copy is left where it is: no request follows.
pub proof fn lemma_move_copies_then_deletes(
    bucket: Seq<char>,
    key: Seq<char>,
    error: BackendErrorModel,
)
    ensures
        resumed(PendingModel::MoveCopy { bucket, key }, ReplyModel::Failed(error)) is Finish,
        resumed(PendingModel::MoveCopy { bucket, key }, ReplyModel::Done) == (StepModel::Call {
            request: RequestModel::DeleteObject { bucket, key },
            pending: PendingModel::MoveDelete { bucket, key },
        }),
        resumed(PendingModel::MoveDelete { bucket, key }, ReplyModel::Failed(error)) matches StepModel::Finish {
            outcome,
        } && outcome is Err,
{
}

/// What is written under a name is what a read of the same name asks for, in
/// full: for the same caller the two operations address the same object of
/// the same physical container, the write hands over exactly `bytes`, and the
/// read of the range from 0 to their number asks for that range and lets as
/// many bytes through as were written. The object must not be empty, since
/// a range from 0 to 0 is refused.
pub proof fn lemma_read_asks_for_what_was_written(
    links: Links,
    source_id: Seq<char>,
    id: ObjectIdModel,
    bytes: Seq<u8>,
)
    requires
        links.contains_key(source_id),
        0 < bytes.len() <= u64::MAX,
    ensures
        ({
            let bucket = resolve(links[source_id], id.container);
            let length = bytes.len() as u64;
            &&& started(
                links,
                Some(source_id),
                OperationModel::WriteContainerData { id, data: Ok(bytes) },
            ) == (StepModel::Call {
                request: RequestModel::PutObject { bucket, key: id.object, body: bytes },
                pending: PendingModel::WriteContainerData { bucket, key: id.object },
            })
            &&& resumed(
                PendingModel::WriteContainerData { bucket, key: id.object },
                ReplyModel::Done,
            ) == succeeded(PayloadModel::Done)
            &&& started(
                links,
                Some(source_id),
                OperationModel::GetContainerData { id, start: 0, end: length },
            ) == (StepModel::Call {
                request: RequestModel::GetObject {
                    bucket,
                    key: id.object,
                    range: byte_range(0, length),
                },
                pending: PendingModel::GetContainerData { bucket, key: id.object, wanted: length },
            })
            &&& resumed(
                PendingModel::GetContainerData { bucket, key: id.object, wanted: length },
                ReplyModel::Body,
            ) == succeeded(PayloadModel::Data { limit: length })
        }),
{
}

} // verus!
