use provider_blobstore_s3::dispatch::{Action, Arrival, Event, Phase, ServeError};
use provider_blobstore_s3::kind::{OperationKind, OPERATION_COUNT};
use provider_blobstore_s3::provider::BlobstoreS3Provider;

const ORDER: [OperationKind; 14] = [
    OperationKind::ClearContainer,
    OperationKind::ContainerExists,
    OperationKind::CreateContainer,
    OperationKind::DeleteContainer,
    OperationKind::GetContainerInfo,
    OperationKind::ListContainerObjects,
    OperationKind::CopyObject,
    OperationKind::DeleteObject,
    OperationKind::DeleteObjects,
    OperationKind::GetContainerData,
    OperationKind::GetObjectInfo,
    OperationKind::HasObject,
    OperationKind::MoveObject,
    OperationKind::WriteContainerData,
];

fn arrived(kind: OperationKind, arrival: Arrival) -> Event {
    Event::Arrived { kind, arrival }
}

fn subscribe_all(mut phase: Phase, mut action: Action) -> (Phase, Action) {
    for kind in ORDER {
        assert_eq!(phase, Phase::Subscribing { next: kind });
        assert_eq!(action, Action::Subscribe(kind));
        (phase, action) = BlobstoreS3Provider::serve(phase, Event::Subscribed);
    }
    (phase, action)
}

#[test]
fn kinds_are_numbered_in_order() {
    assert_eq!(OPERATION_COUNT, 14);
    assert_eq!(OperationKind::first(), OperationKind::ClearContainer);
    for (i, kind) in ORDER.iter().enumerate() {
        assert_eq!(kind.position(), i);
        assert_eq!(OperationKind::from_position(i), Some(*kind));
        assert_eq!(kind.successor(), ORDER.get(i + 1).copied());
    }
    assert_eq!(OperationKind::from_position(14), None);
    assert_eq!(OperationKind::from_position(usize::MAX), None);
}

#[test]
fn kinds_have_their_wire_names() {
    let names: Vec<&str> = ORDER.iter().map(|kind| kind.name()).collect();
    assert_eq!(
        names,
        vec![
            "clear-container",
            "container-exists",
            "create-container",
            "delete-container",
            "get-container-info",
            "list-container-objects",
            "copy-object",
            "delete-object",
            "delete-objects",
            "get-container-data",
            "get-object-info",
            "has-object",
            "move-object",
            "write-container-data",
        ]
    );
}

#[test]
fn serving_starts_with_the_first_subscription() {
    let (phase, action) = BlobstoreS3Provider::start();
    assert_eq!(phase, Phase::Subscribing { next: OperationKind::ClearContainer });
    assert_eq!(action, Action::Subscribe(OperationKind::ClearContainer));
}

#[test]
fn all_channels_are_established_before_serving() {
    let (phase, action) = BlobstoreS3Provider::start();
    let (phase, action) = subscribe_all(phase, action);
    assert_eq!(phase, Phase::Serving);
    assert_eq!(action, Action::Await);
}

#[test]
fn failed_subscription_ends_serving_with_its_kind() {
    let (mut phase, mut action) = BlobstoreS3Provider::start();
    for _ in 0..5 {
        (phase, action) = BlobstoreS3Provider::serve(phase, Event::Subscribed);
    }
    assert_eq!(action, Action::Subscribe(OperationKind::ListContainerObjects));
    let (phase, action) = BlobstoreS3Provider::serve(phase, Event::SubscribeFailed);
    let error = ServeError::Subscribe { kind: OperationKind::ListContainerObjects };
    assert_eq!(phase, Phase::Stopped { result: Err(error) });
    assert_eq!(action, Action::Return(Err(error)));
    assert_eq!(
        error.describe(),
        "failed to serve `wrpc:blobstore/blobstore.list-container-objects` invocations"
    );
}

#[test]
fn first_subscription_failure_is_reported() {
    let (phase, _) = BlobstoreS3Provider::start();
    let (_, action) = BlobstoreS3Provider::serve(phase, Event::SubscribeFailed);
    let error = ServeError::Subscribe { kind: OperationKind::ClearContainer };
    assert_eq!(action, Action::Return(Err(error)));
    assert_eq!(
        error.describe(),
        "failed to serve `wrpc:blobstore/blobstore.clear-container` invocations"
    );
}

#[test]
fn invocation_spawns_its_handler() {
    for kind in ORDER {
        let (phase, action) =
            BlobstoreS3Provider::serve(Phase::Serving, arrived(kind, Arrival::Invocation));
        assert_eq!(phase, Phase::Serving);
        assert_eq!(action, Action::Spawn(kind));
    }
}

#[test]
fn transport_error_is_reported_and_serving_goes_on() {
    for kind in ORDER {
        let (phase, action) =
            BlobstoreS3Provider::serve(Phase::Serving, arrived(kind, Arrival::TransportError));
        assert_eq!(phase, Phase::Serving);
        assert_eq!(action, Action::Report(kind));
    }
}

#[test]
fn exhausted_channel_resubscribes_all() {
    for kind in ORDER {
        let (phase, action) =
            BlobstoreS3Provider::serve(Phase::Serving, arrived(kind, Arrival::Exhausted));
        assert_eq!(phase, Phase::Subscribing { next: OperationKind::ClearContainer });
        assert_eq!(action, Action::Subscribe(OperationKind::ClearContainer));
        let (phase, action) = subscribe_all(phase, action);
        assert_eq!(phase, Phase::Serving);
        assert_eq!(action, Action::Await);
    }
}

#[test]
fn shutdown_returns_success() {
    let (phase, action) = BlobstoreS3Provider::serve(Phase::Serving, Event::Shutdown);
    assert_eq!(phase, Phase::Stopped { result: Ok(()) });
    assert_eq!(action, Action::Return(Ok(())));
    let subscribing = Phase::Subscribing { next: OperationKind::HasObject };
    let (phase, action) = BlobstoreS3Provider::serve(subscribing, Event::Shutdown);
    assert_eq!(phase, Phase::Stopped { result: Ok(()) });
    assert_eq!(action, Action::Return(Ok(())));
}

#[test]
fn stopped_dispatcher_stays_stopped() {
    let stopped = [
        Phase::Stopped { result: Ok(()) },
        Phase::Stopped { result: Err(ServeError::Subscribe { kind: OperationKind::MoveObject }) },
    ];
    let events = [
        Event::Subscribed,
        Event::SubscribeFailed,
        Event::Shutdown,
        arrived(OperationKind::CopyObject, Arrival::Invocation),
        arrived(OperationKind::CopyObject, Arrival::Exhausted),
    ];
    for phase in stopped {
        for event in events {
            let (next, action) = BlobstoreS3Provider::serve(phase, event);
            assert_eq!(next, phase);
            match phase {
                Phase::Stopped { result } => assert_eq!(action, Action::Return(result)),
                _ => unreachable!(),
            }
        }
    }
}

#[test]
fn events_out_of_place_change_nothing() {
    let subscribing = Phase::Subscribing { next: OperationKind::DeleteObject };
    let (phase, action) = BlobstoreS3Provider::serve(
        subscribing,
        arrived(OperationKind::CopyObject, Arrival::Invocation),
    );
    assert_eq!(phase, subscribing);
    assert_eq!(action, Action::Subscribe(OperationKind::DeleteObject));
    let (phase, action) = BlobstoreS3Provider::serve(Phase::Serving, Event::Subscribed);
    assert_eq!(phase, Phase::Serving);
    assert_eq!(action, Action::Await);
    let (phase, action) = BlobstoreS3Provider::serve(Phase::Serving, Event::SubscribeFailed);
    assert_eq!(phase, Phase::Serving);
    assert_eq!(action, Action::Await);
}

#[test]
fn invocations_are_spawned_once_across_resubscription() {
    let mut events = vec![
        arrived(OperationKind::HasObject, Arrival::Invocation),
        arrived(OperationKind::CopyObject, Arrival::TransportError),
        arrived(OperationKind::GetContainerData, Arrival::Invocation),
        arrived(OperationKind::ContainerExists, Arrival::Exhausted),
    ];
    for _ in 0..14 {
        events.push(Event::Subscribed);
    }
    events.push(arrived(OperationKind::ContainerExists, Arrival::Invocation));
    events.push(arrived(OperationKind::HasObject, Arrival::Invocation));
    events.push(Event::Shutdown);
    events.push(arrived(OperationKind::HasObject, Arrival::Invocation));

    let mut phase = Phase::Serving;
    let mut spawned = Vec::new();
    for event in events {
        let (next, action) = BlobstoreS3Provider::serve(phase, event);
        if let Action::Spawn(kind) = action {
            spawned.push(kind);
        }
        phase = next;
    }
    assert_eq!(
        spawned,
        vec![
            OperationKind::HasObject,
            OperationKind::GetContainerData,
            OperationKind::ContainerExists,
            OperationKind::HasObject,
        ]
    );
    assert_eq!(phase, Phase::Stopped { result: Ok(()) });
}
