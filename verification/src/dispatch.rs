//! The invocation dispatcher as a transition function.
//!
//! The dispatcher holds one inbound channel per operation kind. It first
//! establishes all of them, in the order of [`OperationKind::all`], then waits
//! on all of them and on the shutdown signal at once. The program around the
//! library owns the channels and does the waiting; after each thing that
//! happens it asks [`BlobstoreS3Provider::serve`] what to do next.

use crate::kind::OperationKind;
use crate::provider::BlobstoreS3Provider;
use vstd::prelude::*;
use vstd::string::StringExecFns;

verus! {

/// Why serving ended without a shutdown request.
#[derive(Clone, Copy, Debug, PartialEq, Eq)]
pub enum ServeError {
    /// The channel of `kind` could not be established.
    Subscribe { kind: OperationKind },
}

/// What the dispatcher is doing.
#[derive(Clone, Copy, Debug, PartialEq, Eq)]
pub enum Phase {
    /// Establishing the channels; that of `next` is the one being asked for,
    /// those before it are established.
    Subscribing { next: OperationKind },
    /// All channels are established and waited on.
    Serving,
    /// Serving has ended with `result`.
    Stopped { result: Result<(), ServeError> },
}

/// What the next item of a channel was.
#[derive(Clone, Copy, Debug, PartialEq, Eq)]
pub enum Arrival {
    /// A well-formed invocation.
    Invocation,
    /// A transport-level error in place of an invocation.
    TransportError,
    /// The channel has ended.
    Exhausted,
}

/// Something that happened outside and that the dispatcher reacts to.
#[derive(Clone, Copy, Debug, PartialEq, Eq)]
pub enum Event {
    /// The channel that was asked for is established.
    Subscribed,
    /// The channel that was asked for could not be established.
    SubscribeFailed,
    /// The channel of `kind` yielded its next item.
    Arrived { kind: OperationKind, arrival: Arrival },
    /// The shutdown signal resolved.
    Shutdown,
}

/// What the program around the dispatcher has to do next.
#[derive(Clone, Copy, Debug, PartialEq, Eq)]
pub enum Action {
    /// Establish the channel of this kind and report how that went.
    Subscribe(OperationKind),
    /// Wait on all channels and the shutdown signal.
    Await,
    /// Run the handler of this kind on the invocation that arrived, on a unit
    /// of execution of its own whose outcome is not awaited, and go on waiting.
    Spawn(OperationKind),
    /// Log the transport error that arrived on the channel of this kind, and
    /// go on waiting on the same channels.
    Report(OperationKind),
    /// Leave the service loop with this result.
    Return(Result<(), ServeError>),
}

/// The phase in which serving starts.
pub open spec fn initial_phase() -> Phase {
    Phase::Subscribing { next: OperationKind::first_spec() }
}

/// What the dispatcher asks for while it is in `phase` and nothing new has
/// happened.
pub open spec fn standing_action(phase: Phase) -> Action {
    match phase {
        Phase::Subscribing { next } => Action::Subscribe(next),
        Phase::Serving => Action::Await,
        Phase::Stopped { result } => Action::Return(result),
    }
}

/// The dispatcher's reaction to `event` in `phase`: the phase that follows
/// and the action to take.
///
/// - The shutdown signal ends serving with success, whatever is under way.
/// - While subscribing, each established channel leads to the next kind, the
///   last one to serving; a failure ends serving with the kind that failed.
/// - While serving, an invocation is handed to its handler; a transport error
///   is reported and changes nothing; an exhausted channel makes the
///   dispatcher establish all channels anew.
/// - An event that cannot occur in a phase changes nothing, and neither does
///   any event once serving has ended.
pub open spec fn transition(phase: Phase, event: Event) -> (Phase, Action) {
    match phase {
        Phase::Stopped { result } => (phase, Action::Return(result)),
        Phase::Subscribing { next } => match event {
            Event::Shutdown => (Phase::Stopped { result: Ok(()) }, Action::Return(Ok(()))),
            Event::Subscribed => match next.successor_spec() {
                Some(following) => (
                    Phase::Subscribing { next: following },
                    Action::Subscribe(following),
                ),
                None => (Phase::Serving, Action::Await),
            },
            Event::SubscribeFailed => {
                let result = Err(ServeError::Subscribe { kind: next });
                (Phase::Stopped { result }, Action::Return(result))
            },
            Event::Arrived { .. } => (phase, standing_action(phase)),
        },
        Phase::Serving => match event {
            Event::Shutdown => (Phase::Stopped { result: Ok(()) }, Action::Return(Ok(()))),
            Event::Arrived { kind, arrival } => match arrival {
                Arrival::Invocation => (Phase::Serving, Action::Spawn(kind)),
                Arrival::TransportError => (Phase::Serving, Action::Report(kind)),
                Arrival::Exhausted => (initial_phase(), standing_action(initial_phase())),
            },
            Event::Subscribed | Event::SubscribeFailed => (phase, standing_action(phase)),
        },
    }
}

impl ServeError {
    /// The text of the error.
    pub open spec fn describe_spec(self) -> Seq<char> {
        match self {
            ServeError::Subscribe { kind } => "failed to serve `wrpc:blobstore/blobstore."@
                + kind.name_spec() + "` invocations"@,
        }
    }

    /// The text of the error, naming the operation whose channel failed.
    pub fn describe(&self) -> (text: String)
        ensures
            text@ == self.describe_spec(),
    {
        match self {
            ServeError::Subscribe { kind } => {
                let mut text = String::from_str("failed to serve `wrpc:blobstore/blobstore.");
                text.append(kind.name());
                text.append("` invocations");
                text
            },
        }
    }
}

impl BlobstoreS3Provider {
    /// Where serving starts: the phase, and the first thing to do.
    pub fn start() -> (begin: (Phase, Action))
        ensures
            begin.0 == initial_phase(),
            begin.1 == standing_action(initial_phase()),
            begin.1 == Action::Subscribe(OperationKind::all()[0]),
    {
        let first = OperationKind::first();
        (Phase::Subscribing { next: first }, Action::Subscribe(first))
    }

    /// One step of the service loop: reacts to `event` in `phase` and tells
    /// the phase that follows and what to do next. See [`transition`].
    pub fn serve(phase: Phase, event: Event) -> (next: (Phase, Action))
        ensures
            next == transition(phase, event),
    {
        match phase {
            Phase::Stopped { result } => (phase, Action::Return(result)),
            Phase::Subscribing { next } => match event {
                Event::Shutdown => (Phase::Stopped { result: Ok(()) }, Action::Return(Ok(()))),
                Event::Subscribed => match next.successor() {
                    Some(following) => (
                        Phase::Subscribing { next: following },
                        Action::Subscribe(following),
                    ),
                    None => (Phase::Serving, Action::Await),
                },
                Event::SubscribeFailed => {
                    let result = Err(ServeError::Subscribe { kind: next });
                    (Phase::Stopped { result }, Action::Return(result))
                },
                Event::Arrived { .. } => (phase, Action::Subscribe(next)),
            },
            Phase::Serving => match event {
                Event::Shutdown => (Phase::Stopped { result: Ok(()) }, Action::Return(Ok(()))),
                Event::Arrived { kind, arrival } => match arrival {
                    Arrival::Invocation => (Phase::Serving, Action::Spawn(kind)),
                    Arrival::TransportError => (Phase::Serving, Action::Report(kind)),
                    Arrival::Exhausted => Self::start(),
                },
                Event::Subscribed => (phase, Action::Await),
                Event::SubscribeFailed => (phase, Action::Await),
            },
        }
    }
}

/// The phase after `events` have been handled one after the other, starting
/// in `phase`, and the actions taken, one for each event.
pub open spec fn run(phase: Phase, events: Seq<Event>) -> (Phase, Seq<Action>)
    decreases events.len(),
{
    if events.len() == 0 {
        (phase, Seq::empty())
    } else {
        let first = transition(phase, events[0]);
        let rest = run(first.0, events.drop_first());
        (rest.0, seq![first.1] + rest.1)
    }
}

/// The kinds of the handlers that `actions` start, in order.
pub open spec fn spawned(actions: Seq<Action>) -> Seq<OperationKind>
    decreases actions.len(),
{
    if actions.len() == 0 {
        Seq::empty()
    } else {
        let rest = spawned(actions.drop_first());
        match actions[0] {
            Action::Spawn(kind) => seq![kind] + rest,
            _ => rest,
        }
    }
}

/// The kinds of the invocations among `events` that arrive while the
/// dispatcher, started in `phase`, is serving, in order.
pub open spec fn delivered(phase: Phase, events: Seq<Event>) -> Seq<OperationKind>
    decreases events.len(),
{
    if events.len() == 0 {
        Seq::empty()
    } else {
        let rest = delivered(transition(phase, events[0]).0, events.drop_first());
        match (phase, events[0]) {
            (Phase::Serving, Event::Arrived { kind, arrival: Arrival::Invocation }) => seq![kind]
                + rest,
            _ => rest,
        }
    }
}

/// `n` times the event that a channel was established.
pub open spec fn established(n: nat) -> Seq<Event> {
    Seq::new(n, |i: int| Event::Subscribed)
}

/// The requests for the channels of the kinds at positions `from` and above.
pub open spec fn subscriptions(from: int) -> Seq<Action> {
    Seq::new(
        (OperationKind::all().len() - from) as nat,
        |i: int| Action::Subscribe(OperationKind::all()[from + i]),
    )
}

/// Every invocation that arrives while the dispatcher is serving starts
/// exactly one handler, of its own kind, and nothing else starts one: over any
/// sequence of events, with any number of channels ending and being
/// established anew in between, the handlers started are the invocations
/// delivered, in the same order.
pub proof fn lemma_invocations_spawned_once(phase: Phase, events: Seq<Event>)
    ensures
        spawned(run(phase, events).1) == delivered(phase, events),
    decreases events.len(),
{
    if events.len() == 0 {
    } else {
        let first = transition(phase, events[0]);
        let rest = run(first.0, events.drop_first());
        lemma_invocations_spawned_once(first.0, events.drop_first());
        let actions = seq![first.1] + rest.1;
        assert(actions.drop_first() =~= rest.1);
        assert(actions[0] == first.1);
    }
}

/// While the channels are being established and each request succeeds, the
/// dispatcher asks for the remaining kinds in order and then starts to serve.
pub proof fn lemma_subscription_round(next: OperationKind)
    ensures
        run(
            Phase::Subscribing { next },
            established((OperationKind::all().len() - next.index()) as nat),
        ) == (Phase::Serving, subscriptions(next.index() + 1) + seq![Action::Await]),
    decreases OperationKind::all().len() - next.index(),
{
    crate::kind::lemma_kinds_enumerated(next);
    let n = (OperationKind::all().len() - next.index()) as nat;
    let events = established(n);
    let phase = Phase::Subscribing { next };
    assert(events.len() == n && n > 0);
    assert(events[0] == Event::Subscribed);
    let first = transition(phase, events[0]);
    assert(events.drop_first() =~= established((n - 1) as nat));
    match next.successor_spec() {
        Some(following) => {
            assert(following.index() == next.index() + 1);
            lemma_subscription_round(following);
            let rest = run(first.0, events.drop_first());
            assert(rest.1 == subscriptions(following.index() + 1) + seq![Action::Await]);
            assert(seq![first.1] + rest.1 =~= subscriptions(next.index() + 1) + seq![
                Action::Await,
            ]);
        },
        None => {
            assert(n == 1);
            assert(run(first.0, events.drop_first()) == (first.0, Seq::<Action>::empty()));
            assert(seq![first.1] + Seq::<Action>::empty() =~= subscriptions(next.index() + 1)
                + seq![Action::Await]);
        },
    }
}

/// When a channel ends while the dispatcher is serving, all channels are
/// established anew, in order, and after the last one the dispatcher serves
/// again.
pub proof fn lemma_exhaustion_resubscribes_all(kind: OperationKind)
    ensures
        run(
            Phase::Serving,
            seq![Event::Arrived { kind, arrival: Arrival::Exhausted }] + established(
                OperationKind::all().len(),
            ),
        ) == (Phase::Serving, subscriptions(0) + seq![Action::Await]),
{
    let exhausted = Event::Arrived { kind, arrival: Arrival::Exhausted };
    let events = seq![exhausted] + established(OperationKind::all().len());
    assert(events[0] == exhausted);
    assert(events.drop_first() =~= established(OperationKind::all().len()));
    lemma_subscription_round(OperationKind::first_spec());
    let rest = run(initial_phase(), events.drop_first());
    assert(rest.1 == subscriptions(1) + seq![Action::Await]);
    assert(seq![Action::Subscribe(OperationKind::first_spec())] + rest.1 =~= subscriptions(0)
        + seq![Action::Await]);
}

} // verus!
