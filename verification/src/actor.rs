//! Async dispatch: push events into a [`Store`] from any task.
//!
//! [`init_actor_loop`] pairs a [`DispatchHandle`] (the sending side) with an
//! [`ActorLoop`] that owns the store and serializes every dispatch. The send
//! error types live here too.
//!
//! What awaits (waiting for channel capacity, waiting for the next event)
//! is driven from outside this module; the decisions taken on what came
//! back are here.

use crate::store::{lemma_same_pipeline_same_dispatch_all, DispatchError, Store};
use futures::channel::mpsc::{Receiver, Sender};
use std::fmt::Debug;
use vstd::prelude::*;

verus! {

#[verifier::external_type_specification]
#[verifier::external_body]
#[verifier::reject_recursive_types(T)]
pub struct ExSender<T>(Sender<T>);

#[verifier::external_type_specification]
#[verifier::external_body]
#[verifier::reject_recursive_types(T)]
pub struct ExReceiver<T>(Receiver<T>);

/// The largest channel buffer that `futures::channel::mpsc::channel`
/// accepts, plus one.
pub open spec fn max_buffer() -> nat {
    (usize::MAX as nat) / 4
}

/// Specifies `futures::channel::mpsc::channel(buffer)`, which creates a
/// bounded channel and returns its sending and receiving halves. It panics
/// unless `buffer` is below `usize::MAX >> 2`, which `requires` rules out.
/// Nothing is stated of the halves, whose channel is shared state.
pub assume_specification<T>[ futures::channel::mpsc::channel::<T> ](buffer: usize) -> (Sender<
    T,
>, Receiver<T>)
    requires
        buffer < max_buffer(),
;

/// Calls `Sender::try_send(event)` of `futures::channel::mpsc`. On failure
/// the error is converted to whether it is a disconnection
/// (`TrySendError::is_disconnected`) and the rejected message
/// (`TrySendError::into_inner`), which the source shows to be `event`.
/// Whether the send succeeds depends on the channel's state: nothing is
/// stated of it.
#[verifier::external_body]
fn sender_try_send<E>(sender: &mut Sender<E>, event: E) -> (result: Result<(), (bool, E)>)
    ensures
        result matches Err((_, rejected)) ==> rejected == event,
{
    match sender.try_send(event) {
        Ok(()) => Ok(()),
        Err(err) => Err((err.is_disconnected(), err.into_inner())),
    }
}

/// Specifies `Clone::clone` of `futures::channel::mpsc::Sender`: another
/// sender on the same channel. It panics once the channel has more senders
/// than its capacity bound less its buffer, a count that this library cannot
/// see: that case, and the channel the clone sends on, are left unstated.
pub assume_specification<T>[ <Sender<T> as Clone>::clone ](sender: &Sender<T>) -> Sender<T>;

/// Formats `prefix` followed by the `Debug` text of `event`, with
/// `format!`. The result begins with `prefix`; the `Debug` text is not
/// stated.
#[verifier::external_body]
fn rejected_message<E: Debug>(prefix: &str, event: &E) -> (message: String)
    ensures
        message@.len() >= prefix@.len(),
        message@.subrange(0, prefix@.len() as int) == prefix@,
{
    format!("{}{:?}", prefix, event)
}

/// The bounded channel had no spare capacity: transient, a later attempt
/// may succeed. Carries the rejected event ([`Self::into_inner`]).
///
/// Only [`DispatchHandle::try_dispatch`] fails this way.
#[derive(Debug)]
pub struct Full<E> {
    event: E,
}

impl<E> Full<E> {
    /// The rejected event.
    pub closed spec fn spec_event(&self) -> E {
        self.event
    }

    /// Recovers the rejected event.
    #[must_use]
    pub fn into_inner(self) -> (event: E)
        ensures
            event == self.spec_event(),
    {
        self.event
    }

    /// Describes the error: "Channel full, event rejected: " and the event.
    pub fn message(&self) -> (message: String) where E: Debug
        ensures
            message@.len() >= "Channel full, event rejected: "@.len(),
            message@.subrange(0, "Channel full, event rejected: "@.len() as int)
                == "Channel full, event rejected: "@,
    {
        rejected_message("Channel full, event rejected: ", &self.event)
    }
}

/// The store's actor loop is gone: permanent, the event was not sent and
/// never will be. Carries the rejected event ([`Self::into_inner`]).
#[derive(Debug)]
pub struct Closed<E> {
    event: E,
}

impl<E> Closed<E> {
    /// The rejected event.
    pub closed spec fn spec_event(&self) -> E {
        self.event
    }

    /// Recovers the rejected event.
    #[must_use]
    pub fn into_inner(self) -> (event: E)
        ensures
            event == self.spec_event(),
    {
        self.event
    }

    /// Describes the error: "Channel closed, event rejected: " and the
    /// event.
    pub fn message(&self) -> (message: String) where E: Debug
        ensures
            message@.len() >= "Channel closed, event rejected: "@.len(),
            message@.subrange(0, "Channel closed, event rejected: "@.len() as int)
                == "Channel closed, event rejected: "@,
    {
        rejected_message("Channel closed, event rejected: ", &self.event)
    }
}

/// Failure of [`DispatchHandle::try_dispatch`]: [`Full`] (transient) or
/// [`Closed`] (permanent).
#[derive(Debug)]
pub enum TrySend<E> {
    /// See [`Full`].
    Full(Full<E>),
    /// See [`Closed`].
    Closed(Closed<E>),
}

impl<E> TrySend<E> {
    /// The rejected event.
    pub open spec fn spec_event(&self) -> E {
        match self {
            TrySend::Full(err) => err.spec_event(),
            TrySend::Closed(err) => err.spec_event(),
        }
    }

    /// Describes the error, as [`Full::message`] or [`Closed::message`].
    pub fn message(&self) -> (message: String) where E: Debug
        ensures
            self is Full ==> message@.subrange(0, "Channel full, event rejected: "@.len() as int)
                == "Channel full, event rejected: "@,
            self is Closed ==> message@.subrange(
                0,
                "Channel closed, event rejected: "@.len() as int,
            ) == "Channel closed, event rejected: "@,
    {
        match self {
            TrySend::Full(err) => err.message(),
            TrySend::Closed(err) => err.message(),
        }
    }
}

/// A cloneable, [`Send`] handle for pushing events into the store's actor
/// loop from any task.
///
/// Cloning does not require `E: Clone`: only the channel handle is cloned.
#[verifier::reject_recursive_types(E)]
pub struct DispatchHandle<E> {
    sender: Sender<E>,
}

impl<E> Clone for DispatchHandle<E> {
    /// A handle on the clone of this handle's sender.
    fn clone(&self) -> (cloned: Self)
        ensures
            call_ensures(<Sender<E> as Clone>::clone, (&self.spec_sender(),), cloned.spec_sender()),
    {
        DispatchHandle { sender: self.sender.clone() }
    }
}

/// What [`DispatchHandle::try_dispatch`] makes of the outcome of a send:
/// `Ok` for a sent event; for a refused one, [`TrySend::Closed`] when the
/// channel is disconnected and [`TrySend::Full`] otherwise, each carrying
/// the rejected event.
pub fn try_send_result<E>(outcome: Result<(), (bool, E)>) -> (result: Result<(), TrySend<E>>)
    ensures
        match outcome {
            Ok(()) => result is Ok,
            Err((disconnected, rejected)) => match result {
                Ok(()) => false,
                Err(err) => err.spec_event() == rejected && (err is Closed <==> disconnected),
            },
        },
{
    match outcome {
        Ok(()) => Ok(()),
        Err((disconnected, rejected)) => {
            if disconnected {
                Err(TrySend::Closed(Closed { event: rejected }))
            } else {
                Err(TrySend::Full(Full { event: rejected }))
            }
        },
    }
}

impl<E> DispatchHandle<E> {
    /// The channel's sending half.
    pub closed spec fn spec_sender(&self) -> Sender<E> {
        self.sender
    }

    /// Sends an event without blocking: fails with [`TrySend::Full`] at
    /// capacity, [`TrySend::Closed`] if the loop is gone. The error carries
    /// the event.
    pub fn try_dispatch(&mut self, event: E) -> (result: Result<(), TrySend<E>>)
        ensures
            result matches Err(err) ==> err.spec_event() == event,
    {
        try_send_result(sender_try_send(&mut self.sender, event))
    }

    /// The step of a back-pressure dispatch that follows the wait for
    /// capacity: `ready` tells whether the channel reported capacity
    /// (`false`: the loop is gone). Sends the event when ready. Fails only
    /// with [`Closed`], which carries the event.
    pub fn send_when_ready(&mut self, ready: bool, event: E) -> (result: Result<(), Closed<E>>)
        ensures
            !ready ==> result is Err,
            result matches Err(err) ==> err.spec_event() == event,
    {
        if !ready {
            return Err(Closed { event });
        }
        match sender_try_send(&mut self.sender, event) {
            Ok(()) => Ok(()),
            // With capacity reported, only a disconnection can refuse the
            // event.
            Err((_, rejected)) => Err(Closed { event: rejected }),
        }
    }

    /// The channel's sending half, to wait on for capacity.
    pub fn sender_mut(&mut self) -> (sender: &mut Sender<E>)
        ensures
            *sender == old(self).spec_sender(),
            final(self).spec_sender() == *final(sender),
    {
        &mut self.sender
    }
}

/// State-publication policy for [`ActorLoop`]: [`NoPublish`] (the default
/// no-op) or a policy that hands each settled state to subscribers.
pub trait Publish<S> {
    /// Hands `state` to the subscribers.
    fn publish(&self, state: &S);

    /// Whether nobody ever observes what this policy publishes. `false`
    /// unless an implementation states and proves it.
    open spec fn spec_unobserved(&self) -> bool {
        false
    }

    /// Whether anybody would observe a published state.
    fn has_receivers(&self) -> (receivers: bool)
        ensures
            self.spec_unobserved() ==> !receivers,
    ;
}

/// The policy that publishes nothing.
pub struct NoPublish {
    _private: (),
}

impl<S> Publish<S> for NoPublish {
    fn publish(&self, _state: &S) {
    }

    /// Nobody observes what `NoPublish` publishes.
    open spec fn spec_unobserved(&self) -> bool {
        true
    }

    fn has_receivers(&self) -> (receivers: bool) {
        false
    }
}

/// Sole owner of a [`Store`]: drains the channel and dispatches each event
/// serially, lock-free, so no other task ever touches the state.
///
/// Created by [`init_actor_loop`]. The `P` parameter selects the publication
/// policy, [`NoPublish`] by default.
#[verifier::reject_recursive_types(S)]
#[verifier::reject_recursive_types(E)]
pub struct ActorLoop<S, E, P: Publish<S> = NoPublish> {
    store: Store<S, E>,
    receiver: Receiver<E>,
    publisher: P,
    /// The store's state and queue when the loop was made.
    start: Ghost<(S, Seq<(E, nat)>)>,
    /// The events handled so far, in the order they came.
    handled: Ghost<Seq<E>>,
    /// The states handed to the publisher so far, in order.
    published: Ghost<Seq<S>>,
}

/// The result of [`ActorLoop::handle_event`] and that of a dispatch agree:
/// both succeed, or both fail with the same error.
pub open spec fn same_outcome(result: Result<bool, DispatchError>, dispatched: Result<
    (),
    DispatchError,
>) -> bool {
    match result {
        Ok(_) => dispatched is Ok,
        Err(err) => dispatched == Err::<(), DispatchError>(err),
    }
}

impl<S, E, P: Publish<S>> ActorLoop<S, E, P> {
    /// The store that the loop owns.
    pub closed spec fn spec_store(&self) -> Store<S, E> {
        self.store
    }

    /// The publication policy.
    pub closed spec fn spec_publisher(&self) -> P {
        self.publisher
    }

    /// The channel's receiving half.
    pub closed spec fn spec_receiver(&self) -> Receiver<E> {
        self.receiver
    }

    /// The store's state and queue when the loop was made.
    pub closed spec fn spec_start(&self) -> (S, Seq<(E, nat)>) {
        self.start@
    }

    /// The events handled so far, in the order they came.
    pub closed spec fn spec_handled(&self) -> Seq<E> {
        self.handled@
    }

    /// The states handed to the publisher so far, in order.
    pub closed spec fn spec_published(&self) -> Seq<S> {
        self.published@
    }

    /// The outcome of dispatching the events handled so far, one after the
    /// other in the order they came, from the store as the loop got it,
    /// stopping at the first that fails.
    pub open spec fn spec_run_outcome(&self) -> (S, Seq<(E, nat)>, Result<(), DispatchError>) {
        self.spec_store().spec_dispatch_all(
            self.spec_start().0,
            self.spec_start().1,
            self.spec_handled(),
        )
    }

    /// Where the reducer and the middlewares state their effect, the store
    /// is as `spec_run_outcome` says: no event was lost or reordered.
    pub open spec fn spec_follows_events(&self) -> bool {
        self.spec_store().spec_obeys() ==> {
            &&& self.spec_run_outcome().0 == self.spec_store().spec_state()
            &&& self.spec_run_outcome().1 == self.spec_store().spec_queue()
        }
    }

    /// Handles one event taken from the channel: dispatches it to the
    /// store, then, if the dispatch succeeded, asks the publication policy
    /// whether anybody listens and, if so, hands it the settled state. An
    /// error stops the loop.
    ///
    /// Returns `Ok(true)` when the state was published, `Ok(false)` when
    /// nobody listened, and the dispatch error otherwise.
    pub fn handle_event(&mut self, event: E) -> (result: Result<bool, DispatchError>)
        requires
            old(self).spec_store().wf(),
        ensures
            final(self).spec_store().wf(),
            final(self).spec_publisher() == old(self).spec_publisher(),
            final(self).spec_receiver() == old(self).spec_receiver(),
            final(self).spec_store().spec_same_pipeline(old(self).spec_store()),
            final(self).spec_start() == old(self).spec_start(),
            old(self).spec_store().spec_obeys() ==> {
                let dispatched = old(self).spec_store().spec_dispatch(event);
                &&& final(self).spec_store().spec_state() == dispatched.0
                &&& final(self).spec_store().spec_queue() == dispatched.1
                &&& same_outcome(result, dispatched.2)
            },
            result is Ok ==> final(self).spec_store().spec_queue().len() == 0,
            result matches Err(DispatchError::MaxDepthExceeded { depth, max }) ==> depth
                == old(self).spec_store().spec_max_depth() && max == old(
                self,
            ).spec_store().spec_max_depth(),
            final(self).spec_handled() == old(self).spec_handled().push(event),
            old(self).spec_follows_events() && old(self).spec_run_outcome().2 is Ok ==> {
                &&& final(self).spec_follows_events()
                &&& old(self).spec_store().spec_obeys() ==> same_outcome(
                    result,
                    final(self).spec_run_outcome().2,
                )
            },
            result == Ok::<bool, DispatchError>(true) ==> final(self).spec_published() == old(
                self,
            ).spec_published().push(final(self).spec_store().spec_state()),
            result != Ok::<bool, DispatchError>(true) ==> final(self).spec_published() == old(
                self,
            ).spec_published(),
            old(self).spec_publisher().spec_unobserved() ==> result != Ok::<bool, DispatchError>(
                true,
            ),
            result matches Ok(listened) ==> call_ensures(
                <P as Publish<S>>::has_receivers,
                (&old(self).spec_publisher(),),
                listened,
            ),
    {
        let ghost before = *self;
        let dispatched = self.store.dispatch(event);
        proof {
            self.handled@ = self.handled@.push(event);
            let after = self.store;
            let handled = self.handled@;
            assert(handled.drop_last() =~= before.handled@);
            lemma_same_pipeline_same_dispatch_all(
                after,
                before.store,
                self.start@.0,
                self.start@.1,
                before.handled@,
            );
            lemma_same_pipeline_same_dispatch_all(
                after,
                before.store,
                self.start@.0,
                self.start@.1,
                handled,
            );
        }
        match dispatched {
            Ok(()) => {
                    if self.publisher.has_receivers() {
                    self.publisher.publish(self.store.state());
                    proof {
                        self.published@ = self.published@.push(self.store.spec_state());
                    }
                    Ok(true)
                } else {
                    Ok(false)
                }
            },
            Err(err) => Err(err),
        }
    }

    /// The channel's receiving half, to wait on for the next event. The
    /// store, the publication policy and what the loop recorded stay as
    /// they are.
    pub fn receiver_mut(&mut self) -> (receiver: &mut Receiver<E>)
        ensures
            *receiver == old(self).spec_receiver(),
            final(self).spec_receiver() == *final(receiver),
            final(self).spec_store() == old(self).spec_store(),
            final(self).spec_publisher() == old(self).spec_publisher(),
            final(self).spec_start() == old(self).spec_start(),
            final(self).spec_handled() == old(self).spec_handled(),
            final(self).spec_published() == old(self).spec_published(),
    {
        &mut self.receiver
    }

    /// Gives the store back, once the loop is over.
    pub fn into_store(self) -> (store: Store<S, E>)
        ensures
            store == self.spec_store(),
    {
        self.store
    }
}

/// Wraps a [`Store`] in an [`ActorLoop`] and returns it alongside a
/// [`DispatchHandle`] for pushing events into it.
///
/// `max_event_buffer` sizes the bounded channel between them. The effective
/// capacity is `max_event_buffer + number of live handles`: each handle
/// reserves one guaranteed slot. It must be below `usize::MAX >> 2`.
#[must_use]
pub fn init_actor_loop<S, E>(store: Store<S, E>, max_event_buffer: usize) -> (pair: (
    DispatchHandle<E>,
    ActorLoop<S, E>,
))
    requires
        max_event_buffer < max_buffer(),
    ensures
        pair.1.spec_store() == store,
        call_ensures(
            futures::channel::mpsc::channel::<E>,
            (max_event_buffer,),
            (pair.0.spec_sender(), pair.1.spec_receiver()),
        ),
        pair.1.spec_start() == (store.spec_state(), store.spec_queue()),
        pair.1.spec_handled() == Seq::<E>::empty(),
        pair.1.spec_published() == Seq::<S>::empty(),
{
    init_actor_loop_with_publisher(store, max_event_buffer, NoPublish { _private: () })
}

/// Like [`init_actor_loop`], with the publication policy `publisher`: the
/// loop hands it the state after each successful dispatch, once the
/// side-event cascade has settled, while it has receivers.
#[must_use]
pub fn init_actor_loop_with_publisher<S, E, P: Publish<S>>(
    store: Store<S, E>,
    max_event_buffer: usize,
    publisher: P,
) -> (parts: (DispatchHandle<E>, ActorLoop<S, E, P>))
    requires
        max_event_buffer < max_buffer(),
    ensures
        parts.1.spec_store() == store,
        parts.1.spec_publisher() == publisher,
        call_ensures(
            futures::channel::mpsc::channel::<E>,
            (max_event_buffer,),
            (parts.0.spec_sender(), parts.1.spec_receiver()),
        ),
        parts.1.spec_start() == (store.spec_state(), store.spec_queue()),
        parts.1.spec_handled() == Seq::<E>::empty(),
        parts.1.spec_published() == Seq::<S>::empty(),
{
    let (sender, receiver) = futures::channel::mpsc::channel(max_event_buffer);
    let handle = DispatchHandle { sender };
    let actor_loop = ActorLoop {
        start: Ghost((store.spec_state(), store.spec_queue())),
        handled: Ghost(Seq::empty()),
        published: Ghost(Seq::empty()),
        store,
        receiver,
        publisher,
    };
    (handle, actor_loop)
}

} // verus!
