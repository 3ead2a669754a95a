use futures::executor::block_on;
use futures::future::{join, poll_fn};
use futures::StreamExt;
use std::cell::RefCell;
use std::rc::Rc;
use ruxe::{
    init_actor_loop, init_actor_loop_with_publisher, ActorLoop, Publish, Closed, DispatchError, DispatchHandle, Reducer, ReducerOutput,
    Store, TrySend, try_send_result,
};

/// Sends an event, waiting for channel capacity first.
async fn dispatch<E>(handle: &mut DispatchHandle<E>, event: E) -> Result<(), Closed<E>> {
    let ready = poll_fn(|cx| handle.sender_mut().poll_ready(cx)).await.is_ok();
    handle.send_when_ready(ready, event)
}

/// Drives the loop until every handle is dropped.
async fn run<S, E, P: Publish<S>>(
    mut actor_loop: ActorLoop<S, E, P>,
) -> Result<Store<S, E>, DispatchError> {
    while let Some(event) = actor_loop.receiver_mut().next().await {
        actor_loop.handle_event(event)?;
    }
    Ok(actor_loop.into_store())
}

/// A reducer over integer events that keeps the last one.
struct Last;

impl Reducer<i32> for Last {
    type Event = i32;

    fn reduce(&self, state: &mut i32, event: &i32) -> ReducerOutput<i32> {
        *state = *event;
        None
    }
}

fn int_loop(buffer: usize) -> (DispatchHandle<i32>, ActorLoop<i32, i32>) {
    init_actor_loop(Store::new(0, Last, vec![], 10), buffer)
}

#[test]
fn dispatch_handle_try_dispatch_happy_path() {
    let (mut handle, _actor_loop) = int_loop(1);
    let event = 42;
    let result = handle.try_dispatch(event);
    result.expect("Dispatch should succeed");
}

#[test]
fn dispatch_handle_try_dispatch_full() {
    let (mut handle, _actor_loop) = int_loop(0); // Channel capacity is 1 (0 + number of senders = 1)
    let event1 = 42;
    let event2 = 43;
    handle
        .try_dispatch(event1)
        .expect("First dispatch should succeed");
    let result = handle.try_dispatch(event2);
    match result {
        Err(TrySend::Full(err)) => {
            let rejected_event = err.into_inner();
            assert_eq!(rejected_event, event2);
        }
        other => panic!("expected Full, got {other:?}"),
    }
}

#[test]
fn dispatch_handle_try_dispatch_closed() {
    let (mut handle, actor_loop) = int_loop(1);
    drop(actor_loop); // Close the receiver
    let event = 42;
    let result = handle.try_dispatch(event);
    match result {
        Err(TrySend::Closed(err)) => {
            let rejected_event = err.into_inner();
            assert_eq!(rejected_event, event);
        }
        other => panic!("expected Closed, got {other:?}"),
    }
}

#[test]
fn dispatch_handle_dispatch_happy_path() {
    let (mut handle, mut actor_loop) = int_loop(1);
    let event = 42;
    let received_event = block_on(async {
        let dispatch_result = dispatch(&mut handle, event).await;
        dispatch_result.expect("Dispatch should succeed");
        actor_loop
            .receiver_mut()
            .next()
            .await
            .expect("Should receive the event")
    });
    assert_eq!(received_event, 42);
}

#[test]
fn dispatch_handle_dispatch_closed() {
    let (mut handle, actor_loop) = int_loop(1);
    drop(actor_loop); // Close the receiver
    let event = 42;
    let result = block_on(dispatch(&mut handle, event));
    match result {
        Err(err) => assert_eq!(err.into_inner(), 42),
        Ok(()) => panic!("expected Closed"),
    }
}

#[test]
fn dispatch_handle_dispatch_back_pressure() {
    let (mut handle, mut actor_loop) = int_loop(0);
    let event1 = 42;
    let event2 = 43;
    let dispatch_future = async move {
        dispatch(&mut handle, event1)
            .await
            .expect("First dispatch should succeed");
        dispatch(&mut handle, event2)
            .await
            .expect("Second dispatch should succeed");
    };
    block_on(async {
        let _ = join(dispatch_future, async {
            let received_events: Vec<_> = actor_loop.receiver_mut().take(2).collect().await;
            assert!(received_events.contains(&42));
            assert!(received_events.contains(&43));
            assert_eq!(received_events.len(), 2);
        })
        .await;
    });
}

#[test]
fn dispatch_handle_clone() {
    let (mut handle1, mut actor_loop) = int_loop(1);
    let mut handle2 = handle1.clone();
    let event1 = 42;
    let event2 = 43;
    let dispatch_future1 = async move {
        dispatch(&mut handle1, event1)
            .await
            .expect("First dispatch should succeed");
    };
    let dispatch_future2 = async move {
        dispatch(&mut handle2, event2)
            .await
            .expect("Second dispatch should succeed");
    };
    block_on(async {
        let (_, _) = join(dispatch_future1, dispatch_future2).await;
        let received_events: Vec<_> = actor_loop.receiver_mut().take(2).collect().await;
        assert!(received_events.contains(&42));
        assert!(received_events.contains(&43));
        assert_eq!(received_events.len(), 2);
    });
}

#[test]
fn send_when_ready_without_capacity_is_closed() {
    let (mut handle, _actor_loop) = int_loop(1);
    match handle.send_when_ready(false, 7) {
        Err(err) => assert_eq!(err.into_inner(), 7),
        Ok(()) => panic!("expected Closed"),
    }
}

#[test]
fn error_messages_name_the_event() {
    let (mut handle, actor_loop) = int_loop(0);
    handle.try_dispatch(1).expect("First dispatch should succeed");
    match handle.try_dispatch(2) {
        Err(err) => assert_eq!(err.message(), "Channel full, event rejected: 2"),
        Ok(()) => panic!("expected Full"),
    }
    drop(actor_loop);
    match handle.try_dispatch(3) {
        Err(TrySend::Closed(err)) => {
            assert_eq!(err.message(), "Channel closed, event rejected: 3")
        }
        other => panic!("expected Closed, got {other:?}"),
    }
}

#[derive(Debug)]
enum Event {
    Append { value: char },
    Recursive {},
}

#[derive(Clone, Debug, PartialEq)]
struct SimpleState {
    name: String,
}

struct SimpleReducer {}

impl Reducer<SimpleState> for SimpleReducer {
    type Event = Event;

    fn reduce(&self, current_state: &mut SimpleState, event: &Event) -> ReducerOutput<Event> {
        match event {
            Event::Append { value } => {
                current_state.name.push(*value);
                None
            }
            Event::Recursive {} => Some(vec![Event::Recursive {}]),
        }
    }
}

fn make_store() -> Store<SimpleState, Event> {
    let reducer = SimpleReducer {};
    Store::new(
        SimpleState {
            name: String::new(),
        },
        reducer,
        vec![],
        10,
    )
}

#[test]
fn actor_loop_no_events() {
    let store = make_store();
    let (handle, actor_loop) = init_actor_loop(store, 10);
    drop(handle); // Close the sender to stop the actor loop immediately
    let store = block_on(run(actor_loop)).expect("Actor loop should run successfully");
    assert_eq!(
        store.state(),
        &SimpleState {
            name: String::new()
        }
    );
}

#[test]
fn actor_loop_multiple_events() {
    let store = make_store();
    let (mut handle, actor_loop) = init_actor_loop(store, 10);
    let events = vec![
        Event::Append { value: 'a' },
        Event::Append { value: 'b' },
        Event::Append { value: 'c' },
    ];
    for event in events {
        handle.try_dispatch(event).expect("Dispatch should succeed");
    }
    drop(handle); // Close the sender to stop the actor loop after processing the events
    let store = block_on(run(actor_loop)).expect("Actor loop should run successfully");
    assert_eq!(
        store.state(),
        &SimpleState {
            name: "abc".to_string()
        }
    );
}

#[test]
fn try_send_result_maps_each_outcome() {
    assert!(try_send_result::<u32>(Ok(())).is_ok());
    match try_send_result(Err((true, 7u32))) {
        Err(TrySend::Closed(err)) => assert_eq!(err.into_inner(), 7),
        _ => panic!("expected Closed"),
    }
    match try_send_result(Err((false, 8u32))) {
        Err(TrySend::Full(err)) => assert_eq!(err.into_inner(), 8),
        _ => panic!("expected Full"),
    }
}

/// Records the names of the states it is handed.
struct Recorder {
    listening: bool,
    log: Rc<RefCell<Vec<String>>>,
}

impl Publish<SimpleState> for Recorder {
    fn publish(&self, state: &SimpleState) {
        self.log.borrow_mut().push(state.name.clone());
    }

    fn has_receivers(&self) -> bool {
        self.listening
    }
}

fn recording_loop(
    listening: bool,
) -> (DispatchHandle<Event>, ActorLoop<SimpleState, Event, Recorder>, Rc<RefCell<Vec<String>>>) {
    let log = Rc::new(RefCell::new(Vec::new()));
    let recorder = Recorder {
        listening,
        log: Rc::clone(&log),
    };
    let (handle, actor_loop) = init_actor_loop_with_publisher(make_store(), 10, recorder);
    (handle, actor_loop, log)
}

#[test]
fn handle_event_publishes_each_settled_state() {
    let (_handle, mut actor_loop, log) = recording_loop(true);
    assert_eq!(actor_loop.handle_event(Event::Append { value: 'a' }), Ok(true));
    assert_eq!(actor_loop.handle_event(Event::Append { value: 'b' }), Ok(true));
    assert_eq!(*log.borrow(), vec!["a".to_string(), "ab".to_string()]);
}

#[test]
fn handle_event_publishes_nothing_after_a_failed_dispatch() {
    let (_handle, mut actor_loop, log) = recording_loop(true);
    assert!(matches!(
        actor_loop.handle_event(Event::Recursive {}),
        Err(DispatchError::MaxDepthExceeded { .. })
    ));
    assert!(log.borrow().is_empty());
}

#[test]
fn handle_event_publishes_nothing_without_receivers() {
    let (_handle, mut actor_loop, log) = recording_loop(false);
    assert_eq!(actor_loop.handle_event(Event::Append { value: 'a' }), Ok(false));
    assert!(log.borrow().is_empty());
    let store = actor_loop.into_store();
    assert_eq!(store.state().name, "a");
}

#[test]
fn no_publish_never_publishes() {
    let (_handle, mut actor_loop) = init_actor_loop(make_store(), 10);
    assert_eq!(actor_loop.handle_event(Event::Append { value: 'a' }), Ok(false));
}

#[test]
fn actor_loop_publishes_states_in_arrival_order() {
    let (mut handle, actor_loop, log) = recording_loop(true);
    for value in ['a', 'b', 'c'] {
        handle
            .try_dispatch(Event::Append { value })
            .expect("Dispatch should succeed");
    }
    drop(handle);
    let store = block_on(run(actor_loop)).expect("Actor loop should run successfully");
    assert_eq!(store.state().name, "abc");
    assert_eq!(
        *log.borrow(),
        vec!["a".to_string(), "ab".to_string(), "abc".to_string()]
    );
}
