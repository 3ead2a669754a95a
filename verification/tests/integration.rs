//! The full `Store + RootReducer + Middleware` pipeline, and the actor loop
//! around it.

use futures::executor::block_on;
use futures::future::{join4, poll_fn};
use futures::StreamExt;
use ruxe::{
    init_actor_loop, ActorLoop, Closed, DispatchError, DispatchHandle, Flow, HasSlice, HCons, HNil,
    IntoHList, Middleware, ParallelRootReducer, ReducerOutput, SequentialRootReducer, SliceReducer,
    StateSlices, Store,
};

#[derive(Clone, Debug, PartialEq)]
struct CountSlice {
    value: u32,
}

#[derive(Clone, Debug, PartialEq)]
struct LabelSlice {
    text: String,
}

#[derive(Clone, Debug, PartialEq)]
struct AppState {
    count: CountSlice,
    label: LabelSlice,
}

impl HasSlice<CountSlice> for AppState {
    fn slice(&mut self) -> &mut CountSlice {
        &mut self.count
    }
}

impl HasSlice<LabelSlice> for AppState {
    fn slice(&mut self) -> &mut LabelSlice {
        &mut self.label
    }
}

impl StateSlices for AppState {
    type Values = HCons<CountSlice, HCons<LabelSlice, HNil>>;
    type Slices<'s> = HCons<&'s mut CountSlice, HCons<&'s mut LabelSlice, HNil>>;

    fn to_slices(&mut self) -> Self::Slices<'_> {
        (&mut self.count, &mut self.label).into_hlist()
    }
}

#[derive(Debug, PartialEq)]
enum Event {
    Increment,
    SetLabel(String),
    Ping,
    Pong,
}

struct CountReducer;
impl SliceReducer for CountReducer {
    type Event = Event;
    type Slice = CountSlice;
    fn reduce(&self, slice: &mut CountSlice, event: &Event) -> ReducerOutput<Event> {
        match event {
            Event::Increment => {
                slice.value += 1;
                None
            }
            Event::Ping => Some(vec![Event::Pong]),
            _ => None,
        }
    }
}

struct LabelReducer;
impl SliceReducer for LabelReducer {
    type Event = Event;
    type Slice = LabelSlice;
    fn reduce(&self, slice: &mut LabelSlice, event: &Event) -> ReducerOutput<Event> {
        match event {
            Event::SetLabel(text) => {
                slice.text = text.clone();
                None
            }
            _ => None,
        }
    }
}

fn initial_state() -> AppState {
    AppState {
        count: CountSlice { value: 0 },
        label: LabelSlice {
            text: String::from("init"),
        },
    }
}

/// A middleware that records every event it observes.
struct Recorder {
    log: std::sync::Arc<std::sync::Mutex<Vec<String>>>,
}

impl Middleware<AppState, Event> for Recorder {
    fn before(&self, _state: &AppState, event: Event) -> Flow<Event> {
        self.log.lock().unwrap().push(format!("{:?}", event));
        Flow::Next(event)
    }

    fn after(&self, _state: &AppState, side_events: ReducerOutput<Event>) -> ReducerOutput<Event> {
        side_events
    }
}

/// Sends an event, waiting for channel capacity first.
async fn dispatch<E>(handle: &mut DispatchHandle<E>, event: E) -> Result<(), Closed<E>> {
    let ready = poll_fn(|cx| handle.sender_mut().poll_ready(cx)).await.is_ok();
    handle.send_when_ready(ready, event)
}

/// Drives the loop until every handle is dropped.
async fn run<S, E>(mut actor_loop: ActorLoop<S, E>) -> Result<Store<S, E>, DispatchError> {
    while let Some(event) = actor_loop.receiver_mut().next().await {
        actor_loop.handle_event(event)?;
    }
    Ok(actor_loop.into_store())
}

#[test]
fn sequential_root_reducer_via_store() {
    let mut store = Store::new(
        initial_state(),
        SequentialRootReducer::new((CountReducer, LabelReducer)),
        vec![],
        10,
    );

    store.dispatch(Event::Increment).expect("dispatch");
    store.dispatch(Event::Increment).expect("dispatch");
    store
        .dispatch(Event::SetLabel(String::from("done")))
        .expect("dispatch");

    assert_eq!(store.state().count.value, 2);
    assert_eq!(store.state().label.text, "done");
}

#[test]
fn parallel_root_reducer_via_store() {
    let mut store = Store::new(
        initial_state(),
        ParallelRootReducer::new((CountReducer, LabelReducer)),
        vec![],
        10,
    );

    store.dispatch(Event::Increment).expect("dispatch");
    store.dispatch(Event::Increment).expect("dispatch");
    store
        .dispatch(Event::SetLabel(String::from("done")))
        .expect("dispatch");

    assert_eq!(store.state().count.value, 2);
    assert_eq!(store.state().label.text, "done");
}

#[test]
fn parallel_root_reducer_emits_side_events_through_store() {
    let log = std::sync::Arc::new(std::sync::Mutex::new(Vec::new()));
    let recorder = Recorder { log: log.clone() };

    let mut store = Store::new(
        initial_state(),
        ParallelRootReducer::new((CountReducer, LabelReducer)),
        vec![Box::new(recorder)],
        10,
    );

    store.dispatch(Event::Ping).expect("dispatch");

    let log = log.lock().unwrap();
    assert_eq!(*log, vec!["Ping", "Pong"]);
}

#[test]
fn actor_loop_integration() {
    let log = std::sync::Arc::new(std::sync::Mutex::new(Vec::new()));
    let recorder = Recorder { log: log.clone() };

    let store = Store::new(
        initial_state(),
        ParallelRootReducer::new((CountReducer, LabelReducer)),
        vec![Box::new(recorder)],
        10,
    );

    let (handle, actor_loop) = init_actor_loop(store, 10);
    let mut handle1 = handle.clone();
    let dispatch_future_1 = async move {
        dispatch(&mut handle1, Event::Ping)
            .await
            .expect("Dispatch should succeed");
    };
    let mut handle2 = handle.clone();
    let dispatch_future_2 = async move {
        dispatch(&mut handle2, Event::Increment)
            .await
            .expect("Dispatch should succeed");
    };
    let mut handle3 = handle.clone();
    let dispatch_future_3 = async move {
        dispatch(&mut handle3, Event::SetLabel(String::from("done")))
            .await
            .expect("Dispatch should succeed");
    };
    drop(handle); // Drop the first handle so the loop ends with the others
    let store = block_on(async {
        let (_, _, _, loop_result) = join4(
            dispatch_future_1,
            dispatch_future_2,
            dispatch_future_3,
            run(actor_loop),
        )
        .await;
        loop_result.expect("Actor loop should complete successfully")
    });

    let log = log.lock().unwrap();

    // The order of events in the log may vary due to concurrency, so we check for presence rather than order.
    assert!(log.contains(&"Ping".to_string()));
    assert!(log.contains(&"Pong".to_string()));
    assert!(log.contains(&"Increment".to_string()));
    assert!(log.contains(&"SetLabel(\"done\")".to_string()));

    assert_eq!(
        store.state(),
        &AppState {
            count: CountSlice { value: 1 },
            label: LabelSlice {
                text: String::from("done"),
            },
        }
    );
}
