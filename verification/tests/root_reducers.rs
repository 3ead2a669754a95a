use ruxe::{
    HasSlice, IntoHList, ParallelRootReducer, Reducer, ReducerOutput, SequentialRootReducer,
    SliceReducer, StateSlices, HCons, HNil,
};
use std::marker::PhantomData;

use Event::{FirstValueOrderingTest, FirstValueUpdate, SecondValueUpdate, SideEvent1, SideEvent2, ThirdValueUpdate};

struct ClosureSliceReducer<S, E, F> {
    func: F,
    _marker: PhantomData<(S, E)>,
}

impl<S, E, F> ClosureSliceReducer<S, E, F> {
    fn new(func: F) -> Self {
        Self {
            func,
            _marker: PhantomData,
        }
    }
}

impl<S, E, F> SliceReducer for ClosureSliceReducer<S, E, F>
where
    F: Fn(&mut S, &E) -> ReducerOutput<E>,
{
    type Event = E;
    type Slice = S;

    fn reduce(&self, slice: &mut S, event: &E) -> ReducerOutput<E> {
        (self.func)(slice, event)
    }
}

fn no_op<S, E>(_state: &mut S, _: &E) -> ReducerOutput<E> {
    None
}

#[derive(Clone, Debug, PartialEq)]
struct FirstSlice {
    value: u32,
}

#[derive(Clone, Debug, PartialEq)]
struct SecondSlice {
    value: f64,
}

#[derive(Clone, Debug, PartialEq)]
struct ThirdSlice {
    value: String,
}

#[derive(Clone, Debug, PartialEq)]
struct ExampleState {
    first_slice: FirstSlice,
    second_slice: SecondSlice,
    third_slice: ThirdSlice,
}

impl HasSlice<FirstSlice> for ExampleState {
    fn slice(&mut self) -> &mut FirstSlice {
        &mut self.first_slice
    }
}

impl HasSlice<SecondSlice> for ExampleState {
    fn slice(&mut self) -> &mut SecondSlice {
        &mut self.second_slice
    }
}

impl HasSlice<ThirdSlice> for ExampleState {
    fn slice(&mut self) -> &mut ThirdSlice {
        &mut self.third_slice
    }
}

impl StateSlices for ExampleState {
    type Values = HCons<FirstSlice, HCons<SecondSlice, HCons<ThirdSlice, HNil>>>;
    type Slices<'s> = HCons<&'s mut FirstSlice, HCons<&'s mut SecondSlice, HCons<&'s mut ThirdSlice, HNil>>>;

    fn to_slices(&mut self) -> Self::Slices<'_> {
        (
            &mut self.first_slice,
            &mut self.second_slice,
            &mut self.third_slice,
        )
            .into_hlist()
    }
}

#[derive(Debug, PartialEq)]
enum Event {
    FirstValueUpdate { value: u32 },
    FirstValueOrderingTest {},
    SecondValueUpdate { value: f64 },
    ThirdValueUpdate { value: String },
    SideEvent1 {},
    SideEvent2 {},
}

fn make_state() -> ExampleState {
    ExampleState {
        first_slice: FirstSlice { value: 1 },
        second_slice: SecondSlice { value: 1.5 },
        third_slice: ThirdSlice {
            value: String::from("Hello, world!"),
        },
    }
}

fn make_reducer_tuple() -> (
    impl SliceReducer<Slice = FirstSlice, Event = Event> + Sync,
    impl SliceReducer<Slice = SecondSlice, Event = Event> + Sync,
    impl SliceReducer<Slice = ThirdSlice, Event = Event> + Sync,
) {
    (
        ClosureSliceReducer::new(|slice: &mut FirstSlice, event: &Event| match event {
            FirstValueUpdate { value } => {
                slice.value = *value;
                None
            }
            _ => no_op(slice, event),
        }),
        ClosureSliceReducer::new(|slice: &mut SecondSlice, event: &Event| match event {
            SecondValueUpdate { value } => {
                slice.value = *value;
                Some(vec![SideEvent1 {}])
            }
            _ => no_op(slice, event),
        }),
        ClosureSliceReducer::new(|slice: &mut ThirdSlice, event: &Event| match event {
            ThirdValueUpdate { value } => {
                slice.value = value.clone();
                None
            }
            SecondValueUpdate { value: _ } => Some(vec![SideEvent2 {}]),
            _ => no_op(slice, event),
        }),
    )
}

fn updates_first_slice<R: Reducer<ExampleState, Event = Event>>(root_reducer: R) {
    let mut state = make_state();
    let _ = root_reducer.reduce(&mut state, &FirstValueUpdate { value: 2 });
    assert_eq!(
        state,
        ExampleState {
            first_slice: FirstSlice { value: 2 },
            ..make_state()
        }
    );
}

fn updates_second_slice<R: Reducer<ExampleState, Event = Event>>(root_reducer: R) {
    let mut state = make_state();
    let _ = root_reducer.reduce(&mut state, &SecondValueUpdate { value: 1.7 });
    assert_eq!(
        state,
        ExampleState {
            second_slice: SecondSlice { value: 1.7 },
            ..make_state()
        }
    );
}

fn updates_third_slice<R: Reducer<ExampleState, Event = Event>>(root_reducer: R) {
    let mut state = make_state();
    let _ = root_reducer.reduce(
        &mut state,
        &ThirdValueUpdate {
            value: String::from("Goodbye, world!"),
        },
    );
    assert_eq!(
        state,
        ExampleState {
            third_slice: ThirdSlice {
                value: String::from("Goodbye, world!")
            },
            ..make_state()
        }
    );
}

fn no_side_events_when_none_produced<R: Reducer<ExampleState, Event = Event>>(root_reducer: R) {
    let mut state = make_state();
    let side_events = root_reducer.reduce(&mut state, &FirstValueUpdate { value: 2 });
    assert_eq!(side_events, None);
}

fn aggregates_side_events_in_tuple_order<R: Reducer<ExampleState, Event = Event>>(
    root_reducer: R,
) {
    let mut state = make_state();
    let side_events = root_reducer.reduce(&mut state, &SecondValueUpdate { value: 1.5 });
    assert_eq!(side_events, Some(vec![SideEvent1 {}, SideEvent2 {}]))
}

fn make_sequential() -> impl Reducer<ExampleState, Event = Event> {
    SequentialRootReducer::new(make_reducer_tuple())
}

fn make_parallel() -> impl Reducer<ExampleState, Event = Event> {
    ParallelRootReducer::new(make_reducer_tuple())
}

#[test]
fn sequential_root_reducer_updates_first_slice() {
    updates_first_slice(make_sequential());
}

#[test]
fn sequential_root_reducer_updates_second_slice() {
    updates_second_slice(make_sequential());
}

#[test]
fn sequential_root_reducer_updates_third_slice() {
    updates_third_slice(make_sequential());
}

#[test]
fn sequential_root_reducer_no_side_events_when_none_produced() {
    no_side_events_when_none_produced(make_sequential());
}

#[test]
fn sequential_root_reducer_aggregates_side_events_in_tuple_order() {
    aggregates_side_events_in_tuple_order(make_sequential());
}

#[test]
fn parallel_root_reducer_updates_first_slice() {
    updates_first_slice(make_parallel());
}

#[test]
fn parallel_root_reducer_updates_second_slice() {
    updates_second_slice(make_parallel());
}

#[test]
fn parallel_root_reducer_updates_third_slice() {
    updates_third_slice(make_parallel());
}

#[test]
fn parallel_root_reducer_no_side_events_when_none_produced() {
    no_side_events_when_none_produced(make_parallel());
}

#[test]
fn parallel_root_reducer_aggregates_side_events_in_tuple_order() {
    aggregates_side_events_in_tuple_order(make_parallel());
}

/// `SequentialRootReducer` applies reducers in tuple order: when two
/// reducers target the same slice, the later one wins.
#[test]
fn last_reducer_wins_for_duplicate_slice() {
    fn make_slice_reducer_set() -> impl SliceReducer<Slice = FirstSlice, Event = Event> {
        ClosureSliceReducer::new(|slice: &mut FirstSlice, event: &Event| match event {
            FirstValueOrderingTest {} => {
                slice.value = 1;
                None
            }
            _ => no_op(slice, event),
        })
    }

    fn make_slice_reducer_reset() -> impl SliceReducer<Slice = FirstSlice, Event = Event> {
        ClosureSliceReducer::new(|slice: &mut FirstSlice, event: &Event| match event {
            FirstValueOrderingTest {} => {
                slice.value = 0;
                None
            }
            _ => no_op(slice, event),
        })
    }

    let mut state = make_state();
    let initial = state.clone();
    let _ = SequentialRootReducer::new((make_slice_reducer_set(), make_slice_reducer_reset()))
        .reduce(&mut state, &FirstValueOrderingTest {});
    assert_eq!(
        state,
        ExampleState {
            first_slice: FirstSlice { value: 0 },
            ..initial
        }
    );

    let mut state = make_state();
    let initial = state.clone();
    let _ = SequentialRootReducer::new((make_slice_reducer_reset(), make_slice_reducer_set()))
        .reduce(&mut state, &FirstValueOrderingTest {});
    assert_eq!(
        state,
        ExampleState {
            first_slice: FirstSlice { value: 1 },
            ..initial
        }
    );
}

#[test]
fn sequential_later_reducer_sees_earlier_output() {
    let double = ClosureSliceReducer::new(|slice: &mut FirstSlice, _event: &Event| {
        slice.value *= 2;
        None
    });
    let add_one = ClosureSliceReducer::new(|slice: &mut FirstSlice, _event: &Event| {
        slice.value += 1;
        Some(vec![SideEvent1 {}])
    });
    let mut state = make_state();
    let side_events = SequentialRootReducer::new((double, add_one)).reduce(&mut state, &SideEvent2 {});
    assert_eq!(state.first_slice.value, 3);
    assert_eq!(side_events, Some(vec![SideEvent1 {}]));
}

#[test]
fn parallel_single_reducer() {
    struct OnlyFirst {
        first: FirstSlice,
    }
    impl StateSlices for OnlyFirst {
        type Values = HCons<FirstSlice, HNil>;
        type Slices<'s> = HCons<&'s mut FirstSlice, HNil>;
        fn to_slices(&mut self) -> Self::Slices<'_> {
            (&mut self.first,).into_hlist()
        }
    }
    let add = ClosureSliceReducer::new(|slice: &mut FirstSlice, event: &Event| match event {
        FirstValueUpdate { value } => {
            slice.value += *value;
            Some(vec![SideEvent2 {}])
        }
        _ => None,
    });
    let mut state = OnlyFirst { first: FirstSlice { value: 5 } };
    let side_events = ParallelRootReducer::new((add,)).reduce(&mut state, &FirstValueUpdate { value: 4 });
    assert_eq!(state.first.value, 9);
    assert_eq!(side_events, Some(vec![SideEvent2 {}]));
}
