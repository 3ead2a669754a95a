//! Redux-inspired state management.
//!
//! A [`Store`] dispatches events through a [`Middleware`] chain to a
//! [`Reducer`], which updates the state in place and may emit side events.
//! Reducers can target the full state or an isolated slice via
//! [`SliceReducer`], composed by [`SequentialRootReducer`] or
//! [`ParallelRootReducer`]. Side events are re-dispatched in FIFO order.

pub mod actor;
pub mod hlist;
pub mod indices;
pub mod middleware;
pub mod parallel_root_reducer;
pub mod reducer;
pub mod sequential_root_reducer;
pub mod state;
pub mod store;
pub mod watch;

pub use actor::{
    init_actor_loop, init_actor_loop_with_publisher, ActorLoop, Closed, DispatchHandle, Full,
    NoPublish, Publish, TrySend, try_send_result,
};
pub use hlist::{HCons, HList, HNil, IntoHList};
pub use indices::{Here, There};
pub use middleware::{Flow, FlowSpec, Middleware};
pub use parallel_root_reducer::{ApplyReducers, FindReducerBySlice, ParallelRootReducer};
pub use reducer::{Reducer, ReducerOutput, SliceReducer};
pub use state::{HasSlice, SliceRefs, StateSlices};
pub use sequential_root_reducer::{SequentialReducers, SequentialRootReducer};
pub use store::{DispatchError, Store};
pub use watch::{WakerRegistry, WatchCursor, WatchPoll};
