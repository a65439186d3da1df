use std::sync::atomic::{AtomicU8, Ordering};
use std::sync::Arc;

use vstd::prelude::*;

verus! {

/// The lifecycle phase of the agent process.
#[derive(Clone, Copy, Debug, PartialEq, Eq, Structural)]
pub enum AppState {
    Starting,
    Running,
    ShuttingDown,
    Stopped,
}

/// The code a state is stored under.
pub open spec fn state_code(state: AppState) -> u8 {
    match state {
        AppState::Starting => 0,
        AppState::Running => 1,
        AppState::ShuttingDown => 2,
        AppState::Stopped => 3,
    }
}

/// The state a stored code stands for; an unknown code reads as starting.
pub open spec fn state_of_code(code: u8) -> AppState {
    if code == 1 {
        AppState::Running
    } else if code == 2 {
        AppState::ShuttingDown
    } else if code == 3 {
        AppState::Stopped
    } else {
        AppState::Starting
    }
}

pub fn code_of(state: AppState) -> (c: u8)
    ensures
        c == state_code(state),
{
    match state {
        AppState::Starting => 0,
        AppState::Running => 1,
        AppState::ShuttingDown => 2,
        AppState::Stopped => 3,
    }
}

pub fn state_from_code(code: u8) -> (s: AppState)
    ensures
        s == state_of_code(code),
{
    match code {
        1 => AppState::Running,
        2 => AppState::ShuttingDown,
        3 => AppState::Stopped,
        _ => AppState::Starting,
    }
}

/// Every state reads back as itself from the code it is stored under.
pub proof fn law_state_code_roundtrip(state: AppState)
    ensures
        state_of_code(state_code(state)) == state,
{
}

/// The lifecycle state shared by every clone of the store.
#[derive(Clone, Debug)]
pub struct AppStateStore {
    inner: Arc<AtomicU8>,
}

impl AppStateStore {
    /// A store that reads `Starting`.
    pub fn new() -> (s: Self) {
        let code = code_of(AppState::Starting);
        AppStateStore { inner: Arc::new(AtomicU8::new(code)) }
    }

    /// Stores `state`, visible to every clone of the store.
    pub fn set(&self, state: AppState) {
        let code = code_of(state);
        self.inner.store(code, Ordering::SeqCst);
    }

    /// The stored state, read through `state_from_code`. The value of the
    /// shared atomic is not tracked, so which state is read is not claimed.
    pub fn get(&self) -> (s: AppState) {
        let code = self.inner.load(Ordering::SeqCst);
        state_from_code(code)
    }
}

} // verus!
