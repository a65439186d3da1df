use std::sync::atomic::{AtomicBool, Ordering};
use std::sync::Arc;

use vstd::prelude::*;

verus! {

/// Feeds queued jobs to the worker pool until it is told to stop polling.
#[derive(Clone, Debug)]
pub struct WorkerDispatcher {
    polling: Arc<AtomicBool>,
}

impl WorkerDispatcher {
    /// A dispatcher that polls.
    pub fn new() -> (d: Self) {
        WorkerDispatcher { polling: Arc::new(AtomicBool::new(true)) }
    }

    /// Whether the dispatcher still polls. The shared flag is not tracked,
    /// so the answer is not claimed.
    pub fn is_polling(&self) -> (r: bool) {
        self.polling.load(Ordering::SeqCst)
    }

    /// Stops polling for every clone of the dispatcher.
    pub fn stop_polling(&self) {
        self.polling.store(false, Ordering::SeqCst);
    }
}

} // verus!
