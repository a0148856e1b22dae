//! Display state for sampled per-thread load.
//!
//! A producer samples thread load figures (as hundredths of a percent) and
//! hands a full snapshot over in one message; the component stores the
//! thread count and the list for display.

use vstd::prelude::*;

verus! {

/// The thread-load display component.
pub struct Threads {}

/// What the component shows: how many threads were sampled and each one's
/// load, in hundredths of a percent.
#[derive(Clone, Debug)]
pub struct ThreadsState {
    pub thread_count: u8,
    pub threads: Vec<u16>,
}

/// One full snapshot of per-thread load, in hundredths of a percent.
#[derive(Clone, Debug)]
pub struct ThreadMessage {
    pub thread_info: Vec<u16>,
}

impl Threads {
    /// Stores the snapshot: the count (which wraps past 255 threads, as the
    /// narrow counter field forces) and the load values as delivered.
    pub fn on_message(&mut self, message: ThreadMessage, state: &mut ThreadsState)
        ensures
            final(state).thread_count as int == message.thread_info@.len() as int % 256,
            final(state).threads@ == message.thread_info@,
    {
        let n: usize = message.thread_info.len() % 256;
        state.thread_count = n as u8;
        state.threads = message.thread_info;
    }
}

} // verus!
