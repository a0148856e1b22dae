//! Display state for sampled per-CPU usage.
//!
//! A producer samples the usage of every CPU (as hundredths of a percent)
//! and hands a full snapshot over in one message; the component stores the
//! CPU count and the usage list for display.

use vstd::prelude::*;

verus! {

/// The CPU-usage display component.
pub struct Cpus {}

/// What the component shows: how many CPUs were sampled and each one's
/// usage, in hundredths of a percent.
#[derive(Clone, Debug)]
pub struct CpusState {
    pub cpu_count: u8,
    pub cpu_usage: Vec<u16>,
}

/// One full snapshot of per-CPU usage, in hundredths of a percent.
#[derive(Clone, Debug)]
pub struct CpusMessage {
    pub cpu_usage: Vec<u16>,
}

impl Cpus {
    /// Stores the snapshot: the count (which wraps past 255 CPUs, as the
    /// narrow counter field forces) and the usage values as delivered.
    pub fn on_message(&mut self, message: CpusMessage, state: &mut CpusState)
        ensures
            final(state).cpu_count as int == message.cpu_usage@.len() as int % 256,
            final(state).cpu_usage@ == message.cpu_usage@,
    {
        let n: usize = message.cpu_usage.len() % 256;
        state.cpu_count = n as u8;
        state.cpu_usage = message.cpu_usage;
    }
}

} // verus!
