//! Progress notification for the sender path.
//!
//! The sender's driver calls the sink once per acknowledged block with the
//! running total of acknowledged source bytes, so an embedding program can
//! report throughput without the library keeping any global state.

use vstd::prelude::*;

verus! {

/// Receives notifications of bytes transferred. Implementations decide what
/// to do with them (print a rate, record them for a test); the library
/// promises only to call `on_block_sent` once per acknowledged block, with
/// the acknowledged total so far.
pub trait ProgressSink {
    /// Called after each acknowledged block; `total_bytes` counts every
    /// source byte acknowledged so far.
    fn on_block_sent(&mut self, total_bytes: usize);
}

/// A sink that ignores every notification.
pub struct SilentProgress;

impl ProgressSink for SilentProgress {
    fn on_block_sent(&mut self, total_bytes: usize) {
    }
}

/// A sink that records every notification, in order, for inspection.
pub struct RecordingProgress {
    /// The acknowledged totals reported so far, oldest first.
    pub reports: Vec<usize>,
}

impl RecordingProgress {
    /// A recorder with no notifications yet.
    pub fn new() -> (r: RecordingProgress)
        ensures
            r.reports@ == Seq::<usize>::empty(),
    {
        RecordingProgress { reports: Vec::new() }
    }
}

impl ProgressSink for RecordingProgress {
    fn on_block_sent(&mut self, total_bytes: usize) {
        self.reports.push(total_bytes);
    }
}

} // verus!
