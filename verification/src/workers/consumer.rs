//! The collector: the one reader of the workers' messages and the one
//! writer of the cache during a run.

use vstd::prelude::*;
use crate::workers::types::{Completion, Message, MyResult};

verus! {

/// How far a run has come.
#[derive(Clone, Copy, Debug, PartialEq, Eq, Structural)]
pub struct RunProgress {
    /// The messages that the run expects: one for each chapter dispatched.
    pub expected_count: usize,
    /// The messages received so far.
    pub completed_count: usize,
    /// Whether a chapter failed.
    pub had_errors: bool,
}

/// What the collector asks the cache to hold after a message.
#[derive(Clone, Debug, PartialEq, Eq)]
pub struct CacheWrite {
    /// The URL to write under.
    pub url: String,
    /// The text to hold for it.
    pub content: String,
}

impl RunProgress {
    /// No more messages are counted than are expected.
    pub open spec fn wf(self) -> bool {
        self.completed_count <= self.expected_count
    }

    /// Every expected message has been received.
    pub open spec fn complete(self) -> bool {
        self.completed_count >= self.expected_count
    }

    /// The progress after one more message.
    pub open spec fn after(self, completion: Completion) -> RunProgress {
        RunProgress {
            expected_count: self.expected_count,
            completed_count: (self.completed_count + 1) as usize,
            had_errors: self.had_errors || completion.result is Failed,
        }
    }

    /// Whether the collector stops here: it reads on only while this is
    /// false.
    pub fn is_complete(&self) -> (done: bool)
        ensures
            done == self.complete(),
    {
        self.completed_count >= self.expected_count
    }

    /// Takes one message in: counts it, notes a failure, and says what the
    /// cache is to hold for its URL: the chapter of a success as it came,
    /// the empty mark of a failure. A collector that is complete reads no
    /// further message.
    pub fn record(&mut self, message: Message) -> (write: CacheWrite)
        requires
            !old(self).complete(),
        ensures
            *final(self) == old(self).after(message@),
            final(self).wf(),
            final(self).completed_count == old(self).completed_count + 1,
            write.url@ == message.url@,
            write.content@ == message@.content(),
    {
        self.completed_count = self.completed_count + 1;
        match message.result {
            MyResult::Success => CacheWrite { url: message.url, content: message.data },
            MyResult::Failed => {
                self.had_errors = true;
                CacheWrite { url: message.url, content: String::new() }
            },
        }
    }
}

/// Starts the collector of a run that expects `expected_count` messages.
pub fn start_consumer(expected_count: usize) -> (progress: RunProgress)
    ensures
        progress == (RunProgress { expected_count, completed_count: 0, had_errors: false }),
        progress.wf(),
        progress.complete() <==> expected_count == 0,
{
    RunProgress { expected_count, completed_count: 0, had_errors: false }
}

} // verus!
