use vstd::prelude::*;
use vstd::string::StringExecFns;

verus! {

/// Tracks one exec session's output stream as the caller drains it: the text
/// accumulated so far, whether the stream reached its terminal marker, and
/// whether it was cancelled by the timeout rather than ending on its own.
///
/// The caller's loop waits on the next chunk and on the cancellation signal
/// at once and reports whichever arrives; cancellation therefore only stops
/// the draining — the in-container process keeps running until teardown
/// removes the container.
pub struct OutputMonitor {
    pub log: String,
    pub done: bool,
    pub timed_out: bool,
}

impl OutputMonitor {
    /// A monitor for a freshly started stream: no output, still running.
    pub fn new() -> (m: Self)
        ensures
            m.log@ == Seq::<char>::empty(),
            !m.done,
            !m.timed_out,
    {
        OutputMonitor { log: String::new(), done: false, timed_out: false }
    }

    /// Records one output chunk: appended to the log, nothing else changes.
    pub fn on_chunk(&mut self, chunk: &str)
        requires
            !old(self).done,
        ensures
            final(self).log@ == old(self).log@ + chunk@,
            !final(self).done,
            final(self).timed_out == old(self).timed_out,
    {
        self.log.append(chunk);
    }

    /// Records the stream's natural end: the session completed on its own,
    /// so the terminal marker was reached without a timeout.
    pub fn on_stream_end(&mut self)
        requires
            !old(self).done,
        ensures
            final(self).log == old(self).log,
            final(self).done,
            final(self).timed_out == old(self).timed_out,
    {
        self.done = true;
    }

    /// Records the timeout firing. If the stream had already ended nothing
    /// changes; otherwise draining stops here and the run is marked timed
    /// out, whatever partial output the log holds.
    pub fn on_timeout(&mut self)
        ensures
            final(self).log == old(self).log,
            final(self).done,
            old(self).done ==> *final(self) == *old(self),
            !old(self).done ==> final(self).timed_out,
    {
        if !self.done {
            self.done = true;
            self.timed_out = true;
        }
    }
}

} // verus!
