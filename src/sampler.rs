use vstd::prelude::*;
use crate::stats::{
    TransferStats, initial_stats, stats_after_read, stats_measured, stats_new_interval,
};
use crate::report::{print_info, report_text};

verus! {

/// Nanoseconds that must pass before an interval is reported on time alone.
pub const REPORT_INTERVAL_NANOS: u128 = 1_000_000_000;

/// The settings of one run, fixed for its whole length.
#[derive(Clone, Copy, Debug, PartialEq, Eq, Structural)]
pub struct Config {
    /// The most bytes one read asks for.
    pub buffer_size: usize,
    /// How many reads make one stage before the clock is looked at.
    pub iterations: usize,
    /// Whether the bytes read are copied to the primary output.
    pub passthrough: bool,
}

impl Config {
    pub open spec fn wf(&self) -> bool {
        self.buffer_size >= 1 && self.iterations >= 1
    }
}

/// What the driver of a run is to do next.
#[derive(Clone, Copy, Debug, PartialEq, Eq, Structural)]
pub enum Action {
    /// Read once from the source, at most `buffer_size` bytes.
    Read,
    /// Measure the time since the last report and hand it over.
    CheckTime,
    /// The stream has ended and its last report is out: stop.
    Stop,
}

/// What to do with the outcome of one read.
#[derive(Clone, Copy, Debug, PartialEq, Eq, Structural)]
pub enum ReadReply {
    /// Write the bytes just read, in full, to the primary output.
    Forward,
    /// Nothing to do.
    Continue,
    /// Write the read's error to the error channel and go on.
    LogError,
    /// The source is at its end.
    EndOfStream,
}

/// A report to write out.
pub struct Report {
    /// The text of the report.
    pub text: Vec<u8>,
    /// Whether it goes to the error channel rather than the primary output.
    pub to_error_channel: bool,
}

/// The decisions of one run: when to read, what to do with what was read,
/// and when to report.
#[derive(Clone, Copy, Debug, PartialEq, Eq, Structural)]
pub struct Sampler {
    pub config: Config,
    pub stats: TransferStats,
    /// Reads made in the current stage.
    pub reads_in_stage: usize,
    /// Whether a read has found the end of the source.
    pub end_of_stream: bool,
    /// Whether the final report has been made.
    pub finished: bool,
}

/// A sampler that has read nothing yet.
pub open spec fn initial_sampler(config: Config) -> Sampler {
    Sampler {
        config,
        stats: initial_stats(),
        reads_in_stage: 0,
        end_of_stream: false,
        finished: false,
    }
}

/// What a sampler in state `s` asks for next.
pub open spec fn next_action(s: Sampler) -> Action {
    if s.finished {
        Action::Stop
    } else if s.end_of_stream || s.reads_in_stage >= s.config.iterations {
        Action::CheckTime
    } else {
        Action::Read
    }
}

/// The reply to a read of `n` bytes.
pub open spec fn data_reply(s: Sampler, n: nat) -> ReadReply {
    if n == 0 {
        ReadReply::EndOfStream
    } else if s.config.passthrough {
        ReadReply::Forward
    } else {
        ReadReply::Continue
    }
}

/// The state after a read of `n` bytes: none marks the end of the source.
pub open spec fn after_data(s: Sampler, n: nat) -> Sampler {
    if n == 0 {
        Sampler { reads_in_stage: (s.reads_in_stage + 1) as usize, end_of_stream: true, ..s }
    } else {
        Sampler {
            stats: stats_after_read(s.stats, n),
            reads_in_stage: (s.reads_in_stage + 1) as usize,
            ..s
        }
    }
}

/// The state after a read that failed: the statistics are untouched.
pub open spec fn after_error(s: Sampler) -> Sampler {
    Sampler { reads_in_stage: (s.reads_in_stage + 1) as usize, ..s }
}

/// Whether an interval that has lasted `nanos` nanoseconds is reported: once a
/// second has passed, and always at the end of the source.
pub open spec fn report_due(s: Sampler, nanos: nat) -> bool {
    nanos >= REPORT_INTERVAL_NANOS || s.end_of_stream
}

/// The statistics that a report at this point shows.
pub open spec fn reported_stats(s: Sampler, nanos: nat) -> TransferStats {
    stats_measured(s.stats, nanos)
}

/// The state after the time is checked at the end of a stage; a report that
/// is due measures the interval and starts a new one.
pub open spec fn after_tick(s: Sampler, nanos: nat) -> Sampler {
    if report_due(s, nanos) {
        Sampler {
            stats: stats_new_interval(reported_stats(s, nanos)),
            reads_in_stage: 0,
            finished: s.end_of_stream,
            ..s
        }
    } else {
        Sampler { reads_in_stage: 0, ..s }
    }
}

impl Sampler {
    pub open spec fn wf(&self) -> bool {
        &&& self.config.wf()
        &&& self.stats.wf()
        &&& self.reads_in_stage <= self.config.iterations
        &&& self.finished ==> self.end_of_stream
    }

    /// A sampler for a run with the settings `config`.
    pub fn new(config: Config) -> (r: Sampler)
        requires
            config.wf(),
        ensures
            r == initial_sampler(config),
            r.wf(),
    {
        Sampler {
            config,
            stats: TransferStats::new(),
            reads_in_stage: 0,
            end_of_stream: false,
            finished: false,
        }
    }

    /// What the driver is to do next.
    pub fn next_action(&self) -> (r: Action)
        ensures
            r == next_action(*self),
    {
        if self.finished {
            Action::Stop
        } else if self.end_of_stream || self.reads_in_stage >= self.config.iterations {
            Action::CheckTime
        } else {
            Action::Read
        }
    }

    /// Takes in a read that returned `n` bytes, and says what to do with them.
    pub fn on_data(&mut self, n: usize) -> (r: ReadReply)
        requires
            old(self).wf(),
            next_action(*old(self)) == Action::Read,
            old(self).stats.total_bytes + n <= u64::MAX,
        ensures
            *final(self) == after_data(*old(self), n as nat),
            r == data_reply(*old(self), n as nat),
            final(self).wf(),
    {
        self.reads_in_stage = self.reads_in_stage + 1;
        if n == 0 {
            self.end_of_stream = true;
            ReadReply::EndOfStream
        } else {
            self.stats.record_read(n);
            if self.config.passthrough {
                ReadReply::Forward
            } else {
                ReadReply::Continue
            }
        }
    }

    /// Takes in a read that failed; the run goes on.
    pub fn on_read_error(&mut self) -> (r: ReadReply)
        requires
            old(self).wf(),
            next_action(*old(self)) == Action::Read,
        ensures
            *final(self) == after_error(*old(self)),
            final(self).stats == old(self).stats,
            r == ReadReply::LogError,
            final(self).wf(),
    {
        self.reads_in_stage = self.reads_in_stage + 1;
        ReadReply::LogError
    }

    /// Takes in the time, in nanoseconds, since the last report (or the start)
    /// at the end of a stage, and returns the report that is due, if any.
    pub fn on_tick(&mut self, elapsed_nanos: u128) -> (r: Option<Report>)
        requires
            old(self).wf(),
            next_action(*old(self)) == Action::CheckTime,
            old(self).stats.total_measures < u64::MAX,
        ensures
            *final(self) == after_tick(*old(self), elapsed_nanos as nat),
            r is Some <==> report_due(*old(self), elapsed_nanos as nat),
            r matches Some(rep) ==> rep.text@ == report_text(
                reported_stats(*old(self), elapsed_nanos as nat),
            ) && rep.to_error_channel == old(self).config.passthrough,
            final(self).wf(),
    {
        self.reads_in_stage = 0;
        if elapsed_nanos >= REPORT_INTERVAL_NANOS || self.end_of_stream {
            self.stats.measure(elapsed_nanos);
            let mut text: Vec<u8> = Vec::new();
            print_info(&mut text, &self.stats);
            self.stats.start_interval();
            self.finished = self.end_of_stream;
            Some(Report { text, to_error_channel: self.config.passthrough })
        } else {
            None
        }
    }
}

} // verus!
