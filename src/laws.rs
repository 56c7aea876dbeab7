use vstd::prelude::*;
use crate::stats::{Rate, all_finite, finite_sum, lemma_finite_total, rate_total, rate_div};
use crate::sampler::{
    Action, Config, ReadReply, Sampler, after_data, after_error, after_tick, data_reply,
    initial_sampler, next_action, report_due, reported_stats,
};

verus! {

/// One thing that happens to a sampler: a read that returned `bytes`, a read
/// that failed, or a check of the clock that found `nanos` nanoseconds since
/// the last report.
pub enum Event {
    Data(Seq<u8>),
    ReadError,
    Tick(nat),
}

/// The state after one event.
pub open spec fn apply(s: Sampler, e: Event) -> Sampler {
    match e {
        Event::Data(bytes) => after_data(s, bytes.len()),
        Event::ReadError => after_error(s),
        Event::Tick(nanos) => after_tick(s, nanos),
    }
}

/// The state after a sequence of events.
pub open spec fn run(s: Sampler, events: Seq<Event>) -> Sampler
    decreases events.len(),
{
    if events.len() == 0 {
        s
    } else {
        apply(run(s, events.drop_last()), events.last())
    }
}

/// All bytes that the reads among `events` returned, in order.
pub open spec fn bytes_read(events: Seq<Event>) -> Seq<u8>
    decreases events.len(),
{
    if events.len() == 0 {
        Seq::empty()
    } else {
        let tail = match events.last() {
            Event::Data(bytes) => bytes,
            _ => Seq::empty(),
        };
        bytes_read(events.drop_last()) + tail
    }
}

/// The bytes that the sampler has the driver write to the primary output: those
/// of each read whose reply is `Forward`, in order.
pub open spec fn forwarded(s: Sampler, events: Seq<Event>) -> Seq<u8>
    decreases events.len(),
{
    if events.len() == 0 {
        Seq::empty()
    } else {
        let tail = match events.last() {
            Event::Data(bytes) => if data_reply(run(s, events.drop_last()), bytes.len())
                == ReadReply::Forward {
                bytes
            } else {
                Seq::empty()
            },
            _ => Seq::empty(),
        };
        forwarded(s, events.drop_last()) + tail
    }
}

/// The rates of the intervals reported along `events`, in order.
pub open spec fn rates_reported(s: Sampler, events: Seq<Event>) -> Seq<Rate>
    decreases events.len(),
{
    if events.len() == 0 {
        Seq::empty()
    } else {
        let before = run(s, events.drop_last());
        let tail = match events.last() {
            Event::Tick(nanos) => if report_due(before, nanos) {
                seq![reported_stats(before, nanos).last_rate]
            } else {
                Seq::empty()
            },
            _ => Seq::empty(),
        };
        rates_reported(s, events.drop_last()) + tail
    }
}

/// Events never change the settings of a run.
pub proof fn lemma_config_kept(s: Sampler, events: Seq<Event>)
    ensures
        run(s, events).config == s.config,
    decreases events.len(),
{
    if events.len() > 0 {
        lemma_config_kept(s, events.drop_last());
    }
}

proof fn lemma_bytes_counted(s: Sampler, events: Seq<Event>)
    requires
        s.stats.total_bytes + bytes_read(events).len() <= u64::MAX,
    ensures
        run(s, events).stats.total_bytes == s.stats.total_bytes + bytes_read(events).len(),
    decreases events.len(),
{
    if events.len() > 0 {
        lemma_bytes_counted(s, events.drop_last());
    }
}

/// Whatever the reads, failures and reports along the way, the total of bytes
/// that a run has counted is the number of bytes its reads returned.
pub proof fn lemma_total_bytes(config: Config, events: Seq<Event>)
    requires
        bytes_read(events).len() <= u64::MAX,
    ensures
        run(initial_sampler(config), events).stats.total_bytes == bytes_read(events).len(),
{
    lemma_bytes_counted(initial_sampler(config), events);
}

/// A read that returns no bytes ends the run: the next step is to check the
/// clock, a report is then due however little time has passed, it is made, and
/// after it the sampler stops.
pub proof fn lemma_end_of_stream_final_report(s: Sampler, nanos: nat)
    requires
        s.wf(),
        next_action(s) == Action::Read,
    ensures
        data_reply(s, 0) == ReadReply::EndOfStream,
        next_action(after_data(s, 0)) == Action::CheckTime,
        report_due(after_data(s, 0), nanos),
        next_action(after_tick(after_data(s, 0), nanos)) == Action::Stop,
{
}

/// Until a read has found the end of the source, checking the clock never
/// stops a run.
pub proof fn lemma_no_stop_before_end(s: Sampler, nanos: nat)
    requires
        s.wf(),
        !s.end_of_stream,
    ensures
        next_action(after_tick(s, nanos)) != Action::Stop,
{
}

/// In passthrough, the bytes written to the primary output are exactly the
/// bytes read, in the order read, however the reports fall between them; with
/// passthrough off, nothing is written there.
pub proof fn lemma_passthrough_copies_input(s: Sampler, events: Seq<Event>)
    ensures
        s.config.passthrough ==> forwarded(s, events) == bytes_read(events),
        !s.config.passthrough ==> forwarded(s, events) == Seq::<u8>::empty(),
    decreases events.len(),
{
    if events.len() > 0 {
        let prefix = events.drop_last();
        lemma_passthrough_copies_input(s, prefix);
        lemma_config_kept(s, prefix);
        match events.last() {
            Event::Data(bytes) => {
                if bytes.len() == 0 {
                    assert(bytes =~= Seq::<u8>::empty());
                }
            },
            _ => {},
        }
        assert(forwarded(s, events) =~= forwarded(s, prefix) + (match events.last() {
            Event::Data(bytes) => if data_reply(run(s, prefix), bytes.len()) == ReadReply::Forward {
                bytes
            } else {
                Seq::empty()
            },
            _ => Seq::empty(),
        }));
    }
}

proof fn lemma_rates_summed(config: Config, events: Seq<Event>)
    requires
        rates_reported(initial_sampler(config), events).len() <= u64::MAX,
    ensures
        run(initial_sampler(config), events).stats.total_measures == rates_reported(
            initial_sampler(config),
            events,
        ).len(),
        run(initial_sampler(config), events).stats.total_rate_accum == rate_total(
            rates_reported(initial_sampler(config), events),
        ),
    decreases events.len(),
{
    let s = initial_sampler(config);
    if events.len() == 0 {
        assert(rates_reported(s, events) =~= Seq::<Rate>::empty());
    } else {
        let prefix = events.drop_last();
        let rates = rates_reported(s, events);
        let earlier = rates_reported(s, prefix);
        assert(rates.len() >= earlier.len());
        lemma_rates_summed(config, prefix);
        match events.last() {
            Event::Tick(nanos) => {
                if report_due(run(s, prefix), nanos) {
                    assert(rates.drop_last() =~= earlier);
                }
                else {
                    assert(rates =~= earlier);
                }
            },
            _ => {
                assert(rates =~= earlier);
            },
        }
    }
}

/// The mean rate that a report shows is the mean of the rates of all intervals
/// reported so far: their sum, divided by their number. Where every one of them
/// is finite and their sum fits, that is the sum of their values divided by
/// their number, rounded down.
pub proof fn lemma_mean_of_rates(config: Config, events: Seq<Event>)
    requires
        rates_reported(initial_sampler(config), events).len() <= u64::MAX,
    ensures
        ({
            let s = run(initial_sampler(config), events);
            let rates = rates_reported(initial_sampler(config), events);
            &&& s.stats.total_measures == rates.len()
            &&& s.stats.total_rate_accum == rate_total(rates)
            &&& rate_div(s.stats.total_rate_accum, s.stats.total_measures as nat) == rate_div(
                rate_total(rates),
                rates.len(),
            )
            &&& (rates.len() > 0 && all_finite(rates) && finite_sum(rates) <= u128::MAX)
                ==> rate_div(s.stats.total_rate_accum, s.stats.total_measures as nat)
                == Rate::Finite((finite_sum(rates) / rates.len()) as u128)
        }),
{
    lemma_rates_summed(config, events);
    let rates = rates_reported(initial_sampler(config), events);
    if all_finite(rates) && finite_sum(rates) <= u128::MAX {
        lemma_finite_total(rates);
    }
}

} // verus!
