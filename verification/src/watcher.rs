//! Per-second tick decisions.
//!
//! The host application runs the sampling loop: once a second it asks the
//! operating system for the focused window, hands the outcome to
//! [`MinuteAccumulator::tick`] together with the wall-clock seconds elapsed
//! since the current aggregation window started, publishes whatever events the
//! tick returns, and sleeps. Everything the loop decides — normalization,
//! aggregation, when to flush, what each event carries — happens here and is
//! verified; the host only moves values.

use vstd::prelude::*;
use crate::accumulator::ActiveWindowPayload;
use crate::accumulator::MinuteAccumulator;
use crate::accumulator::MinuteActiveSummary;
use crate::accumulator::count_of;
use crate::accumulator::record_step;
use crate::accumulator::sum_of_counts;
use crate::accumulator::unique_keys;
use crate::key::spec_normalize_exec_name;
use crate::key::spec_window_key;

verus! {

/// Wall-clock length of one aggregation window, in seconds.
pub const SECONDS_PER_WINDOW: u64 = 60;

/// One successful per-second observation of the focused window. Either field
/// may be empty.
pub struct Sample {
    /// Raw window title as the operating system reported it.
    pub title: String,
    /// Raw executable name of the owning process.
    pub executable_name: String,
}

/// What the host must publish after one tick: at most one per-sample
/// `WINDOW_ACTIVE` notification and at most one `WINDOW_ACTIVE_MINUTE`
/// summary, in this order.
pub struct TickEvents {
    /// Present exactly when the tick's sample succeeded.
    pub window_active: Option<ActiveWindowPayload>,
    /// Present exactly when the aggregation window was flushed this tick.
    pub minute_summary: Option<MinuteActiveSummary>,
}

/// The per-window counters after one tick: a successful sample bumps the
/// counter under its window key, a failed one changes nothing.
pub open spec fn tick_counts(m: Map<Seq<char>, u64>, sample: Option<Sample>) -> Map<
    Seq<char>,
    u64,
> {
    match sample {
        Option::Some(s) => record_step(m, spec_window_key(s.title@, s.executable_name@)),
        Option::None => m,
    }
}

/// The counted seconds after one tick: a successful sample adds one, a failed
/// one adds nothing.
pub open spec fn tick_total(t: int, sample: Option<Sample>) -> int {
    match sample {
        Option::Some(_) => t + 1,
        Option::None => t,
    }
}

impl MinuteAccumulator {
    /// One tick of the sampling loop. First the sample outcome is folded into
    /// the counters (a failure is silently skipped); then, when at least
    /// [`SECONDS_PER_WINDOW`] wall-clock seconds have elapsed since the
    /// current window started, the window is flushed and reset. On a flush
    /// the host must also restart its elapsed-time measurement.
    pub fn tick(&mut self, sample: Option<Sample>, elapsed_secs: u64) -> (events: TickEvents)
        requires
            old(self).wf(),
            sample is Some ==> old(self).total() < u64::MAX,
        ensures
            final(self).wf(),
            sample matches Some(s) ==> (events.window_active matches Some(p)
                && p.title@ == s.title@
                && (p.app_name matches Some(a)
                    && a@ == spec_normalize_exec_name(s.executable_name@))),
            sample is None ==> events.window_active is None,
            elapsed_secs >= SECONDS_PER_WINDOW ==> (events.minute_summary matches Some(summary)
                && summary.total_secs == tick_total(old(self).total() as int, sample)
                && summary.by_title_app_map() == tick_counts(old(self).counts_map(), sample)
                && unique_keys(summary.by_title_app@)
                && sum_of_counts(summary.by_title_app@) == summary.total_secs
                && final(self).counts_map() == Map::<Seq<char>, u64>::empty()
                && final(self).num_windows() == 0
                && final(self).total() == 0),
            elapsed_secs < SECONDS_PER_WINDOW ==> (events.minute_summary is None
                && final(self).counts_map() == tick_counts(old(self).counts_map(), sample)
                && final(self).total() == tick_total(old(self).total() as int, sample)),
    {
        let window_active = match sample {
            Option::Some(s) => Option::Some(
                self.record_sample(s.title.as_str(), s.executable_name.as_str()),
            ),
            Option::None => Option::None,
        };
        let minute_summary = if elapsed_secs >= SECONDS_PER_WINDOW {
            Option::Some(self.flush())
        } else {
            Option::None
        };
        TickEvents { window_active, minute_summary }
    }
}

/// The per-window counters a fresh accumulator holds after the given run of
/// tick outcomes (`None` marks a tick whose sample failed), assuming no flush
/// happens during the run.
pub open spec fn run_counts(samples: Seq<Option<Sample>>) -> Map<Seq<char>, u64>
    decreases samples.len(),
{
    if samples.len() == 0 {
        Map::empty()
    } else {
        tick_counts(run_counts(samples.drop_last()), samples.last())
    }
}

/// The counted seconds a fresh accumulator holds after the given run of tick
/// outcomes, assuming no flush happens during the run.
pub open spec fn run_total(samples: Seq<Option<Sample>>) -> int
    decreases samples.len(),
{
    if samples.len() == 0 {
        0
    } else {
        tick_total(run_total(samples.drop_last()), samples.last())
    }
}

/// How many ticks of the run carried a successful sample.
pub open spec fn successful_ticks(samples: Seq<Option<Sample>>) -> int
    decreases samples.len(),
{
    if samples.len() == 0 {
        0
    } else {
        successful_ticks(samples.drop_last()) + (if samples.last() is Some {
            1int
        } else {
            0int
        })
    }
}

/// Failed ticks are skipped: over any run of ticks, the counted total is
/// exactly the number of ticks whose sample succeeded — with `F` failures
/// among `N` ticks the total is `N - F`.
pub proof fn lemma_run_total_counts_successes(samples: Seq<Option<Sample>>)
    ensures
        run_total(samples) == successful_ticks(samples),
    decreases samples.len(),
{
    if samples.len() > 0 {
        lemma_run_total_counts_successes(samples.drop_last());
    }
}

/// Identical samples aggregate: a run of successful samples that all carry
/// the same title and executable name counts every tick in the total and
/// leaves the run's whole length as the counter under the one shared window
/// key.
pub proof fn lemma_identical_samples_aggregate(
    samples: Seq<Option<Sample>>,
    title: Seq<char>,
    exec_name: Seq<char>,
)
    requires
        samples.len() <= u64::MAX,
        forall|i: int|
            0 <= i < samples.len() ==> (#[trigger] samples[i] matches Some(s) && s.title@ == title
                && s.executable_name@ == exec_name),
    ensures
        run_total(samples) == samples.len(),
        samples.len() > 0 ==> count_of(run_counts(samples), spec_window_key(title, exec_name))
            == samples.len(),
    decreases samples.len(),
{
    let k = spec_window_key(title, exec_name);
    if samples.len() > 0 {
        let prefix = samples.drop_last();
        assert forall|i: int|
            0 <= i < prefix.len() implies (#[trigger] prefix[i] matches Some(s) && s.title@
            == title && s.executable_name@ == exec_name) by {
            assert(prefix[i] == samples[i]);
        }
        lemma_identical_samples_aggregate(prefix, title, exec_name);
        assert(samples[samples.len() - 1] matches Some(s) && s.title@ == title
            && s.executable_name@ == exec_name);
        if prefix.len() > 0 {
            assert(count_of(run_counts(prefix), k) == prefix.len());
        }
        assert(count_of(run_counts(samples), k) == (count_of(run_counts(prefix), k) + 1) as u64);
    }
}

} // verus!
