use vstd::prelude::*;

use crate::rows::{
    aggregate, aggregate_seq, copy_row, lemma_aggregate_len, outcomes_view, total, widths_view,
    SourceError,
};
use crate::text::string_views;

verus! {

/// Drives the fast and the slow loop on one clock. Fast sources are sampled
/// every tick; slow sources on every `slow_period`-th tick (starting with the
/// first), their row being cached and repeated on the ticks in between.
pub struct Scheduler<V> {
    slow_period: u64,
    tick: u64,
    fast_widths: Vec<usize>,
    slow_widths: Vec<usize>,
    cache: Vec<V>,
    sentinel: V,
}

/// Mathematical form of a scheduler.
pub struct SchedulerModel<V> {
    pub period: nat,
    pub tick: nat,
    pub fast_widths: Seq<nat>,
    pub slow_widths: Seq<nat>,
    pub cache: Seq<V>,
    pub sentinel: V,
}

/// What one tick hands the scheduler: the timestamp, the fast sources'
/// outcomes, and the slow sources' outcomes when they were sampled.
pub struct TickInput<V> {
    pub timestamp: V,
    pub fast: Seq<Option<Seq<V>>>,
    pub slow: Option<Seq<Option<Seq<V>>>>,
}

impl<V> View for Scheduler<V> {
    type V = SchedulerModel<V>;

    closed spec fn view(&self) -> SchedulerModel<V> {
        SchedulerModel {
            period: self.slow_period as nat,
            tick: self.tick as nat,
            fast_widths: widths_view(self.fast_widths@),
            slow_widths: widths_view(self.slow_widths@),
            cache: self.cache@,
            sentinel: self.sentinel,
        }
    }
}

/// A period of at least one tick, a counter inside it, and a cache that holds
/// a complete slow row whenever it is read.
pub open spec fn model_wf<V>(m: SchedulerModel<V>) -> bool {
    &&& m.period >= 1
    &&& m.tick < m.period
    &&& (m.tick == 0 || m.cache.len() == total(m.slow_widths))
}

/// Width of every emitted row: the timestamp, then every fast and every slow metric.
pub open spec fn row_width<V>(m: SchedulerModel<V>) -> nat {
    1 + total(m.fast_widths) + total(m.slow_widths)
}

/// The slow outcomes of a tick; none at all when the slow sources were not sampled.
pub open spec fn slow_outcomes<V>(input: TickInput<V>) -> Seq<Option<Seq<V>>> {
    match input.slow {
        Some(os) => os,
        None => seq![],
    }
}

/// The slow row freshly sampled during `input`.
pub open spec fn fresh_slow<V>(m: SchedulerModel<V>, input: TickInput<V>) -> Seq<V> {
    aggregate_seq(slow_outcomes(input), m.slow_widths, m.sentinel)
}

/// The slow row in use after a tick: fresh on a resample tick, else the cache.
pub open spec fn next_cache<V>(m: SchedulerModel<V>, input: TickInput<V>) -> Seq<V> {
    if m.tick == 0 {
        fresh_slow(m, input)
    } else {
        m.cache
    }
}

/// One tick: the new state and the emitted row
/// `[timestamp] ++ fast row ++ slow row (fresh or cached)`.
pub open spec fn step<V>(m: SchedulerModel<V>, input: TickInput<V>) -> (SchedulerModel<V>, Seq<V>) {
    let cache = next_cache(m, input);
    let row = seq![input.timestamp] + aggregate_seq(input.fast, m.fast_widths, m.sentinel) + cache;
    let tick = if m.tick + 1 == m.period {
        0
    } else {
        m.tick + 1
    };
    (SchedulerModel { tick, cache, ..m }, row)
}

/// The rows emitted over a run of ticks.
pub open spec fn run<V>(m: SchedulerModel<V>, inputs: Seq<TickInput<V>>) -> Seq<Seq<V>>
    decreases inputs.len(),
{
    if inputs.len() == 0 {
        seq![]
    } else {
        seq![step(m, inputs[0]).1] + run(step(m, inputs[0]).0, inputs.drop_first())
    }
}

/// The state after a run of ticks.
pub open spec fn after<V>(m: SchedulerModel<V>, inputs: Seq<TickInput<V>>) -> SchedulerModel<V>
    decreases inputs.len(),
{
    if inputs.len() == 0 {
        m
    } else {
        after(step(m, inputs[0]).0, inputs.drop_first())
    }
}

/// The slow-loop columns of an emitted row.
pub open spec fn slow_columns<V>(m: SchedulerModel<V>, row: Seq<V>) -> Seq<V> {
    row.subrange(1 + total(m.fast_widths) as int, row.len() as int)
}

/// A run emits one row per tick.
pub proof fn lemma_run_len<V>(m: SchedulerModel<V>, inputs: Seq<TickInput<V>>)
    ensures
        run(m, inputs).len() == inputs.len(),
    decreases inputs.len(),
{
    if inputs.len() > 0 {
        lemma_run_len(step(m, inputs[0]).0, inputs.drop_first());
    }
}

/// One tick keeps the configuration and well-formedness, emits a row of the
/// fixed width, and that row's slow columns are the cache in use afterwards.
pub proof fn lemma_step<V>(m: SchedulerModel<V>, input: TickInput<V>)
    requires
        model_wf(m),
    ensures
        model_wf(step(m, input).0),
        step(m, input).0.period == m.period,
        step(m, input).0.fast_widths == m.fast_widths,
        step(m, input).0.slow_widths == m.slow_widths,
        step(m, input).0.sentinel == m.sentinel,
        step(m, input).0.cache == next_cache(m, input),
        step(m, input).1.len() == row_width(m),
        slow_columns(m, step(m, input).1) == next_cache(m, input),
{
    lemma_aggregate_len(input.fast, m.fast_widths, m.sentinel);
    lemma_aggregate_len(slow_outcomes(input), m.slow_widths, m.sentinel);
    let row = step(m, input).1;
    assert(slow_columns(m, row) =~= next_cache(m, input));
}

/// Every row of every run, however long, is as wide as the header:
/// one timestamp plus the metrics of all fast and all slow sources.
pub proof fn lemma_row_width_invariant<V>(m: SchedulerModel<V>, inputs: Seq<TickInput<V>>)
    requires
        model_wf(m),
    ensures
        run(m, inputs).len() == inputs.len(),
        forall|k: int| 0 <= k < inputs.len() ==> (#[trigger] run(m, inputs)[k]).len() == row_width(m),
    decreases inputs.len(),
{
    if inputs.len() > 0 {
        lemma_step(m, inputs[0]);
        let m2 = step(m, inputs[0]).0;
        lemma_row_width_invariant(m2, inputs.drop_first());
        lemma_run_len(m2, inputs.drop_first());
        assert forall|k: int| 0 <= k < inputs.len() implies (#[trigger] run(m, inputs)[k]).len()
            == row_width(m) by {
            if k > 0 {
                assert(run(m, inputs)[k] == run(m2, inputs.drop_first())[k - 1]);
            }
        }
    }
}

/// Between resample ticks the cache is repeated: from a tick other than a
/// resample tick, as long as no resample tick is reached, every row's slow
/// columns are the cached row.
pub proof fn lemma_cache_repeated<V>(m: SchedulerModel<V>, inputs: Seq<TickInput<V>>)
    requires
        model_wf(m),
        m.tick > 0,
        m.tick + inputs.len() <= m.period,
    ensures
        forall|k: int| 0 <= k < inputs.len() ==> slow_columns(m, #[trigger] run(m, inputs)[k]) == m.cache,
    decreases inputs.len(),
{
    if inputs.len() > 0 {
        lemma_step(m, inputs[0]);
        let m2 = step(m, inputs[0]).0;
        lemma_run_len(m2, inputs.drop_first());
        if inputs.len() > 1 {
            lemma_cache_repeated(m2, inputs.drop_first());
        }
        assert forall|k: int| 0 <= k < inputs.len() implies slow_columns(m, #[trigger] run(m, inputs)[k])
            == m.cache by {
            if k > 0 {
                assert(run(m, inputs)[k] == run(m2, inputs.drop_first())[k - 1]);
            }
        }
    }
}

/// Cache correctness within a period: starting on a resample tick, the slow
/// columns of the next `period` rows all equal the slow row sampled on that
/// first tick.
pub proof fn lemma_slow_columns_held<V>(m: SchedulerModel<V>, inputs: Seq<TickInput<V>>)
    requires
        model_wf(m),
        m.tick == 0,
        1 <= inputs.len() <= m.period,
    ensures
        forall|k: int|
            0 <= k < inputs.len() ==> slow_columns(m, #[trigger] run(m, inputs)[k]) == fresh_slow(
                m,
                inputs[0],
            ),
{
    lemma_step(m, inputs[0]);
    let m2 = step(m, inputs[0]).0;
    lemma_run_len(m2, inputs.drop_first());
    if inputs.len() > 1 {
        lemma_cache_repeated(m2, inputs.drop_first());
    }
    assert forall|k: int| 0 <= k < inputs.len() implies slow_columns(m, #[trigger] run(m, inputs)[k])
        == fresh_slow(m, inputs[0]) by {
        if k > 0 {
            assert(run(m, inputs)[k] == run(m2, inputs.drop_first())[k - 1]);
        }
    }
}

/// Running two stretches of ticks one after the other emits the rows of the
/// first and then those of the second, started from where the first ended.
pub proof fn lemma_run_split<V>(m: SchedulerModel<V>, a: Seq<TickInput<V>>, b: Seq<TickInput<V>>)
    ensures
        run(m, a + b) == run(m, a) + run(after(m, a), b),
    decreases a.len(),
{
    if a.len() == 0 {
        assert(a + b =~= b);
        assert(run(m, a) + run(after(m, a), b) =~= run(after(m, a), b));
    } else {
        let m2 = step(m, a[0]).0;
        assert((a + b).drop_first() =~= a.drop_first() + b);
        assert((a + b)[0] == a[0]);
        lemma_run_split(m2, a.drop_first(), b);
        assert(run(m, a + b) =~= run(m, a) + run(after(m, a), b));
    }
}

/// Counting: from tick `t`, a stretch of `n` ticks that does not pass the end
/// of the period leaves the counter at `t + n`, or at zero when it ends the period.
pub proof fn lemma_after_counts<V>(m: SchedulerModel<V>, inputs: Seq<TickInput<V>>)
    requires
        model_wf(m),
        m.tick + inputs.len() <= m.period,
    ensures
        model_wf(after(m, inputs)),
        after(m, inputs).period == m.period,
        after(m, inputs).fast_widths == m.fast_widths,
        after(m, inputs).slow_widths == m.slow_widths,
        after(m, inputs).sentinel == m.sentinel,
        after(m, inputs).tick == if m.tick + inputs.len() == m.period {
            0
        } else {
            m.tick + inputs.len()
        },
    decreases inputs.len(),
{
    if inputs.len() > 0 {
        lemma_step(m, inputs[0]);
        let m2 = step(m, inputs[0]).0;
        if m.tick + 1 == m.period {
            assert(inputs.drop_first().len() == 0);
            assert(after(m2, inputs.drop_first()) == m2);
        } else {
            lemma_after_counts(m2, inputs.drop_first());
        }
    }
}

/// Cache correctness at the boundary: starting on a resample tick, the row
/// emitted `period` ticks later carries the slow row sampled on that tick,
/// not the cached one.
pub proof fn lemma_slow_columns_refreshed<V>(m: SchedulerModel<V>, inputs: Seq<TickInput<V>>)
    requires
        model_wf(m),
        m.tick == 0,
        inputs.len() == m.period + 1,
    ensures
        slow_columns(m, run(m, inputs)[m.period as int]) == fresh_slow(m, inputs[m.period as int]),
{
    let p = m.period as int;
    let a = inputs.subrange(0, p);
    let b = inputs.subrange(p, p + 1);
    assert(inputs =~= a + b);
    lemma_run_split(m, a, b);
    lemma_after_counts(m, a);
    let m2 = after(m, a);
    lemma_row_width_invariant(m, a);
    assert(b.len() == 1);
    lemma_step(m2, b[0]);
    assert(b.drop_first().len() == 0);
    assert(run(step(m2, b[0]).0, b.drop_first()) == Seq::<Seq<V>>::empty());
    assert(run(m2, b) =~= seq![step(m2, b[0]).1]);
    assert(run(m, inputs)[p] == step(m2, b[0]).1);
}

impl<V: Copy> Scheduler<V> {
    /// Well-formedness of the scheduler's state.
    pub open spec fn wf(&self) -> bool {
        model_wf(self@)
    }

    /// A scheduler for sources of the given widths (metrics per source, in
    /// configured order), resampling the slow loop every `slow_period` ticks.
    /// There is none for a period of zero ticks.
    pub fn new(slow_period: u64, fast_widths: Vec<usize>, slow_widths: Vec<usize>, sentinel: V) -> (r: Option<Scheduler<V>>)
        ensures
            r is None <==> slow_period == 0,
            r matches Some(s) ==> s.wf() && s@ == (SchedulerModel {
                period: slow_period as nat,
                tick: 0,
                fast_widths: widths_view(fast_widths@),
                slow_widths: widths_view(slow_widths@),
                cache: Seq::<V>::empty(),
                sentinel,
            }),
    {
        if slow_period == 0 {
            None
        } else {
            Some(Scheduler { slow_period, tick: 0, fast_widths, slow_widths, cache: Vec::new(), sentinel })
        }
    }

    /// Whether the slow sources are to be sampled on this tick.
    pub fn resample_due(&self) -> (r: bool)
        ensures
            r == (self@.tick == 0),
    {
        self.tick == 0
    }

    /// Finishes a tick and returns its row. `fast` holds the fast sources'
    /// outcomes in order; `slow` the slow sources' outcomes, which are used
    /// only on a resample tick (a resample tick without them reports sentinels).
    pub fn emit(
        &mut self,
        timestamp: V,
        fast: &Vec<Result<Vec<V>, SourceError>>,
        slow: &Option<Vec<Result<Vec<V>, SourceError>>>,
    ) -> (r: Vec<V>)
        requires
            old(self).wf(),
        ensures
            final(self).wf(),
            (final(self)@, r@) == step(
                old(self)@,
                TickInput {
                    timestamp,
                    fast: outcomes_view(fast@),
                    slow: match slow {
                        Some(os) => Some(outcomes_view(os@)),
                        None => None,
                    },
                },
            ),
    {
        let ghost input = TickInput {
            timestamp,
            fast: outcomes_view(fast@),
            slow: match slow {
                Some(os) => Some(outcomes_view(os@)),
                None => None,
            },
        };
        proof {
            lemma_step(self@, input);
        }
        let mut row: Vec<V> = Vec::new();
        row.push(timestamp);
        let mut fast_part = aggregate(fast, &self.fast_widths, self.sentinel);
        row.append(&mut fast_part);
        if self.tick == 0 {
            let fresh = match slow {
                Some(os) => aggregate(os, &self.slow_widths, self.sentinel),
                None => {
                    let none: Vec<Result<Vec<V>, SourceError>> = Vec::new();
                    proof {
                        assert(outcomes_view(none@) =~= seq![]);
                    }
                    aggregate(&none, &self.slow_widths, self.sentinel)
                },
            };
            self.cache = fresh;
        }
        let mut cached = copy_row(&self.cache);
        row.append(&mut cached);
        self.tick = if self.tick + 1 == self.slow_period {
            0
        } else {
            self.tick + 1
        };
        assert(row@ =~= step(old(self)@, input).1);
        row
    }
}

/// Names of the columns a row carries: `timestamp`, then every fast source's
/// metric names, then every slow source's, in configured order.
pub open spec fn header_seq(fast: Seq<Seq<Seq<char>>>, slow: Seq<Seq<Seq<char>>>) -> Seq<Seq<char>> {
    seq!["timestamp"@] + names_flat(fast) + names_flat(slow)
}

/// Concatenation of per-source name lists.
pub open spec fn names_flat(names: Seq<Seq<Seq<char>>>) -> Seq<Seq<char>>
    decreases names.len(),
{
    if names.len() == 0 {
        seq![]
    } else {
        names_flat(names.drop_last()) + names.last()
    }
}

/// Views of per-source name lists.
pub open spec fn names_view(names: Seq<Vec<String>>) -> Seq<Seq<Seq<char>>> {
    names.map_values(|ns: Vec<String>| string_views(ns@))
}

/// Number of metrics of each source, from its names.
pub open spec fn name_counts(names: Seq<Seq<Seq<char>>>) -> Seq<nat> {
    names.map_values(|ns: Seq<Seq<char>>| ns.len())
}

/// The header is exactly as wide as every emitted row, when the scheduler was
/// set up with the sources' name counts.
pub proof fn lemma_header_matches_rows(fast: Seq<Seq<Seq<char>>>, slow: Seq<Seq<Seq<char>>>)
    ensures
        header_seq(fast, slow).len() == 1 + total(name_counts(fast)) + total(name_counts(slow)),
{
    lemma_names_flat_len(fast);
    lemma_names_flat_len(slow);
}

proof fn lemma_names_flat_len(names: Seq<Seq<Seq<char>>>)
    ensures
        names_flat(names).len() == total(name_counts(names)),
    decreases names.len(),
{
    if names.len() > 0 {
        lemma_names_flat_len(names.drop_last());
        assert(name_counts(names).drop_last() =~= name_counts(names.drop_last()));
    }
}

/// Appends copies of `names` to `out`.
fn push_names(out: &mut Vec<String>, names: &Vec<String>)
    ensures
        string_views(final(out)@) == string_views(old(out)@) + string_views(names@),
{
    let ghost start = string_views(out@);
    let mut i: usize = 0;
    while i < names.len()
        invariant
            i <= names@.len(),
            string_views(out@) == start + string_views(names@.subrange(0, i as int)),
        decreases names@.len() - i,
    {
        let n = names[i].clone();
        let ghost prev = out@;
        out.push(n);
        proof {
            assert(string_views(out@) =~= string_views(prev).push(names@[i as int]@));
            assert(string_views(names@.subrange(0, i + 1)) =~= string_views(
                names@.subrange(0, i as int),
            ).push(names@[i as int]@));
        }
        i = i + 1;
        assert(string_views(out@) =~= start + string_views(names@.subrange(0, i as int)));
    }
    assert(names@.subrange(0, names@.len() as int) =~= names@);
}

fn push_all_names(out: &mut Vec<String>, lists: &Vec<Vec<String>>)
    ensures
        string_views(final(out)@) == string_views(old(out)@) + names_flat(
            names_view(lists@),
        ),
{
    let ghost start = string_views(out@);
    let mut i: usize = 0;
    while i < lists.len()
        invariant
            i <= lists@.len(),
            string_views(out@) == start + names_flat(names_view(lists@.subrange(0, i as int))),
        decreases lists@.len() - i,
    {
        push_names(out, &lists[i]);
        proof {
            let v = names_view(lists@.subrange(0, i + 1));
            assert(v.drop_last() =~= names_view(lists@.subrange(0, i as int)));
        }
        i = i + 1;
        assert(string_views(out@) =~= start + names_flat(names_view(lists@.subrange(0, i as int))));
    }
    assert(lists@.subrange(0, lists@.len() as int) =~= lists@);
}

/// The header written once at startup: `timestamp`, then the fast sources'
/// names, then the slow sources' names.
pub fn header(fast: &Vec<Vec<String>>, slow: &Vec<Vec<String>>) -> (r: Vec<String>)
    ensures
        string_views(r@) == header_seq(names_view(fast@), names_view(slow@)),
{
    let mut r: Vec<String> = Vec::new();
    r.push(String::from_str("timestamp"));
    assert(string_views(r@) =~= seq!["timestamp"@]);
    push_all_names(&mut r, fast);
    push_all_names(&mut r, slow);
    r
}

/// The number of metrics of each source, from its names.
pub fn widths_of(names: &Vec<Vec<String>>) -> (r: Vec<usize>)
    ensures
        widths_view(r@) == name_counts(names_view(names@)),
{
    let mut r: Vec<usize> = Vec::new();
    let mut i: usize = 0;
    while i < names.len()
        invariant
            i <= names@.len(),
            widths_view(r@) == name_counts(names_view(names@.subrange(0, i as int))),
        decreases names@.len() - i,
    {
        let ghost prev = r@;
        r.push(names[i].len());
        proof {
            let w = names@[i as int]@.len();
            assert(string_views(names@[i as int]@).len() == w);
            assert(widths_view(r@) =~= widths_view(prev).push(w));
            assert(name_counts(names_view(names@.subrange(0, i + 1))) =~= name_counts(
                names_view(names@.subrange(0, i as int)),
            ).push(w));
        }
        i = i + 1;
        assert(widths_view(r@) =~= name_counts(names_view(names@.subrange(0, i as int))));
    }
    assert(names@.subrange(0, names@.len() as int) =~= names@);
    r
}

} // verus!
