use vstd::prelude::*;

verus! {

/// Why a source could not produce its readings. Every kind is handled the same
/// way (sentinel readings for the source's metrics); only diagnostics differ.
#[derive(Clone, Copy, Debug, PartialEq, Eq, Structural)]
pub enum SourceError {
    /// Connection failure, timeout, or a non-success HTTP status.
    Transport,
    /// A non-zero application error code, or a malformed body.
    Protocol,
    /// Missing, reordered or too few data points.
    DataShape,
    /// Logging in failed.
    Auth,
}

/// A row of `width` copies of `sentinel`.
pub open spec fn sentinel_seq<V>(width: nat, sentinel: V) -> Seq<V> {
    Seq::new(width, |_i: int| sentinel)
}

/// What a sampling attempt yielded: its readings, or nothing on failure.
pub open spec fn outcome_view<V>(o: Result<Vec<V>, SourceError>) -> Option<Seq<V>> {
    match o {
        Ok(row) => Some(row@),
        Err(_) => None,
    }
}

/// Views of a list of sampling outcomes.
pub open spec fn outcomes_view<V>(os: Seq<Result<Vec<V>, SourceError>>) -> Seq<Option<Seq<V>>> {
    os.map_values(|o: Result<Vec<V>, SourceError>| outcome_view(o))
}

/// The row a source of `width` metrics contributes: its readings when it
/// produced exactly one per metric, otherwise one sentinel per metric.
pub open spec fn settled<V>(o: Option<Seq<V>>, width: nat, sentinel: V) -> Seq<V> {
    match o {
        Some(row) => if row.len() == width {
            row
        } else {
            sentinel_seq(width, sentinel)
        },
        None => sentinel_seq(width, sentinel),
    }
}

/// The outcome of source `i`, or none when no outcome was supplied for it.
pub open spec fn outcome_at<V>(os: Seq<Option<Seq<V>>>, i: int) -> Option<Seq<V>> {
    if 0 <= i < os.len() {
        os[i]
    } else {
        None
    }
}

/// Sum of a list of widths.
pub open spec fn total(widths: Seq<nat>) -> nat
    decreases widths.len(),
{
    if widths.len() == 0 {
        0
    } else {
        total(widths.drop_last()) + widths.last()
    }
}

/// Widths as natural numbers.
pub open spec fn widths_view(widths: Seq<usize>) -> Seq<nat> {
    widths.map_values(|w: usize| w as nat)
}

/// One tick's readings of a list of sources, concatenated in source order,
/// each source settled to its own width.
pub open spec fn aggregate_seq<V>(os: Seq<Option<Seq<V>>>, widths: Seq<nat>, sentinel: V) -> Seq<V>
    decreases widths.len(),
{
    if widths.len() == 0 {
        seq![]
    } else {
        aggregate_seq(os, widths.drop_last(), sentinel) + settled(
            outcome_at(os, widths.len() - 1),
            widths.last(),
            sentinel,
        )
    }
}

/// A concatenated row is as wide as the sum of its sources' widths.
pub proof fn lemma_aggregate_len<V>(os: Seq<Option<Seq<V>>>, widths: Seq<nat>, sentinel: V)
    ensures
        aggregate_seq(os, widths, sentinel).len() == total(widths),
    decreases widths.len(),
{
    if widths.len() > 0 {
        lemma_aggregate_len(os, widths.drop_last(), sentinel);
    }
}

/// Builds the row reported for a source that could not be sampled: one
/// sentinel per metric.
pub fn sentinel_row<V: Copy>(width: usize, sentinel: V) -> (r: Vec<V>)
    ensures
        r@ == sentinel_seq(width as nat, sentinel),
{
    let mut r: Vec<V> = Vec::new();
    let mut i: usize = 0;
    while i < width
        invariant
            i <= width,
            r@ == sentinel_seq(i as nat, sentinel),
        decreases width - i,
    {
        r.push(sentinel);
        i = i + 1;
        assert(r@ =~= sentinel_seq(i as nat, sentinel));
    }
    r
}

/// Copies a row.
pub fn copy_row<V: Copy>(row: &Vec<V>) -> (r: Vec<V>)
    ensures
        r@ == row@,
{
    let mut r: Vec<V> = Vec::new();
    let mut i: usize = 0;
    while i < row.len()
        invariant
            i <= row.len(),
            r@ == row@.subrange(0, i as int),
        decreases row.len() - i,
    {
        r.push(row[i]);
        i = i + 1;
        assert(r@ =~= row@.subrange(0, i as int));
    }
    assert(r@ =~= row@);
    r
}

/// The row a source of `width` metrics contributes for one sampling outcome.
pub fn settle<V: Copy>(outcome: &Result<Vec<V>, SourceError>, width: usize, sentinel: V) -> (r: Vec<V>)
    ensures
        r@ == settled(outcome_view(*outcome), width as nat, sentinel),
{
    match outcome {
        Ok(row) => {
            if row.len() == width {
                copy_row(row)
            } else {
                sentinel_row(width, sentinel)
            }
        },
        Err(_) => sentinel_row(width, sentinel),
    }
}

/// The value of a reading known to be present.
pub open spec fn present<V>(o: Option<V>, fallback: V) -> V {
    match o {
        Some(v) => v,
        None => fallback,
    }
}

/// Readings of one source whose metrics are fetched one by one: all of them
/// when every fetch succeeded, otherwise the sentinel for every metric.
pub open spec fn complete_row<V>(values: Seq<Option<V>>, sentinel: V) -> Seq<V> {
    if exists|i: int| 0 <= i < values.len() && #[trigger] values[i] is None {
        sentinel_seq(values.len(), sentinel)
    } else {
        values.map_values(|o: Option<V>| present(o, sentinel))
    }
}

/// The row of a source whose metrics are fetched one by one: a single failed
/// fetch makes the whole row sentinels.
pub fn complete_or_sentinel<V: Copy>(values: &Vec<Option<V>>, sentinel: V) -> (r: Vec<V>)
    ensures
        r@ == complete_row(values@, sentinel),
        (exists|i: int| 0 <= i < values@.len() && #[trigger] values@[i] is None) ==> r@ == sentinel_seq(
            values@.len(),
            sentinel,
        ),
{
    let mut r: Vec<V> = Vec::new();
    let mut i: usize = 0;
    while i < values.len()
        invariant
            i <= values@.len(),
            r@ == values@.subrange(0, i as int).map_values(|o: Option<V>| present(o, sentinel)),
            forall|j: int| 0 <= j < i ==> #[trigger] values@[j] is Some,
        decreases values@.len() - i,
    {
        match values[i] {
            Some(v) => {
                let ghost prev = r@;
                r.push(v);
                assert(values@.subrange(0, i + 1).map_values(|o: Option<V>| present(o, sentinel))
                    =~= prev.push(v));
            },
            None => {
                assert(values@[i as int] is None);
                return sentinel_row(values.len(), sentinel);
            },
        }
        i = i + 1;
    }
    assert(values@.subrange(0, values@.len() as int) =~= values@);
    r
}

/// Concatenates one tick's readings of a list of sources, in source order.
/// Source `i` has `widths[i]` metrics; an outcome that is missing, failed, or
/// of the wrong width is replaced by sentinels.
pub fn aggregate<V: Copy>(outcomes: &Vec<Result<Vec<V>, SourceError>>, widths: &Vec<usize>, sentinel: V) -> (r: Vec<V>)
    ensures
        r@ == aggregate_seq(outcomes_view(outcomes@), widths_view(widths@), sentinel),
{
    let ghost os = outcomes_view(outcomes@);
    let mut r: Vec<V> = Vec::new();
    let mut i: usize = 0;
    while i < widths.len()
        invariant
            i <= widths@.len(),
            os == outcomes_view(outcomes@),
            r@ == aggregate_seq(os, widths_view(widths@.subrange(0, i as int)), sentinel),
        decreases widths@.len() - i,
    {
        let mut part = if i < outcomes.len() {
            settle(&outcomes[i], widths[i], sentinel)
        } else {
            sentinel_row(widths[i], sentinel)
        };
        proof {
            let ws = widths_view(widths@.subrange(0, i + 1));
            assert(ws.drop_last() =~= widths_view(widths@.subrange(0, i as int)));
            assert(ws.last() == widths@[i as int] as nat);
        }
        r.append(&mut part);
        i = i + 1;
    }
    assert(widths@.subrange(0, widths@.len() as int) =~= widths@);
    r
}

} // verus!
