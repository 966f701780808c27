//! The series builder: the second pass that walks the completed candles in
//! ascending cycle-id order and derives the stacked heap bar series.
//!
//! Each retained cycle contributes two points, before and after the
//! collection, at x-positions a fixed stride apart. The x-axis unit here is
//! a tenth of the chart unit, so the stride of 2.3 chart units between
//! cycles and the offset of 1.0 between the two points of one cycle appear
//! as 23 and 10; the charting layer divides by ten.
//!
//! Promotion accounting that exceeds the reported young occupancy is a
//! semantic inconsistency of the input: the point falls back to the raw
//! occupancy values with zero attributed tenured bytes, and a diagnostic is
//! recorded instead of aborting.

use vstd::prelude::*;
use vstd::string::StringExecFns;

use crate::aggregate::CandleMap;
use crate::candle::CandleView;
use crate::candle::spec_title;
use crate::events::CollectionType;
use crate::events::CollectionTypeSet;
use crate::text::point_label;
use crate::text::spec_decimal;
use crate::text::spec_point_label;
use crate::text::u64_to_string;

verus! {

/// Whether a candle reaches the output: the sentinel bucket and the
/// excluded collection types do not.
pub open spec fn is_emitted(c: CandleView, exclude: CollectionTypeSet) -> bool {
    c.gc_id != u64::MAX && !exclude.spec_contains(c.collection_type)
}

/// The candles that reach the output, in their map order.
pub open spec fn emitted(cs: Seq<CandleView>, exclude: CollectionTypeSet) -> Seq<CandleView>
    decreases cs.len(),
{
    if cs.len() == 0 {
        Seq::empty()
    } else {
        let rest = emitted(cs.drop_last(), exclude);
        if is_emitted(cs.last(), exclude) {
            rest.push(cs.last())
        } else {
            rest
        }
    }
}

/// Every emitted candle passes the emission test; in particular the
/// sentinel bucket of the events without a cycle id never reaches the
/// output.
pub proof fn lemma_sentinel_never_emitted(cs: Seq<CandleView>, exclude: CollectionTypeSet)
    ensures
        forall|k: int|
            0 <= k < emitted(cs, exclude).len() ==> is_emitted(
                #[trigger] emitted(cs, exclude)[k],
                exclude,
            ) && emitted(cs, exclude)[k].gc_id != u64::MAX,
    decreases cs.len(),
{
    if cs.len() > 0 {
        lemma_sentinel_never_emitted(cs.drop_last(), exclude);
    }
}

/// The candles of one collection type, dropped from an already-emitted
/// sequence; the others keep their relative order.
pub open spec fn drop_type(em: Seq<CandleView>, t: CollectionType) -> Seq<CandleView>
    decreases em.len(),
{
    if em.len() == 0 {
        Seq::empty()
    } else {
        let rest = drop_type(em.drop_last(), t);
        if em.last().collection_type == t {
            rest
        } else {
            rest.push(em.last())
        }
    }
}

/// Excluding one more collection type removes exactly the points of the
/// cycles with that type and leaves all others, in unchanged relative
/// order.
pub proof fn lemma_exclude_filters(
    cs: Seq<CandleView>,
    exclude: CollectionTypeSet,
    wider: CollectionTypeSet,
    t: CollectionType,
)
    requires
        forall|t2: CollectionType|
            wider.spec_contains(t2) == (t2 == t || exclude.spec_contains(t2)),
    ensures
        emitted(cs, wider) == drop_type(emitted(cs, exclude), t),
    decreases cs.len(),
{
    if cs.len() > 0 {
        lemma_exclude_filters(cs.drop_last(), exclude, wider, t);
        let em = emitted(cs.drop_last(), exclude);
        if is_emitted(cs.last(), exclude) {
            assert(em.push(cs.last()).drop_last() =~= em);
        }
        assert(emitted(cs, wider) =~= drop_type(emitted(cs, exclude), t));
    }
}

/// The four chart values of one point: the stacked bars.
pub struct PointVals {
    pub heap: u64,
    pub tenured: u64,
    pub young: u64,
    pub survivors: u64,
}

/// Promotion accounting that exceeds the reported young-generation
/// occupancy: the before point's inconsistency condition.
pub open spec fn before_inconsistent(c: CandleView) -> bool {
    c.tenured > c.young_before + c.survivors_before
}

/// The "before" point of a cycle.
///
/// The old-generation bytes are the total minus the young occupancy. When
/// the accounting is consistent, the cumulative tenured bytes are carved
/// out of young first and then out of the survivors; otherwise the raw
/// occupancy is reported with zero tenured bytes.
pub open spec fn before_point(c: CandleView) -> PointVals {
    let heap = (c.before_gc - c.young_before) as u64;
    if before_inconsistent(c) {
        PointVals { heap, tenured: 0, young: c.young_before, survivors: c.survivors_before }
    } else {
        PointVals {
            heap,
            tenured: c.tenured,
            young: c.young_before.saturating_sub(c.tenured),
            survivors: (c.survivors_before - c.tenured.saturating_sub(c.young_before)) as u64,
        }
    }
}

/// The "after" point of a cycle.
///
/// When the total left after the collection covers the tenured bytes, they
/// are shown in full and taken out of the old-generation bar; otherwise the
/// point falls back to the raw occupancy with zero tenured bytes.
pub open spec fn after_point(c: CandleView) -> PointVals {
    if c.after_gc < c.tenured {
        PointVals {
            heap: (c.after_gc - c.young_after) as u64,
            tenured: 0,
            young: c.young_after,
            survivors: c.survivors_after,
        }
    } else {
        PointVals {
            heap: (c.after_gc - c.young_after - c.tenured) as u64,
            tenured: c.tenured,
            young: c.young_after,
            survivors: c.survivors_after,
        }
    }
}

/// What the builder's subtractions rely on: the reported totals cover the
/// young occupancy they are charged with at each point.
pub open spec fn chartable(c: CandleView) -> bool {
    &&& c.before_gc >= c.young_before
    &&& (c.after_gc < c.tenured ==> c.after_gc >= c.young_after)
    &&& (c.after_gc >= c.tenured ==> c.after_gc >= c.young_after + c.tenured)
}

/// The consistency guard alone keeps the survivor adjustment in range:
/// whenever the tenured bytes do not exceed young plus survivors, the part
/// of them that exceeds young fits into the survivors.
pub proof fn lemma_survivor_adjustment_in_range(c: CandleView)
    requires
        !before_inconsistent(c),
    ensures
        c.tenured.saturating_sub(c.young_before) <= c.survivors_before,
        before_point(c).survivors == c.survivors_before - c.tenured.saturating_sub(c.young_before),
{
}

/// Stacked reconstruction at the "before" point: under consistent
/// promotion accounting the four bars sum back to the reported total plus
/// the reported survivor occupancy (the young bar of the total is split
/// into its young, survivor and tenured parts; the survivor bar rides on
/// top of the total).
pub proof fn lemma_before_stack_sum(c: CandleView)
    requires
        chartable(c),
        !before_inconsistent(c),
    ensures
        before_point(c).heap + before_point(c).tenured + before_point(c).young + before_point(
            c,
        ).survivors == c.before_gc + c.survivors_before,
{
}

/// Stacked reconstruction at the "after" point: when the remaining total
/// covers the tenured bytes, the four bars sum back to the reported total
/// plus the reported survivor occupancy.
pub proof fn lemma_after_stack_sum(c: CandleView)
    requires
        chartable(c),
        c.after_gc >= c.tenured,
    ensures
        after_point(c).heap + after_point(c).tenured + after_point(c).young + after_point(
            c,
        ).survivors == c.after_gc + c.survivors_after,
{
}

/// When no survivor occupancy is reported, the "before" stack reproduces
/// the reported before-total itself.
pub proof fn lemma_before_stack_reproduces_total(c: CandleView)
    requires
        chartable(c),
        !before_inconsistent(c),
        c.survivors_before == 0,
    ensures
        before_point(c).heap + before_point(c).tenured + before_point(c).young + before_point(
            c,
        ).survivors == c.before_gc,
{
    lemma_before_stack_sum(c);
}

/// When no survivor occupancy is reported, the "after" stack reproduces
/// the reported after-total itself.
pub proof fn lemma_after_stack_reproduces_total(c: CandleView)
    requires
        chartable(c),
        c.after_gc >= c.tenured,
        c.survivors_after == 0,
    ensures
        after_point(c).heap + after_point(c).tenured + after_point(c).young + after_point(
            c,
        ).survivors == c.after_gc,
{
    lemma_after_stack_sum(c);
}

/// One recorded semantic inconsistency: a cycle whose cumulative tenured
/// bytes exceed the tenure candidates its occupancy reported.
#[derive(Debug, Clone, Copy, PartialEq, Eq, Structural)]
pub struct Diagnostic {
    pub gc_id: u64,
    pub candidates: u64,
    pub tenured: u64,
}

/// The diagnostic recorded for a cycle with inconsistent promotion
/// accounting.
pub open spec fn spec_diag(c: CandleView) -> Diagnostic {
    Diagnostic {
        gc_id: c.gc_id,
        candidates: (c.young_before + c.survivors_before) as u64,
        tenured: c.tenured,
    }
}

/// The diagnostic's log line.
pub open spec fn spec_diag_message(d: Diagnostic) -> Seq<char> {
    "weird, we see "@ + spec_decimal(d.candidates as nat) + " tenure candidates but >"@
        + spec_decimal(d.tenured as nat) + " tenured in gc "@ + spec_decimal(d.gc_id as nat)
}

impl Diagnostic {
    /// Writes the diagnostic's log line.
    pub fn message(&self) -> (s: String)
        ensures
            s@ == spec_diag_message(*self),
    {
        let mut s = "weird, we see ".to_owned();
        let candidates = u64_to_string(self.candidates);
        s.append(candidates.as_str());
        s.append(" tenure candidates but >");
        let tenured = u64_to_string(self.tenured);
        s.append(tenured.as_str());
        s.append(" tenured in gc ");
        let gc_id = u64_to_string(self.gc_id);
        s.append(gc_id.as_str());
        s
    }
}

/// The mathematical image of the gc bar series.
#[verifier::ext_equal]
pub struct GcSeriesView {
    pub x_axis: Seq<u64>,
    pub heap: Seq<u64>,
    pub tenured: Seq<u64>,
    pub young: Seq<u64>,
    pub survivors: Seq<u64>,
    pub text: Seq<Seq<char>>,
    pub tick_labels: Seq<Seq<char>>,
    pub tick_positions: Seq<u64>,
    pub diagnostics: Seq<Diagnostic>,
}

/// What the builder produces for a given sequence of emitted candles: two
/// points per candle, all series aligned on the same x-positions, one tick
/// and one recorded diagnostic per cycle where due.
pub open spec fn gc_series_spec(em: Seq<CandleView>) -> GcSeriesView
    decreases em.len(),
{
    if em.len() == 0 {
        GcSeriesView {
            x_axis: Seq::empty(),
            heap: Seq::empty(),
            tenured: Seq::empty(),
            young: Seq::empty(),
            survivors: Seq::empty(),
            text: Seq::empty(),
            tick_labels: Seq::empty(),
            tick_positions: Seq::empty(),
            diagnostics: Seq::empty(),
        }
    } else {
        let p = gc_series_spec(em.drop_last());
        let c = em.last();
        let k = em.len() - 1;
        let b = before_point(c);
        let a = after_point(c);
        GcSeriesView {
            x_axis: p.x_axis.push((23 * k) as u64).push((23 * k + 10) as u64),
            heap: p.heap.push(b.heap).push(a.heap),
            tenured: p.tenured.push(b.tenured).push(a.tenured),
            young: p.young.push(b.young).push(a.young),
            survivors: p.survivors.push(b.survivors).push(a.survivors),
            text: p.text.push(spec_point_label(c.gc_id, false)).push(
                spec_point_label(c.gc_id, true),
            ),
            tick_labels: p.tick_labels.push(spec_title(c)),
            tick_positions: p.tick_positions.push((23 * k) as u64),
            diagnostics: if before_inconsistent(c) {
                p.diagnostics.push(spec_diag(c))
            } else {
                p.diagnostics
            },
        }
    }
}

/// The gc bar series: four aligned value series over shared x-positions and
/// per-point texts, the tick positions and titles of the emitted cycles,
/// and the diagnostics recorded along the way.
#[derive(Debug, Clone, PartialEq, Eq)]
pub struct GcSeries {
    pub x_axis: Vec<u64>,
    pub heap: Vec<u64>,
    pub tenured: Vec<u64>,
    pub young: Vec<u64>,
    pub survivors: Vec<u64>,
    pub text: Vec<String>,
    pub tick_labels: Vec<String>,
    pub tick_positions: Vec<u64>,
    pub diagnostics: Vec<Diagnostic>,
}

impl View for GcSeries {
    type V = GcSeriesView;

    open spec fn view(&self) -> GcSeriesView {
        GcSeriesView {
            x_axis: self.x_axis@,
            heap: self.heap@,
            tenured: self.tenured@,
            young: self.young@,
            survivors: self.survivors@,
            text: self.text@.map_values(|s: String| s@),
            tick_labels: self.tick_labels@.map_values(|s: String| s@),
            tick_positions: self.tick_positions@,
            diagnostics: self.diagnostics@,
        }
    }
}

/// Whether one candle's subtractions are safe to chart.
pub fn candle_chartable(c: &crate::candle::Candle) -> (b: bool)
    ensures
        b == chartable(c@),
{
    c.before_gc >= c.young_before && if c.after_gc < c.tenured {
        c.after_gc >= c.young_after
    } else {
        (c.after_gc as u128) >= (c.young_after as u128) + (c.tenured as u128)
    }
}

/// Whether every candle that would reach the output is safe to chart: the
/// check to make before calling [`build_gc_series`].
pub fn all_chartable(candles: &CandleMap, exclude: &CollectionTypeSet) -> (b: bool)
    ensures
        b == forall|k: int|
            0 <= k < candles@.len() ==> (is_emitted(#[trigger] candles@[k], *exclude)
                ==> chartable(candles@[k])),
{
    let n = candles.len();
    let mut i: usize = 0;
    while i < n
        invariant
            0 <= i <= n,
            n == candles@.len(),
            forall|k: int|
                0 <= k < i ==> (is_emitted(#[trigger] candles@[k], *exclude) ==> chartable(
                    candles@[k],
                )),
        decreases n - i,
    {
        let c = candles.candle(i);
        if c.gc_id != u64::MAX && !exclude.contains(c.collection_type) {
            if !candle_chartable(c) {
                return false;
            }
        }
        i += 1;
    }
    true
}

/// Walks the candles in map order — ascending cycle id — and derives the
/// stacked bar series, two points per retained cycle, exactly as
/// [`gc_series_spec`] states over the emitted candles.
pub fn build_gc_series(candles: &CandleMap, exclude: &CollectionTypeSet) -> (g: GcSeries)
    requires
        23 * candles@.len() <= u64::MAX,
        forall|k: int|
            0 <= k < candles@.len() ==> (is_emitted(#[trigger] candles@[k], *exclude)
                ==> chartable(candles@[k])),
    ensures
        g@ == gc_series_spec(emitted(candles@, *exclude)),
{
    let n = candles.len();
    let mut g = GcSeries {
        x_axis: Vec::new(),
        heap: Vec::new(),
        tenured: Vec::new(),
        young: Vec::new(),
        survivors: Vec::new(),
        text: Vec::new(),
        tick_labels: Vec::new(),
        tick_positions: Vec::new(),
        diagnostics: Vec::new(),
    };
    let mut ix: u64 = 0;
    proof {
        assert(candles@.take(0) =~= Seq::<CandleView>::empty());
        assert(g@ =~= gc_series_spec(emitted(candles@.take(0), *exclude)));
    }
    let mut i: usize = 0;
    while i < n
        invariant
            0 <= i <= n,
            n == candles@.len(),
            23 * n <= u64::MAX,
            forall|k: int|
                0 <= k < n ==> (is_emitted(#[trigger] candles@[k], *exclude) ==> chartable(
                    candles@[k],
                )),
            ix == emitted(candles@.take(i as int), *exclude).len(),
            ix <= i,
            g@ == gc_series_spec(emitted(candles@.take(i as int), *exclude)),
        decreases n - i,
    {
        let ghost em = emitted(candles@.take(i as int), *exclude);
        let c = candles.candle(i);
        proof {
            assert(candles@.take(i + 1).drop_last() =~= candles@.take(i as int));
            assert(candles@.take(i + 1).last() == candles@[i as int]);
        }
        if c.gc_id != u64::MAX && !exclude.contains(c.collection_type) {
            proof {
                assert(is_emitted(c@, *exclude));
                assert(chartable(c@));
                assert(emitted(candles@.take(i + 1), *exclude) == em.push(c@));
            }
            let x0 = ix * 23;
            g.x_axis.push(x0);
            g.x_axis.push(x0 + 10);
            g.heap.push(c.before_gc - c.young_before);
            let candidates = c.young_before.saturating_add(c.survivors_before);
            if c.tenured > candidates {
                g.young.push(c.young_before);
                g.tenured.push(0);
                g.survivors.push(c.survivors_before);
                g.diagnostics.push(
                    Diagnostic {
                        gc_id: c.gc_id,
                        candidates: c.young_before + c.survivors_before,
                        tenured: c.tenured,
                    },
                );
            } else {
                let young_before = c.young_before.saturating_sub(c.tenured);
                let survivors_before = c.survivors_before - c.tenured.saturating_sub(
                    c.young_before,
                );
                g.young.push(young_before);
                g.tenured.push(c.tenured);
                g.survivors.push(survivors_before);
            }
            g.text.push(point_label(c.gc_id, false));
            g.tick_labels.push(c.title());
            g.tick_positions.push(x0);
            if c.after_gc < c.tenured {
                g.heap.push(c.after_gc - c.young_after);
                g.young.push(c.young_after);
                g.tenured.push(0);
                g.survivors.push(c.survivors_after);
            } else {
                g.heap.push(c.after_gc - c.young_after - c.tenured);
                g.young.push(c.young_after);
                g.tenured.push(c.tenured);
                g.survivors.push(c.survivors_after);
            }
            g.text.push(point_label(c.gc_id, true));
            proof {
                assert(em.push(c@).drop_last() =~= em);
                assert(g@ =~= gc_series_spec(em.push(c@)));
            }
            ix = ix + 1;
        } else {
            proof {
                assert(emitted(candles@.take(i + 1), *exclude) == em);
            }
        }
        i += 1;
    }
    proof {
        assert(candles@.take(n as int) =~= candles@);
    }
    g
}

} // verus!
