//! The chart-ready output: four stacked bar series over shared
//! x-positions, the tick labels and positions of the emitted cycles, the
//! tenuring scatter series, and the diagnostics recorded on the way.

use vstd::prelude::*;
use vstd::string::StringExecFns;

use crate::aggregate::aggregate;
use crate::aggregate::aggregate_spec;
use crate::events::CollectionTypeSet;
use crate::events::JfrEvent;
use crate::events::JfrMain;
use crate::series::Diagnostic;
use crate::series::GcSeriesView;
use crate::series::all_chartable;
use crate::series::build_gc_series;
use crate::series::chartable;
use crate::series::emitted;
use crate::series::gc_series_spec;
use crate::series::is_emitted;
use crate::tenuring::AgeSeries;
use crate::tenuring::AgeSeriesView;
use crate::tenuring::build_age_series;
use crate::tenuring::group_samples;
use crate::tenuring::tenure_samples;

verus! {

/// One bar series of the stacked chart: its legend name, x-positions (in
/// tenths of a chart unit), values and per-point texts.
#[derive(Debug, Clone, PartialEq, Eq)]
pub struct BarSeries {
    pub name: String,
    pub x: Vec<u64>,
    pub y: Vec<u64>,
    pub text: Vec<String>,
}

/// The mathematical image of one bar series.
#[verifier::ext_equal]
pub struct BarSeriesView {
    pub name: Seq<char>,
    pub x: Seq<u64>,
    pub y: Seq<u64>,
    pub text: Seq<Seq<char>>,
}

impl View for BarSeries {
    type V = BarSeriesView;

    open spec fn view(&self) -> BarSeriesView {
        BarSeriesView {
            name: self.name@,
            x: self.x@,
            y: self.y@,
            text: self.text@.map_values(|s: String| s@),
        }
    }
}

/// Everything the charting layer needs for one recording and one filter.
#[derive(Debug, Clone, PartialEq, Eq)]
pub struct Graphs {
    pub ages: Vec<AgeSeries>,
    pub gcs: Vec<BarSeries>,
    pub gcs_labels: Vec<String>,
    pub gcs_ticks: Vec<u64>,
    pub diagnostics: Vec<Diagnostic>,
}

/// The mathematical image of the whole output.
#[verifier::ext_equal]
pub struct GraphsView {
    pub ages: Seq<AgeSeriesView>,
    pub gcs: Seq<BarSeriesView>,
    pub gcs_labels: Seq<Seq<char>>,
    pub gcs_ticks: Seq<u64>,
    pub diagnostics: Seq<Diagnostic>,
}

impl View for Graphs {
    type V = GraphsView;

    open spec fn view(&self) -> GraphsView {
        GraphsView {
            ages: self.ages@.map_values(|a: AgeSeries| a@),
            gcs: self.gcs@.map_values(|b: BarSeries| b@),
            gcs_labels: self.gcs_labels@.map_values(|s: String| s@),
            gcs_ticks: self.gcs_ticks@,
            diagnostics: self.diagnostics@,
        }
    }
}

/// The four bar series of the gc chart, in their fixed order, over the
/// shared positions, values and texts of the series view.
pub open spec fn bars_of(sv: GcSeriesView) -> Seq<BarSeriesView> {
    seq![
        BarSeriesView { name: "heap"@, x: sv.x_axis, y: sv.heap, text: sv.text },
        BarSeriesView { name: "tenured"@, x: sv.x_axis, y: sv.tenured, text: sv.text },
        BarSeriesView { name: "young"@, x: sv.x_axis, y: sv.young, text: sv.text },
        BarSeriesView { name: "survivors"@, x: sv.x_axis, y: sv.survivors, text: sv.text },
    ]
}

/// What one recording folds and charts to under one filter: the fixed
/// function of the event stream and the excluded collection types that
/// [`JfrMain::to_graphs`] computes.
pub open spec fn graphs_spec(events: Seq<JfrEvent>, exclude: CollectionTypeSet) -> GraphsView {
    let sv = gc_series_spec(emitted(aggregate_spec(events), exclude));
    GraphsView {
        ages: group_samples(tenure_samples(events)),
        gcs: bars_of(sv),
        gcs_labels: sv.tick_labels,
        gcs_ticks: sv.tick_positions,
        diagnostics: sv.diagnostics,
    }
}

/// What charting a recording relies on: the x-positions fit the axis'
/// integer range, and every cycle that would be charted reports totals
/// that cover the young occupancy charged against them.
pub open spec fn graphs_pre(events: Seq<JfrEvent>, exclude: CollectionTypeSet) -> bool {
    &&& 23 * aggregate_spec(events).len() <= u64::MAX
    &&& forall|k: int|
        0 <= k < aggregate_spec(events).len() ==> (is_emitted(
            #[trigger] aggregate_spec(events)[k],
            exclude,
        ) ==> chartable(aggregate_spec(events)[k]))
}

/// Copies a value vector.
fn copy_u64s(v: &Vec<u64>) -> (r: Vec<u64>)
    ensures
        r@ == v@,
{
    let n = v.len();
    let mut r: Vec<u64> = Vec::new();
    let mut i: usize = 0;
    while i < n
        invariant
            0 <= i <= n,
            n == v@.len(),
            r@ == v@.take(i as int),
        decreases n - i,
    {
        r.push(v[i]);
        proof {
            assert(v@.take(i + 1) =~= v@.take(i as int).push(v@[i as int]));
        }
        i += 1;
    }
    proof {
        assert(v@.take(n as int) =~= v@);
    }
    r
}

/// Copies a text vector.
fn copy_strings(v: &Vec<String>) -> (r: Vec<String>)
    ensures
        r@ == v@,
{
    let n = v.len();
    let mut r: Vec<String> = Vec::new();
    let mut i: usize = 0;
    while i < n
        invariant
            0 <= i <= n,
            n == v@.len(),
            r@ == v@.take(i as int),
        decreases n - i,
    {
        r.push(v[i].clone());
        proof {
            assert(v@.take(i + 1) =~= v@.take(i as int).push(v@[i as int]));
        }
        i += 1;
    }
    proof {
        assert(v@.take(n as int) =~= v@);
    }
    r
}

impl JfrMain {
    /// Whether [`JfrMain::to_graphs`] can chart this recording under the
    /// given filter: the check to make before calling it.
    pub fn graphs_supported(&self, collection_type_filter: &CollectionTypeSet) -> (b: bool)
        ensures
            b == graphs_pre(self.recording.events@, *collection_type_filter),
    {
        let m = aggregate(&self.recording.events);
        let n = m.len();
        if !((n as u64) <= u64::MAX / 23) {
            proof {
                assert(23 * aggregate_spec(self.recording.events@).len() > u64::MAX);
            }
            return false;
        }
        all_chartable(&m, collection_type_filter)
    }

    /// Folds the recording's events into candles and derives every series
    /// the chart needs: the whole pipeline, one aggregation and one series
    /// pass, as [`graphs_spec`] states.
    pub fn to_graphs(&self, collection_type_filter: &CollectionTypeSet) -> (g: Graphs)
        requires
            graphs_pre(self.recording.events@, *collection_type_filter),
        ensures
            g@ == graphs_spec(self.recording.events@, *collection_type_filter),
    {
        let m = aggregate(&self.recording.events);
        let sv = build_gc_series(&m, collection_type_filter);
        let ages = build_age_series(&self.recording.events);
        let mut gcs: Vec<BarSeries> = Vec::new();
        gcs.push(
            BarSeries {
                name: "heap".to_owned(),
                x: copy_u64s(&sv.x_axis),
                y: sv.heap,
                text: copy_strings(&sv.text),
            },
        );
        gcs.push(
            BarSeries {
                name: "tenured".to_owned(),
                x: copy_u64s(&sv.x_axis),
                y: sv.tenured,
                text: copy_strings(&sv.text),
            },
        );
        gcs.push(
            BarSeries {
                name: "young".to_owned(),
                x: copy_u64s(&sv.x_axis),
                y: sv.young,
                text: copy_strings(&sv.text),
            },
        );
        gcs.push(
            BarSeries {
                name: "survivors".to_owned(),
                x: sv.x_axis,
                y: sv.survivors,
                text: sv.text,
            },
        );
        let g = Graphs {
            ages,
            gcs,
            gcs_labels: sv.tick_labels,
            gcs_ticks: sv.tick_positions,
            diagnostics: sv.diagnostics,
        };
        proof {
            assert(g@ =~~= graphs_spec(self.recording.events@, *collection_type_filter));
        }
        g
    }
}

/// Building the series is deterministic: over the same candle fold and the
/// same filter, two outputs that each satisfy the builder's contract are
/// identical, bit for bit.
pub proof fn lemma_to_graphs_deterministic(
    events: Seq<JfrEvent>,
    exclude: CollectionTypeSet,
    g1: GraphsView,
    g2: GraphsView,
)
    requires
        g1 == graphs_spec(events, exclude),
        g2 == graphs_spec(events, exclude),
    ensures
        g1 == g2,
{
}

} // verus!
