//! The tenuring histogram builder: an independent pass that turns the
//! tenuring-distribution events into (age, size) scatter series.
//!
//! The samples keep their stream order and are grouped into maximal
//! contiguous runs sharing a cycle id. Grouping is by adjacency in the
//! stream, not globally by id: two runs of the same cycle separated by an
//! unrelated sample become two series. This mirrors the provider's
//! behaviour and is covered as such by the tests.

use vstd::prelude::*;

use crate::events::JfrEvent;
use crate::events::TenuringDistribution;

verus! {

/// One scatter series: parallel ages and sizes, in sample order.
#[derive(Debug, Clone, PartialEq, Eq)]
pub struct AgeSeries {
    pub ages: Vec<u64>,
    pub sizes: Vec<u64>,
}

/// The mathematical image of one scatter series.
#[verifier::ext_equal]
pub struct AgeSeriesView {
    pub ages: Seq<u64>,
    pub sizes: Seq<u64>,
}

impl View for AgeSeries {
    type V = AgeSeriesView;

    open spec fn view(&self) -> AgeSeriesView {
        AgeSeriesView { ages: self.ages@, sizes: self.sizes@ }
    }
}

/// The tenuring-distribution samples of the stream, in stream order.
pub open spec fn tenure_samples(s: Seq<JfrEvent>) -> Seq<TenuringDistribution>
    decreases s.len(),
{
    if s.len() == 0 {
        Seq::empty()
    } else {
        let rest = tenure_samples(s.drop_last());
        match s.last() {
            JfrEvent::TenuringDistribution { values } => rest.push(values),
            _ => rest,
        }
    }
}

/// Groups a sample sequence into maximal contiguous runs sharing a cycle
/// id, each run giving one series of its (age, size) pairs in order.
pub open spec fn group_samples(ts: Seq<TenuringDistribution>) -> Seq<AgeSeriesView>
    decreases ts.len(),
{
    if ts.len() == 0 {
        Seq::empty()
    } else {
        let g = group_samples(ts.drop_last());
        let t = ts.last();
        if ts.len() >= 2 && ts[ts.len() - 2].gc_id == t.gc_id {
            g.update(
                g.len() - 1,
                AgeSeriesView {
                    ages: g.last().ages.push(t.age),
                    sizes: g.last().sizes.push(t.size),
                },
            )
        } else {
            g.push(AgeSeriesView { ages: seq![t.age], sizes: seq![t.size] })
        }
    }
}

/// A nonempty sample sequence groups into at least one run.
pub proof fn lemma_group_nonempty(ts: Seq<TenuringDistribution>)
    requires
        ts.len() > 0,
    ensures
        group_samples(ts).len() > 0,
    decreases ts.len(),
{
    if ts.len() >= 2 && ts[ts.len() - 2].gc_id == ts.last().gc_id {
        lemma_group_nonempty(ts.drop_last());
    }
}

/// Filters the stream to its tenuring-distribution samples and groups the
/// contiguous runs of one cycle id into scatter series, exactly as
/// [`group_samples`] states.
pub fn build_age_series(events: &Vec<JfrEvent>) -> (out: Vec<AgeSeries>)
    ensures
        out@.map_values(|a: AgeSeries| a@) == group_samples(tenure_samples(events@)),
{
    let n = events.len();
    let mut out: Vec<AgeSeries> = Vec::new();
    let mut last_id: Option<u64> = None;
    proof {
        assert(events@.take(0) =~= Seq::<JfrEvent>::empty());
        assert(out@.map_values(|a: AgeSeries| a@) =~= group_samples(
            tenure_samples(events@.take(0)),
        ));
    }
    let mut i: usize = 0;
    while i < n
        invariant
            0 <= i <= n,
            n == events@.len(),
            out@.map_values(|a: AgeSeries| a@) == group_samples(
                tenure_samples(events@.take(i as int)),
            ),
            match last_id {
                None => tenure_samples(events@.take(i as int)).len() == 0,
                Some(id) => {
                    let ts = tenure_samples(events@.take(i as int));
                    ts.len() > 0 && ts.last().gc_id == id
                },
            },
        decreases n - i,
    {
        let ghost ts = tenure_samples(events@.take(i as int));
        let ghost g = group_samples(ts);
        proof {
            assert(events@.take(i + 1).drop_last() =~= events@.take(i as int));
            assert(events@.take(i + 1).last() == events@[i as int]);
        }
        if let JfrEvent::TenuringDistribution { values } = &events[i] {
            proof {
                assert(tenure_samples(events@.take(i + 1)) == ts.push(*values));
                assert(ts.push(*values).drop_last() =~= ts);
            }
            let start_new = match last_id {
                None => true,
                Some(id) => id != values.gc_id,
            };
            if start_new {
                let mut ages: Vec<u64> = Vec::new();
                let mut sizes: Vec<u64> = Vec::new();
                ages.push(values.age);
                sizes.push(values.size);
                out.push(AgeSeries { ages, sizes });
                proof {
                    assert(out@.map_values(|a: AgeSeries| a@) =~~= group_samples(
                        tenure_samples(events@.take(i + 1)),
                    ));
                }
            } else {
                proof {
                    lemma_group_nonempty(ts);
                    assert(out@.len() == g.len());
                    assert(out@.map_values(|a: AgeSeries| a@)[g.len() - 1] == g.last());
                }
                let mut run = out.pop().unwrap();
                run.ages.push(values.age);
                run.sizes.push(values.size);
                out.push(run);
                proof {
                    assert(out@.map_values(|a: AgeSeries| a@) =~~= group_samples(
                        tenure_samples(events@.take(i + 1)),
                    ));
                }
            }
            last_id = Some(values.gc_id);
        } else {
            proof {
                assert(tenure_samples(events@.take(i + 1)) == ts);
            }
        }
        i += 1;
    }
    proof {
        assert(events@.take(n as int) =~= events@);
    }
    out
}

} // verus!
