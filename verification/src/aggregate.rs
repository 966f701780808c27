//! The aggregation engine: a single pass over the event stream, in input
//! order, that routes each event to its cycle's candle.
//!
//! Candles are kept in a map from cycle id to candle, realized as a vector
//! sorted strictly by id, so that the second pass can walk the cycles in
//! ascending id order. Events without a cycle id collect in the sentinel
//! bucket `u64::MAX`.

use vstd::prelude::*;

use crate::candle::Candle;
use crate::candle::CandleView;
use crate::candle::apply_event;
use crate::candle::candle_of;
use crate::candle::init_candle;
use crate::candle::lemma_untouched_init;
use crate::candle::spec_apply;
use crate::candle::touched;
use crate::events::JfrEvent;
use crate::events::route_id;

verus! {

/// Candle sequences are ordered strictly by cycle id; in particular each id
/// appears at most once.
pub open spec fn sorted_by_id(cs: Seq<CandleView>) -> bool {
    forall|i: int, j: int| 0 <= i < j < cs.len() ==> cs[i].gc_id < cs[j].gc_id
}

/// Whether the sequence holds a candle for the given cycle id.
pub open spec fn seq_contains_id(cs: Seq<CandleView>, id: u64) -> bool {
    exists|k: int| 0 <= k < cs.len() && cs[k].gc_id == id
}

/// The index where a candle for `id` sits or would be inserted: the number
/// of leading candles with a smaller id.
pub open spec fn insertion_point(cs: Seq<CandleView>, id: u64) -> int
    decreases cs.len(),
{
    if cs.len() == 0 {
        0
    } else if cs[0].gc_id < id {
        1 + insertion_point(cs.drop_first(), id)
    } else {
        0
    }
}

/// In a sorted sequence, `insertion_point` is the unique boundary: smaller
/// ids strictly before it, greater-or-equal ids from it on.
pub proof fn lemma_insertion_point(cs: Seq<CandleView>, id: u64)
    requires
        sorted_by_id(cs),
    ensures
        0 <= insertion_point(cs, id) <= cs.len(),
        forall|k: int| 0 <= k < insertion_point(cs, id) ==> cs[k].gc_id < id,
        forall|k: int| insertion_point(cs, id) <= k < cs.len() ==> cs[k].gc_id >= id,
    decreases cs.len(),
{
    if cs.len() > 0 && cs[0].gc_id < id {
        let rest = cs.drop_first();
        assert forall|i: int, j: int| 0 <= i < j < rest.len() implies rest[i].gc_id
            < rest[j].gc_id by {
            assert(rest[i] == cs[i + 1] && rest[j] == cs[j + 1]);
        }
        lemma_insertion_point(rest, id);
        let ip = insertion_point(cs, id);
        assert forall|k: int| 0 <= k < ip implies cs[k].gc_id < id by {
            if k > 0 {
                assert(rest[k - 1] == cs[k]);
                assert(rest[k - 1].gc_id < id);
            }
        }
        assert forall|k: int| ip <= k < cs.len() implies cs[k].gc_id >= id by {
            assert(rest[k - 1] == cs[k]);
            assert(rest[k - 1].gc_id >= id);
        }
    }
}

/// Routing one event into the candle sequence: apply it to the candle that
/// already holds its bucket id, or insert a fresh candle for it, keeping the
/// sequence sorted.
pub open spec fn upsert(cs: Seq<CandleView>, e: JfrEvent) -> Seq<CandleView> {
    let id = route_id(e);
    let i = insertion_point(cs, id);
    if i < cs.len() && cs[i].gc_id == id {
        cs.update(i, spec_apply(cs[i], e, id))
    } else {
        cs.insert(i, spec_apply(init_candle(), e, id))
    }
}

/// Applying an event routed to bucket `id` stamps the candle with that id.
pub proof fn lemma_apply_keeps_id(c: CandleView, e: JfrEvent, id: u64)
    requires
        route_id(e) == id,
    ensures
        spec_apply(c, e, id).gc_id == id,
{
}

/// `upsert` preserves strict id ordering.
pub proof fn lemma_upsert_sorted(cs: Seq<CandleView>, e: JfrEvent)
    requires
        sorted_by_id(cs),
    ensures
        sorted_by_id(upsert(cs, e)),
{
    let id = route_id(e);
    let i = insertion_point(cs, id);
    lemma_insertion_point(cs, id);
    lemma_apply_keeps_id(if i < cs.len() && cs[i].gc_id == id {
        cs[i]
    } else {
        init_candle()
    }, e, id);
    if i < cs.len() && cs[i].gc_id == id {
        let r = cs.update(i, spec_apply(cs[i], e, id));
        assert forall|p: int, q: int| 0 <= p < q < r.len() implies r[p].gc_id < r[q].gc_id by {
            assert(cs[p].gc_id < cs[q].gc_id);
        }
    } else {
        let v = spec_apply(init_candle(), e, id);
        let r = cs.insert(i, v);
        cs.insert_ensures(i, v);
        assert forall|p: int, q: int| 0 <= p < q < r.len() implies r[p].gc_id < r[q].gc_id by {
            if p < i && q > i {
                assert(r[p] == cs[p] && r[q] == cs[q - 1]);
                assert(cs[p].gc_id < id);
                assert(cs[q - 1].gc_id >= id && cs[q - 1].gc_id != id);
            } else if p < i && q == i {
                assert(r[p] == cs[p] && cs[p].gc_id < id);
            } else if p == i && q > i {
                assert(r[q] == cs[q - 1]);
                assert(cs[q - 1].gc_id >= id && cs[q - 1].gc_id != id);
            } else if p > i {
                assert(r[p] == cs[p - 1] && r[q] == cs[q - 1]);
                assert(cs[p - 1].gc_id < cs[q - 1].gc_id);
            } else {
                assert(q < i);
                assert(r[p] == cs[p] && r[q] == cs[q]);
                assert(cs[p].gc_id < cs[q].gc_id);
            }
        }
    }
}

/// The candle sequence that the whole event stream folds to, one `upsert`
/// per event, in stream order.
pub open spec fn aggregate_spec(s: Seq<JfrEvent>) -> Seq<CandleView>
    decreases s.len(),
{
    if s.len() == 0 {
        Seq::empty()
    } else {
        upsert(aggregate_spec(s.drop_last()), s.last())
    }
}

/// What the fold means bucket by bucket: the result is sorted by cycle id,
/// holds a candle exactly for the bucket ids the stream touches, and each
/// candle is the fold of exactly its bucket's events.
pub proof fn lemma_aggregate_spec(s: Seq<JfrEvent>)
    ensures
        sorted_by_id(aggregate_spec(s)),
        forall|id: u64| seq_contains_id(aggregate_spec(s), id) <==> touched(s, id),
        forall|k: int|
            0 <= k < aggregate_spec(s).len()
                ==> aggregate_spec(s)[k] == candle_of(s, aggregate_spec(s)[k].gc_id),
    decreases s.len(),
{
    if s.len() > 0 {
        let prev = s.drop_last();
        let cs = aggregate_spec(prev);
        let e = s.last();
        let id = route_id(e);
        let i = insertion_point(cs, id);
        let r = aggregate_spec(s);
        lemma_aggregate_spec(prev);
        lemma_insertion_point(cs, id);
        lemma_upsert_sorted(cs, e);
        lemma_apply_keeps_id(if i < cs.len() && cs[i].gc_id == id {
            cs[i]
        } else {
            init_candle()
        }, e, id);
        assert(candle_of(s, id) == spec_apply(candle_of(prev, id), e, id));
        assert forall|id2: u64| id2 != id implies candle_of(s, id2) == candle_of(prev, id2) by {
            assert(route_id(s.last()) != id2);
        }
        assert forall|id2: u64| id2 != id implies (touched(s, id2) <==> touched(prev, id2)) by {
            assert(route_id(s.last()) != id2);
        }
        assert(touched(s, id));
        if i < cs.len() && cs[i].gc_id == id {
            assert(r == cs.update(i, spec_apply(cs[i], e, id)));
            assert(r[i] == spec_apply(cs[i], e, id));
            assert(r[i].gc_id == id);
            assert forall|k: int| 0 <= k < cs.len() && k != i implies cs[k].gc_id != id by {
                if k < i {
                    assert(cs[k].gc_id < cs[i].gc_id);
                } else {
                    assert(cs[i].gc_id < cs[k].gc_id);
                }
            }
            assert forall|id2: u64| seq_contains_id(r, id2) implies touched(s, id2) by {
                let k = choose|k: int| 0 <= k < r.len() && r[k].gc_id == id2;
                if k != i {
                    assert(r[k] == cs[k]);
                    assert(seq_contains_id(cs, id2));
                }
            }
            assert forall|id2: u64| touched(s, id2) implies seq_contains_id(r, id2) by {
                if id2 != id {
                    assert(touched(prev, id2));
                    assert(seq_contains_id(cs, id2));
                    let k = choose|k: int| 0 <= k < cs.len() && cs[k].gc_id == id2;
                    assert(k != i);
                    assert(r[k] == cs[k]);
                    assert(r[k].gc_id == id2);
                }
            }
            assert forall|k: int| 0 <= k < r.len() implies r[k] == candle_of(s, r[k].gc_id) by {
                if k == i {
                    assert(cs[i] == candle_of(prev, cs[i].gc_id));
                } else {
                    assert(r[k] == cs[k]);
                    assert(cs[k].gc_id != id);
                    assert(cs[k] == candle_of(prev, cs[k].gc_id));
                }
            }
        } else {
            let v = spec_apply(init_candle(), e, id);
            cs.insert_ensures(i, v);
            assert(r == cs.insert(i, v));
            assert(r.len() == cs.len() + 1);
            assert(r[i] == v);
            assert(r[i].gc_id == id);
            assert forall|k: int| 0 <= k < r.len() && k != i implies (if k < i {
                r[k] == cs[k]
            } else {
                r[k] == cs[k - 1]
            }) by {
                if k > i {
                    assert(r[(k - 1) + 1] == cs[k - 1]);
                }
            }
            assert(!seq_contains_id(cs, id)) by {
                if seq_contains_id(cs, id) {
                    let k = choose|k: int| 0 <= k < cs.len() && cs[k].gc_id == id;
                    if k < i {
                        assert(cs[k].gc_id < id);
                    } else {
                        assert(cs[k].gc_id >= id);
                        assert(k != i);
                        assert(cs[i].gc_id < cs[k].gc_id);
                    }
                }
            }
            assert(!touched(prev, id));
            lemma_untouched_init(prev, id);
            assert forall|id2: u64| seq_contains_id(r, id2) implies touched(s, id2) by {
                let k = choose|k: int| 0 <= k < r.len() && r[k].gc_id == id2;
                if k != i {
                    assert(seq_contains_id(cs, id2));
                }
            }
            assert forall|id2: u64| touched(s, id2) implies seq_contains_id(r, id2) by {
                if id2 != id {
                    assert(touched(prev, id2));
                    assert(seq_contains_id(cs, id2));
                    let k = choose|k: int| 0 <= k < cs.len() && cs[k].gc_id == id2;
                    if k < i {
                        assert(r[k] == cs[k]);
                        assert(r[k].gc_id == id2);
                    } else {
                        assert(r[k + 1] == cs[k]);
                        assert(r[k + 1].gc_id == id2);
                    }
                }
            }
            assert forall|k: int| 0 <= k < r.len() implies r[k] == candle_of(s, r[k].gc_id) by {
                if k == i {
                    assert(r[i] == spec_apply(init_candle(), e, id));
                    assert(candle_of(s, id) == spec_apply(init_candle(), e, id));
                } else if k < i {
                    assert(r[k] == cs[k]);
                    assert(cs[k].gc_id < id);
                    assert(cs[k] == candle_of(prev, cs[k].gc_id));
                } else {
                    assert(r[k] == cs[k - 1]);
                    assert(cs[k - 1].gc_id >= id && cs[k - 1].gc_id != id);
                    assert(cs[k - 1] == candle_of(prev, cs[k - 1].gc_id));
                }
            }
        }
    }
}

/// The per-cycle accumulator map: one candle per touched bucket id, kept in
/// ascending id order.
#[derive(Debug, Clone, PartialEq, Eq)]
pub struct CandleMap {
    entries: Vec<Candle>,
}

impl View for CandleMap {
    type V = Seq<CandleView>;

    closed spec fn view(&self) -> Seq<CandleView> {
        self.entries@.map_values(|c: Candle| c@)
    }
}

impl CandleMap {
    /// The map is sorted strictly by cycle id.
    pub open spec fn wf(&self) -> bool {
        sorted_by_id(self@)
    }

    /// Whether the map holds a candle for the given cycle id.
    pub open spec fn contains_id(&self, id: u64) -> bool {
        seq_contains_id(self@, id)
    }

    /// The empty map.
    pub fn new() -> (m: CandleMap)
        ensures
            m@ == Seq::<CandleView>::empty(),
            m.wf(),
    {
        let m = CandleMap { entries: Vec::new() };
        proof {
            assert(m@ =~= Seq::<CandleView>::empty());
        }
        m
    }

    /// How many cycles the map holds.
    pub fn len(&self) -> (n: usize)
        ensures
            n == self@.len(),
    {
        self.entries.len()
    }

    /// The candle at a position, in ascending id order.
    pub fn candle(&self, k: usize) -> (c: &Candle)
        requires
            k < self@.len(),
        ensures
            c@ == self@[k as int],
    {
        &self.entries[k]
    }

    /// The index where the candle for `id` sits or would be inserted.
    fn lower_bound(&self, id: u64) -> (r: usize)
        requires
            self.wf(),
        ensures
            r == insertion_point(self@, id),
    {
        proof {
            lemma_insertion_point(self@, id);
        }
        let mut lo: usize = 0;
        let mut hi: usize = self.entries.len();
        while lo < hi
            invariant
                0 <= lo <= hi <= self@.len(),
                self@.len() == self.entries@.len(),
                self.wf(),
                forall|k: int| 0 <= k < lo ==> self@[k].gc_id < id,
                forall|k: int| hi <= k < self@.len() ==> self@[k].gc_id >= id,
            decreases hi - lo,
        {
            let mid = lo + (hi - lo) / 2;
            assert(self@[mid as int] == self.entries@[mid as int]@);
            if self.entries[mid].gc_id < id {
                lo = mid + 1;
            } else {
                hi = mid;
            }
        }
        proof {
            let ip = insertion_point(self@, id);
            if ip < lo {
                assert(self@[ip].gc_id >= id);
            } else if ip > lo {
                assert(self@[lo as int].gc_id >= id);
                assert(lo < self@.len());
            }
        }
        lo
    }

    /// The candle for a cycle id, when the map holds one.
    pub fn get(&self, id: u64) -> (r: Option<&Candle>)
        requires
            self.wf(),
        ensures
            match r {
                Some(c) => self.contains_id(id) && c@ == candle_view_for(self@, id),
                None => !self.contains_id(id),
            },
    {
        proof {
            lemma_insertion_point(self@, id);
        }
        let pos = self.lower_bound(id);
        if pos < self.entries.len() && self.entries[pos].gc_id == id {
            proof {
                assert(self@[pos as int].gc_id == id);
            }
            Some(&self.entries[pos])
        } else {
            proof {
                if self.contains_id(id) {
                    let k = choose|k: int| 0 <= k < self@.len() && self@[k].gc_id == id;
                    if k < pos {
                        assert(self@[k].gc_id < id);
                    } else {
                        assert(k != pos);
                        assert(self@[pos as int].gc_id < self@[k].gc_id);
                    }
                }
            }
            None
        }
    }
}

/// The candle a sorted sequence holds for `id` (meaningful when it holds
/// one): the one at the insertion point.
pub open spec fn candle_view_for(cs: Seq<CandleView>, id: u64) -> CandleView {
    cs[insertion_point(cs, id)]
}

/// Folds the event stream into its candle map, one event at a time, in
/// input order: the single pass the rest of the library builds on.
///
/// The result holds one candle exactly per bucket id the stream touches
/// (with `u64::MAX` as the bucket of the events that carry no cycle id),
/// in ascending id order, and each candle is the fold of exactly its
/// bucket's events.
pub fn aggregate(events: &Vec<JfrEvent>) -> (m: CandleMap)
    ensures
        m@ == aggregate_spec(events@),
        m.wf(),
        forall|id: u64| m.contains_id(id) <==> touched(events@, id),
        forall|k: int| 0 <= k < m@.len() ==> m@[k] == candle_of(events@, m@[k].gc_id),
{
    let n = events.len();
    let mut m = CandleMap::new();
    proof {
        assert(events@.take(0) =~= Seq::<JfrEvent>::empty());
    }
    let mut i: usize = 0;
    while i < n
        invariant
            0 <= i <= n,
            n == events@.len(),
            m@ == aggregate_spec(events@.take(i as int)),
            m.wf(),
        decreases n - i,
    {
        let ghost pre = m@;
        let e = &events[i];
        let id = match e.gc_id() {
            Some(id) => id,
            None => u64::MAX,
        };
        proof {
            assert(id == route_id(events@[i as int]));
            lemma_insertion_point(m@, id);
        }
        let pos = m.lower_bound(id);
        let hit = pos < m.entries.len() && m.entries[pos].gc_id == id;
        if hit {
            proof {
                assert(pre[pos as int] == m.entries@[pos as int]@);
            }
            apply_event(&mut m.entries[pos], e, id);
            proof {
                assert(m@ =~= pre.update(pos as int, spec_apply(pre[pos as int], *e, id)));
            }
        } else {
            let mut c = Candle::default();
            apply_event(&mut c, e, id);
            m.entries.insert(pos, c);
            proof {
                assert(m@ =~= pre.insert(pos as int, spec_apply(init_candle(), *e, id)));
            }
        }
        proof {
            assert(events@.take(i + 1).drop_last() =~= events@.take(i as int));
            assert(events@.take(i + 1).last() == events@[i as int]);
            assert(m@ == upsert(pre, events@[i as int]));
            assert(m@ == aggregate_spec(events@.take(i + 1)));
            lemma_upsert_sorted(pre, events@[i as int]);
        }
        i += 1;
    }
    proof {
        assert(events@.take(n as int) =~= events@);
        lemma_aggregate_spec(events@);
    }
    m
}

} // verus!
