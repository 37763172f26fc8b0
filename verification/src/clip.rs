//! The cache of clip command groups that `invoke_draw` keeps per widget.
//!
//! Each drawn widget owns a pair of command groups (clip and restore), found again by the
//! widget's id. Every 60 frames the groups of widgets that were not drawn in that frame are
//! discarded.

use vstd::prelude::*;

use std::collections::{HashMap, HashSet};

use crate::base::{DrawCounter, CLEANUP_PERIOD};

verus! {

broadcast use vstd::std_specs::hash::group_hash_axioms;

/// Command groups by widget id, with the frame counter and, during a clean-up frame, the ids
/// of the widgets drawn so far in that frame. `G` is a widget's pair of command groups.
pub struct ClipCache<G> {
    groups: HashMap<u64, G>,
    ids: Vec<u64>,
    counter: DrawCounter,
    drawn: Option<HashSet<u64>>,
}

impl<G> ClipCache<G> {
    /// The command groups, by widget id.
    pub closed spec fn spec_groups(&self) -> Map<u64, G> {
        self.groups@
    }

    /// During a clean-up frame, the widgets drawn so far in it; `None` in other frames.
    pub closed spec fn spec_drawn(&self) -> Option<Set<u64>> {
        match self.drawn {
            Some(d) => Some(d@),
            None => None,
        }
    }

    /// The frame counter.
    pub closed spec fn spec_count(&self) -> u8 {
        self.counter.spec_count()
    }

    /// Every id is listed once, the listed ids are the map's keys, and every widget drawn in a
    /// clean-up frame has its groups in the map.
    pub closed spec fn wf(&self) -> bool {
        &&& forall|i: int, j: int|
            0 <= i < j < self.ids.len() ==> #[trigger] self.ids@[i] != #[trigger] self.ids@[j]
        &&& forall|k: u64| self.groups@.contains_key(k) <==> self.ids@.contains(k)
        &&& self.drawn matches Some(d) ==> d@.subset_of(self.groups@.dom())
    }

    /// An empty cache before the first frame.
    pub fn new() -> (r: Self)
        ensures
            r.wf(),
            r.spec_groups() == Map::<u64, G>::empty(),
            r.spec_drawn() is None,
            r.spec_count() == 0,
    {
        ClipCache { groups: HashMap::new(), ids: Vec::new(), counter: DrawCounter::new(), drawn: None }
    }

    /// Whether the cache holds the groups of a widget.
    pub fn contains(&self, id: u64) -> (r: bool)
        ensures
            r == self.spec_groups().contains_key(id),
    {
        self.groups.contains_key(&id)
    }

    /// The number of widgets whose groups the cache holds.
    pub fn len(&self) -> (r: usize)
        ensures
            r == self.spec_groups().len(),
    {
        self.groups.len()
    }

    /// Starts a frame: counts it, and when it is a clean-up frame starts recording which widgets
    /// are drawn.
    pub fn begin_frame(&mut self)
        requires
            old(self).wf(),
        ensures
            final(self).wf(),
            final(self).spec_groups() == old(self).spec_groups(),
            final(self).spec_drawn() == (if old(self).spec_count() >= CLEANUP_PERIOD {
                Some(Set::<u64>::empty())
            } else {
                None::<Set<u64>>
            }),
            final(self).spec_count() == (if old(self).spec_count() >= CLEANUP_PERIOD {
                1
            } else {
                old(self).spec_count() + 1
            }),
    {
        let cleanup = self.counter.frame();
        if cleanup {
            self.drawn = Some(HashSet::new());
        } else {
            self.drawn = None;
        }
    }

    /// The command groups of a widget being drawn, made from `fresh` if the widget has none yet.
    /// In a clean-up frame the widget counts as drawn.
    pub fn group(&mut self, id: u64, fresh: G) -> (r: &mut G)
        requires
            old(self).wf(),
        ensures
            final(self).wf(),
            *r == (if old(self).spec_groups().contains_key(id) {
                old(self).spec_groups()[id]
            } else {
                fresh
            }),
            final(self).spec_groups() == old(self).spec_groups().insert(id, *final(r)),
            final(self).spec_drawn() == match old(self).spec_drawn() {
                Some(d) => Some(d.insert(id)),
                None => None::<Set<u64>>,
            },
            final(self).spec_count() == old(self).spec_count(),
    {
        if !self.groups.contains_key(&id) {
            self.ids.push(id);
        }
        let mut drawn = self.drawn.take();
        match drawn {
            Some(ref mut d) => {
                d.insert(id);
            },
            None => {},
        }
        self.drawn = drawn;
        proof {
            assert forall|k: u64| self.groups@.insert(id, fresh).contains_key(k) <==> self.ids@.contains(
                k,
            ) by {
                if k != id && self.ids@.contains(k) {
                    let p = choose|p: int| 0 <= p < self.ids@.len() && self.ids@[p] == k;
                    if p == self.ids@.len() - 1 && !old(self).groups@.contains_key(id) {
                        assert(false);
                    }
                    assert(old(self).ids@.contains(k));
                }
                if old(self).ids@.contains(k) {
                    let p = choose|p: int| 0 <= p < old(self).ids@.len() && old(self).ids@[p] == k;
                    assert(self.ids@[p] == k);
                }
                if k == id {
                    assert(self.ids@.contains(id) || old(self).ids@.contains(id)) by {
                        if !old(self).groups@.contains_key(id) {
                            assert(self.ids@[self.ids@.len() - 1] == id);
                        }
                    }
                    if old(self).ids@.contains(id) {
                        let p = choose|p: int|
                            0 <= p < old(self).ids@.len() && old(self).ids@[p] == id;
                        assert(self.ids@[p] == id);
                    }
                }
            }
        }
        self.groups.entry(id).or_insert(fresh)
    }

    /// Ends a frame. After a clean-up frame the cache holds exactly the groups of the widgets
    /// drawn in it, each as it was. Returns whether the frame was a clean-up frame.
    pub fn end_frame(&mut self) -> (cleaned: bool)
        requires
            old(self).wf(),
        ensures
            final(self).wf(),
            cleaned == old(self).spec_drawn() is Some,
            final(self).spec_drawn() is None,
            final(self).spec_count() == old(self).spec_count(),
            match old(self).spec_drawn() {
                Some(d) => {
                    &&& final(self).spec_groups() == old(self).spec_groups().restrict(d)
                    &&& final(self).spec_groups().dom() == d
                },
                None => final(self).spec_groups() == old(self).spec_groups(),
            },
    {
        let drawn = self.drawn.take();
        match drawn {
            Some(d) => {
                let ghost old_groups = self.groups@;
                let ghost old_ids = self.ids@;
                let mut kept: Vec<u64> = Vec::new();
                let mut i: usize = 0;
                while i < self.ids.len()
                    invariant
                        self.ids@ == old_ids,
                        self.drawn is None,
                        self.counter == old(self).counter,
                        0 <= i <= old_ids.len(),
                        forall|a: int, b: int|
                            0 <= a < b < old_ids.len() ==> #[trigger] old_ids[a] != #[trigger] old_ids[b],
                        forall|k: u64| old_groups.contains_key(k) <==> old_ids.contains(k),
                        d@.subset_of(old_groups.dom()),
                        forall|a: int, b: int|
                            0 <= a < b < kept@.len() ==> #[trigger] kept@[a] != #[trigger] kept@[b],
                        forall|k: u64|
                            kept@.contains(k) <==> (old_ids.take(i as int).contains(k) && d@.contains(
                                k,
                            )),
                        forall|k: u64|
                            #[trigger] self.groups@.contains_key(k) <==> (old_groups.contains_key(k)
                                && (d@.contains(k) || !old_ids.take(i as int).contains(k))),
                        forall|k: u64|
                            self.groups@.contains_key(k) ==> self.groups@[k] == old_groups[k],
                    decreases old_ids.len() - i,
                {
                    let id = self.ids[i];
                    proof {
                        assert(old_ids.take(i + 1) =~= old_ids.take(i as int).push(id));
                        assert forall|k: u64|
                            old_ids.take(i + 1).contains(k) <==> (old_ids.take(i as int).contains(k)
                                || k == id) by {
                            if old_ids.take(i + 1).contains(k) && k != id {
                                let t = old_ids.take(i + 1);
                                let p = choose|p: int| 0 <= p < t.len() && t[p] == k;
                                assert(old_ids.take(i as int)[p] == k);
                            }
                            if old_ids.take(i as int).contains(k) {
                                let t = old_ids.take(i as int);
                                let p = choose|p: int| 0 <= p < t.len() && t[p] == k;
                                assert(old_ids.take(i + 1)[p] == k);
                            }
                            if k == id {
                                assert(old_ids.take(i + 1)[i as int] == id);
                            }
                        }
                        assert(!old_ids.take(i as int).contains(id)) by {
                            if old_ids.take(i as int).contains(id) {
                                let t = old_ids.take(i as int);
                                let p = choose|p: int| 0 <= p < t.len() && t[p] == id;
                                assert(old_ids[p] == id);
                            }
                        }
                    }
                    let ghost prev_kept = kept@;
                    let ghost prev_groups = self.groups@;
                    if d.contains(&id) {
                        kept.push(id);
                    } else {
                        self.groups.remove(&id);
                    }
                    proof {
                        broadcast use vstd::seq_lib::lemma_seq_contains_after_push;

                        assert(d@.contains(id) ==> kept@ == prev_kept.push(id));
                        assert(!d@.contains(id) ==> kept@ == prev_kept);
                        assert(d@.contains(id) ==> self.groups@ == prev_groups);
                        assert(!d@.contains(id) ==> self.groups@ == prev_groups.remove(id));
                        assert forall|a: int, b: int|
                            0 <= a < b < kept@.len() implies #[trigger] kept@[a] != #[trigger] kept@[b] by {
                            if d@.contains(id) && b == kept@.len() - 1 {
                                assert(prev_kept.contains(kept@[a]));
                            }
                        }
                    }
                    i += 1;
                    proof {
                        assert forall|k: u64|
                            #[trigger] self.groups@.contains_key(k) <==> (old_groups.contains_key(k)
                                && (d@.contains(k) || !old_ids.take(i as int).contains(k))) by {
                            if k == id {
                                assert(old_ids.take(i as int)[i - 1] == id);
                                assert(old_ids.take(i as int).contains(id));
                            } else {
                                assert(old_ids.take(i as int).contains(k) <==> old_ids.take(i - 1).contains(k));
                                assert(self.groups@.contains_key(k) <==> prev_groups.contains_key(k));
                                assert(prev_groups.contains_key(k) <==> (old_groups.contains_key(k) && (
                                    d@.contains(k) || !old_ids.take(i - 1).contains(k))));
                            }
                        }
                    }
                }
                proof {
                    assert(old_ids.take(old_ids.len() as int) =~= old_ids);
                    assert(self.groups@ =~= old_groups.restrict(d@));
                    assert(self.groups@.dom() =~= d@);
                }
                self.ids = kept;
                true
            },
            None => false,
        }
    }
}

} // verus!
