//! Layout bookkeeping: which children a layout widget arranges, in which order.
//!
//! A stack layout (vertical or horizontal) registers each child under a fresh id and lays the
//! children out in the order of its registry, which is an `IndexMap` keyed by child id.

use vstd::prelude::*;

use indexmap::IndexMap;

verus! {

#[verifier::external_type_specification]
#[verifier::external_body]
#[verifier::reject_recursive_types(K)]
#[verifier::reject_recursive_types(V)]
#[verifier::reject_recursive_types(S)]
pub struct ExIndexMap<K, V, S>(IndexMap<K, V, S>);

/// The keys of an id registry, in the map's order.
pub uninterp spec fn registry_ids(m: IndexMap<u64, ()>) -> Seq<u64>;

/// Calls `IndexMap::new`: the new map is empty.
#[verifier::external_body]
fn registry_new() -> (m: IndexMap<u64, ()>)
    ensures
        registry_ids(m) == Seq::<u64>::empty(),
{
    IndexMap::new()
}

/// Calls `IndexMap::len`: the number of keys.
#[verifier::external_body]
fn registry_len(m: &IndexMap<u64, ()>) -> (r: usize)
    ensures
        r == registry_ids(*m).len(),
{
    m.len()
}

/// Calls `IndexMap::insert`. A key already present keeps its place (and `Some` is returned);
/// a new key is added last (and `None` is returned).
#[verifier::external_body]
fn registry_insert(m: &mut IndexMap<u64, ()>, k: u64) -> (r: Option<()>)
    ensures
        registry_ids(*old(m)).contains(k) ==> r is Some && registry_ids(*final(m)) == registry_ids(
            *old(m),
        ),
        !registry_ids(*old(m)).contains(k) ==> r is None && registry_ids(*final(m))
            == registry_ids(*old(m)).push(k),
{
    m.insert(k, ())
}

/// Calls `IndexMap::swap_remove` (which `IndexMap::remove` forwards to). A key at place `i` is
/// removed by moving the last key into place `i` (and `Some` is returned); an absent key
/// leaves the map as it was (and `None` is returned).
#[verifier::external_body]
fn registry_swap_remove(m: &mut IndexMap<u64, ()>, k: u64) -> (r: Option<()>)
    ensures
        !registry_ids(*old(m)).contains(k) ==> r is None && registry_ids(*final(m))
            == registry_ids(*old(m)),
        registry_ids(*old(m)).contains(k) ==> r is Some && exists|i: int|
            0 <= i < registry_ids(*old(m)).len() && registry_ids(*old(m))[i] == k
                && registry_ids(*final(m)) == registry_ids(*old(m)).update(
                i,
                registry_ids(*old(m)).last(),
            ).drop_last(),
{
    m.swap_remove(&k)
}

/// Calls `IndexMap::get_index` and keeps the key: the key at place `i`, if there is one.
#[verifier::external_body]
fn registry_get_index(m: &IndexMap<u64, ()>, i: usize) -> (r: Option<u64>)
    ensures
        i < registry_ids(*m).len() ==> r == Some(registry_ids(*m)[i as int]),
        i >= registry_ids(*m).len() ==> r is None,
{
    m.get_index(i).map(|(k, _)| *k)
}

/// The ids after removing `id` the way the registry does: the last id takes its place (an
/// absent id changes nothing).
pub open spec fn spec_swap_remove(ids: Seq<u64>, id: u64) -> Seq<u64> {
    if ids.contains(id) {
        ids.update(ids.index_of(id), ids.last()).drop_last()
    } else {
        ids
    }
}

/// The ids after removing each of `dropped`, in order, the way the registry does.
pub open spec fn spec_remove_all(ids: Seq<u64>, dropped: Seq<u64>) -> Seq<u64>
    decreases dropped.len(),
{
    if dropped.len() == 0 {
        ids
    } else {
        spec_swap_remove(spec_remove_all(ids, dropped.drop_last()), dropped.last())
    }
}

/// Hands out layout identities, each once: layouts made from one source never share an
/// identity, so a child of one of them is never taken for a child of another.
pub struct LayoutIds {
    next: u64,
}

impl LayoutIds {
    /// The identity the next layout will get.
    pub closed spec fn spec_next(&self) -> u64 {
        self.next
    }

    /// A source that has handed out nothing yet.
    pub fn new() -> (r: Self)
        ensures
            r.spec_next() == 0,
    {
        LayoutIds { next: 0 }
    }

    /// A new layout identity, different from every one this source handed out before (they are
    /// all smaller); `None` once every identity has been handed out.
    pub fn fresh(&mut self) -> (id: Option<u64>)
        ensures
            id is Some <==> old(self).spec_next() < u64::MAX,
            id matches Some(i) ==> i == old(self).spec_next() && final(self).spec_next() == i + 1,
            id is None ==> final(self).spec_next() == old(self).spec_next(),
    {
        if self.next < u64::MAX {
            let id = self.next;
            self.next = id + 1;
            Some(id)
        } else {
            None
        }
    }
}

/// What a child keeps to be found again by the layout it was pushed into: that layout's
/// identity and the child's id within it.
#[derive(Debug, Clone, Copy, PartialEq, Eq, Hash, Structural)]
pub struct ChildHandle {
    pub layout: u64,
    pub child: u64,
}

/// The children registry of a stack layout: its identity, the child ids in layout order, the
/// next id to hand out, and whether the layout must be recomputed.
pub struct LayoutChildren {
    layout: u64,
    rects: IndexMap<u64, ()>,
    next_rect_id: u64,
    dirty: bool,
}

impl LayoutChildren {
    /// The layout's identity.
    pub closed spec fn spec_layout(&self) -> u64 {
        self.layout
    }

    /// The child ids, in layout order.
    pub closed spec fn spec_ids(&self) -> Seq<u64> {
        registry_ids(self.rects)
    }

    /// The id the next child will get.
    pub closed spec fn spec_next_id(&self) -> u64 {
        self.next_rect_id
    }

    /// Whether the layout must be recomputed.
    pub closed spec fn spec_dirty(&self) -> bool {
        self.dirty
    }

    /// No id twice, and every id was handed out before the next one.
    pub open spec fn wf(&self) -> bool {
        &&& forall|i: int, j: int|
            0 <= i < j < self.spec_ids().len() ==> #[trigger] self.spec_ids()[i]
                != #[trigger] self.spec_ids()[j]
        &&& forall|i: int|
            0 <= i < self.spec_ids().len() ==> #[trigger] self.spec_ids()[i]
                < self.spec_next_id()
    }

    /// A registry with no child, which must be laid out, for the layout with identity `layout`
    /// (taken from `LayoutIds::fresh`).
    pub fn new(layout: u64) -> (r: Self)
        ensures
            r.wf(),
            r.spec_layout() == layout,
            r.spec_ids().len() == 0,
            r.spec_next_id() == 0,
            r.spec_dirty(),
    {
        LayoutChildren { layout, rects: registry_new(), next_rect_id: 0, dirty: true }
    }

    /// The layout's identity.
    pub fn layout(&self) -> (r: u64)
        ensures
            r == self.spec_layout(),
    {
        self.layout
    }

    /// Registers a new child: it gets the next id and goes last in the layout order.
    /// Returns the handle the child keeps to be found again: this layout's identity and the id.
    pub fn push(&mut self) -> (h: ChildHandle)
        requires
            old(self).wf(),
            old(self).spec_next_id() < u64::MAX,
        ensures
            final(self).wf(),
            h == (ChildHandle { layout: old(self).spec_layout(), child: old(self).spec_next_id() }),
            final(self).spec_layout() == old(self).spec_layout(),
            final(self).spec_next_id() == old(self).spec_next_id() + 1,
            final(self).spec_ids() == old(self).spec_ids().push(h.child),
            final(self).spec_dirty(),
    {
        let id = self.next_rect_id;
        proof {
            let old_ids = old(self).spec_ids();
            if old_ids.contains(id) {
                let i = choose|i: int| 0 <= i < old_ids.len() && old_ids[i] == id;
                assert(old_ids[i] < old(self).spec_next_id());
            }
        }
        self.dirty = true;
        self.next_rect_id = id + 1;
        let _ = registry_insert(&mut self.rects, id);
        proof {
            let old_ids = old(self).spec_ids();
            let new_ids = self.spec_ids();
            assert(new_ids == old_ids.push(id));
            assert forall|a: int, b: int|
                0 <= a < b < new_ids.len() implies #[trigger] new_ids[a] != #[trigger] new_ids[b] by {
                if b == old_ids.len() {
                    assert(old_ids[a] < old(self).spec_next_id());
                } else {
                    assert(old_ids[a] != old_ids[b]);
                }
            }
            assert forall|a: int| 0 <= a < new_ids.len() implies #[trigger] new_ids[a]
                < self.spec_next_id() by {
                if a < old_ids.len() {
                    assert(old_ids[a] < old(self).spec_next_id());
                }
            }
        }
        ChildHandle { layout: self.layout, child: id }
    }

    /// De-registers the child a handle names, if the handle is one of this layout's and the
    /// child is still registered; a handle of another layout (or none) changes nothing.
    /// The last child takes the removed child's place in the layout order.
    /// Returns whether a child was removed (the caller then detaches it and may restore its
    /// original rectangle). Removal alone does not mark the layout for recomputation.
    pub fn remove(&mut self, handle: Option<ChildHandle>) -> (removed: bool)
        requires
            old(self).wf(),
        ensures
            final(self).wf(),
            removed == (handle matches Some(h) && h.layout == old(self).spec_layout()
                && old(self).spec_ids().contains(h.child)),
            final(self).spec_layout() == old(self).spec_layout(),
            final(self).spec_next_id() == old(self).spec_next_id(),
            final(self).spec_dirty() == old(self).spec_dirty(),
            final(self).spec_ids() == match handle {
                Some(h) => if h.layout == old(self).spec_layout() {
                    spec_swap_remove(old(self).spec_ids(), h.child)
                } else {
                    old(self).spec_ids()
                },
                None => old(self).spec_ids(),
            },
    {
        let layout_id = match handle {
            Some(h) => if h.layout == self.layout {
                Some(h.child)
            } else {
                None
            },
            None => None,
        };
        match layout_id {
            Some(id) => {
                let r = registry_swap_remove(&mut self.rects, id);
                proof {
                    let old_ids = old(self).spec_ids();
                    if old_ids.contains(id) {
                        let i = choose|i: int|
                            0 <= i < old_ids.len() && old_ids[i] == id && registry_ids(self.rects)
                                == old_ids.update(i, old_ids.last()).drop_last();
                        let j = old_ids.index_of(id);
                        assert(old_ids[j] == id);
                        assert(j == i);
                        let new_ids = self.spec_ids();
                        assert forall|a: int, b: int|
                            0 <= a < b < new_ids.len() implies #[trigger] new_ids[a]
                            != #[trigger] new_ids[b] by {
                            let oa = if a == i { old_ids.len() - 1 } else { a };
                            let ob = if b == i { old_ids.len() - 1 } else { b };
                            assert(new_ids[a] == old_ids[oa]);
                            assert(new_ids[b] == old_ids[ob]);
                        }
                        assert forall|a: int| 0 <= a < new_ids.len() implies #[trigger] new_ids[a]
                            < self.spec_next_id() by {
                            let oa = if a == i { old_ids.len() - 1 } else { a };
                            assert(new_ids[a] == old_ids[oa]);
                        }
                    }
                }
                r.is_some()
            },
            None => false,
        }
    }

    /// De-registers every child of this layout whose id is listed (its children that were
    /// dropped); the layout must then be recomputed if any child was removed.
    pub fn remove_dropped(&mut self, dropped: &Vec<u64>) -> (count: usize)
        requires
            old(self).wf(),
        ensures
            final(self).wf(),
            final(self).spec_layout() == old(self).spec_layout(),
            final(self).spec_next_id() == old(self).spec_next_id(),
            count <= dropped.len(),
            final(self).spec_dirty() == (old(self).spec_dirty() || count > 0),
            forall|k: int|
                0 <= k < dropped.len() ==> !final(self).spec_ids().contains(#[trigger] dropped@[k]),
            forall|id: u64|
                old(self).spec_ids().contains(id) && !dropped@.contains(id)
                    ==> final(self).spec_ids().contains(id),
            forall|id: u64| final(self).spec_ids().contains(id) ==> old(self).spec_ids().contains(id),
            final(self).spec_ids().len() + count == old(self).spec_ids().len(),
            final(self).spec_ids() == spec_remove_all(old(self).spec_ids(), dropped@),
    {
        let mut count: usize = 0;
        let mut k: usize = 0;
        while k < dropped.len()
            invariant
                self.wf(),
                0 <= k <= dropped.len(),
                count <= k,
                self.spec_layout() == old(self).spec_layout(),
                self.spec_next_id() == old(self).spec_next_id(),
                self.spec_dirty() == (old(self).spec_dirty() || count > 0),
                forall|a: int| 0 <= a < k ==> !self.spec_ids().contains(#[trigger] dropped@[a]),
                forall|id: u64|
                    old(self).spec_ids().contains(id) && !dropped@.take(k as int).contains(id)
                        ==> self.spec_ids().contains(id),
                forall|id: u64| self.spec_ids().contains(id) ==> old(self).spec_ids().contains(id),
                self.spec_ids().len() + count == old(self).spec_ids().len(),
                self.spec_ids() == spec_remove_all(old(self).spec_ids(), dropped@.take(k as int)),
            decreases dropped.len() - k,
        {
            let ghost prev = self.spec_ids();
            let id = dropped[k];
            let layout = self.layout;
            if self.remove(Some(ChildHandle { layout, child: id })) {
                self.dirty = true;
                count += 1;
            }
            proof {
                let cur = self.spec_ids();
                if prev.contains(id) {
                    let i = choose|i: int|
                        0 <= i < prev.len() && Some(prev[i]) == Some(id) && cur == prev.update(
                            i,
                            prev.last(),
                        ).drop_last();
                    assert forall|x: u64| prev.contains(x) && x != id implies cur.contains(x) by {
                        let p = choose|p: int| 0 <= p < prev.len() && prev[p] == x;
                        if p == prev.len() - 1 {
                            assert(cur[i] == x);
                        } else {
                            assert(cur[p] == x);
                        }
                    }
                    assert forall|x: u64| cur.contains(x) implies prev.contains(x) && x != id by {
                        let p = choose|p: int| 0 <= p < cur.len() && cur[p] == x;
                        if p == i {
                            assert(prev[prev.len() - 1] == x);
                        } else {
                            assert(prev[p] == x);
                        }
                    }
                }
                assert(dropped@.take(k + 1) =~= dropped@.take(k as int).push(id));
                assert(dropped@.take(k + 1).drop_last() =~= dropped@.take(k as int));
                assert forall|x: u64|
                    old(self).spec_ids().contains(x) && !dropped@.take(k + 1).contains(x)
                        implies cur.contains(x) by {
                    assert(dropped@.take(k + 1)[k as int] == id);
                    if dropped@.take(k as int).contains(x) {
                        let p = choose|p: int| 0 <= p < k && dropped@.take(k as int)[p] == x;
                        assert(dropped@.take(k + 1)[p] == x);
                    }
                    assert(x != id);
                    assert(prev.contains(x));
                }
            }
            k += 1;
        }
        proof {
            assert(dropped@.take(dropped.len() as int) =~= dropped@);
        }
        count
    }

    /// The id the next child will get.
    pub fn next_id(&self) -> (r: u64)
        ensures
            r == self.spec_next_id(),
    {
        self.next_rect_id
    }

    /// The number of children.
    pub fn len(&self) -> (r: usize)
        ensures
            r == self.spec_ids().len(),
    {
        registry_len(&self.rects)
    }

    /// The child ids, in layout order.
    pub fn ids(&self) -> (r: Vec<u64>)
        ensures
            r@ == self.spec_ids(),
    {
        let n = registry_len(&self.rects);
        let mut r: Vec<u64> = Vec::new();
        let mut i: usize = 0;
        while i < n
            invariant
                n == self.spec_ids().len(),
                0 <= i <= n,
                r@ == self.spec_ids().take(i as int),
            decreases n - i,
        {
            let id = registry_get_index(&self.rects, i);
            match id {
                Some(v) => {
                    r.push(v);
                },
                None => {},
            }
            proof {
                assert(self.spec_ids().take(i + 1) =~= self.spec_ids().take(i as int).push(
                    self.spec_ids()[i as int],
                ));
            }
            i += 1;
        }
        proof {
            assert(self.spec_ids().take(n as int) =~= self.spec_ids());
        }
        r
    }

    /// Marks the layout for recomputation (the layout rectangle or a child rectangle changed).
    pub fn mark_dirty(&mut self)
        ensures
            final(self).spec_dirty(),
            final(self).spec_layout() == old(self).spec_layout(),
            final(self).spec_ids() == old(self).spec_ids(),
            final(self).spec_next_id() == old(self).spec_next_id(),
    {
        self.dirty = true;
    }

    /// Whether the layout must be recomputed; the layout counts as recomputed afterwards.
    pub fn take_dirty(&mut self) -> (r: bool)
        ensures
            r == old(self).spec_dirty(),
            !final(self).spec_dirty(),
            final(self).spec_layout() == old(self).spec_layout(),
            final(self).spec_ids() == old(self).spec_ids(),
            final(self).spec_next_id() == old(self).spec_next_id(),
    {
        let r = self.dirty;
        self.dirty = false;
        r
    }
}

} // verus!

verus! {

/// Removing a child right after pushing it gives back the registry as it was: the new child
/// is last, so moving the last child into its place moves nothing.
pub proof fn lemma_remove_undoes_push(ids: Seq<u64>, id: u64)
    requires
        !ids.contains(id),
    ensures
        spec_swap_remove(ids.push(id), id) == ids,
{
    let s = ids.push(id);
    let n = ids.len() as int;
    assert(s[n] == id);
    let j = s.index_of(id);
    if j < n {
        assert(ids[j] == id);
    }
    assert(s.update(n, s.last()).drop_last() =~= ids);
}

} // verus!
