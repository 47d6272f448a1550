//! The mapping from window handle to window state.

use crate::window_info::{WindowInfo, WindowInfoView};
use std::collections::HashMap;
use vstd::prelude::*;
use vstd::std_specs::iter::IteratorSpec;

verus! {

broadcast use vstd::std_specs::hash::group_hash_axioms;

/// The windows currently believed visible, keyed by handle. Each handle has
/// at most one entry.
pub struct Registry {
    entries: HashMap<isize, WindowInfo>,
}

/// The values of a sequence of snapshot entries.
pub open spec fn entries_view(entries: Seq<(isize, WindowInfo)>) -> Seq<(isize, WindowInfoView)> {
    Seq::new(entries.len(), |i: int| (entries[i].0, entries[i].1@))
}

/// `entries` lists `windows` exactly: every entry is a window of the map
/// with the map's state, no handle is listed twice, and every window of the
/// map is listed. The order of the entries is left open.
pub open spec fn is_snapshot_of(
    entries: Seq<(isize, WindowInfoView)>,
    windows: Map<isize, WindowInfoView>,
) -> bool {
    &&& forall|i: int|
        0 <= i < entries.len() ==> windows.contains_key(#[trigger] entries[i].0)
            && windows[entries[i].0] == entries[i].1
    &&& forall|i: int, j: int|
        0 <= i < j < entries.len() ==> #[trigger] entries[i].0 != #[trigger] entries[j].0
    &&& forall|h: isize| #[trigger]
        windows.contains_key(h) ==> exists|i: int|
            0 <= i < entries.len() && #[trigger] entries[i].0 == h
}

impl View for Registry {
    type V = Map<isize, WindowInfoView>;

    closed spec fn view(&self) -> Map<isize, WindowInfoView> {
        self.entries@.map_values(|info: WindowInfo| info@)
    }
}

impl Registry {
    /// A registry without windows.
    pub fn new() -> (r: Registry)
        ensures
            r@ == Map::<isize, WindowInfoView>::empty(),
    {
        let r = Registry { entries: HashMap::new() };
        assert(r@ =~= Map::<isize, WindowInfoView>::empty());
        r
    }

    /// Records `info` as the state of `handle`, in place of what was
    /// recorded of it before.
    pub fn upsert(&mut self, handle: isize, info: WindowInfo)
        ensures
            final(self)@ == old(self)@.insert(handle, info@),
    {
        self.entries.insert(handle, info);
        assert(self@ =~= old(self)@.insert(handle, info@));
    }

    /// Forgets `handle`. Returns whether it was recorded.
    pub fn remove(&mut self, handle: isize) -> (was_present: bool)
        ensures
            final(self)@ == old(self)@.remove(handle),
            was_present == old(self)@.contains_key(handle),
    {
        let removed = self.entries.remove(&handle);
        assert(self@ =~= old(self)@.remove(handle));
        removed.is_some()
    }

    /// Whether `handle` is recorded.
    pub fn contains(&self, handle: isize) -> (b: bool)
        ensures
            b == self@.contains_key(handle),
    {
        self.entries.contains_key(&handle)
    }

    /// A copy of what is recorded of `handle`.
    pub fn get(&self, handle: isize) -> (found: Option<WindowInfo>)
        ensures
            match found {
                Some(info) => self@.contains_key(handle) && info@ == self@[handle],
                None => !self@.contains_key(handle),
            },
    {
        match self.entries.get(&handle) {
            Some(info) => Some(info.clone()),
            None => None,
        }
    }

    /// A copy of every entry, one per recorded window, in the order in which
    /// the underlying table yields them.
    pub fn snapshot(&self) -> (entries: Vec<(isize, WindowInfo)>)
        ensures
            is_snapshot_of(entries_view(entries@), self@),
            self@.dom().finite(),
            entries@.len() == self@.dom().len(),
    {
        let mut entries: Vec<(isize, WindowInfo)> = Vec::new();
        let ghost walk = self.entries.iter().remaining();
        for pair in it: self.entries.iter()
            invariant
                it.seq() == walk,
                entries@.len() == it.index(),
                forall|i: int|
                    0 <= i < entries@.len() ==> (#[trigger] entries@[i]).0 == *walk[i].0
                        && entries@[i].1@ == (*walk[i].1)@,
        {
            let (handle, info) = pair;
            entries.push((*handle, info.clone()));
        }
        proof {
            let listed = entries_view(entries@);
            assert(self@.dom() =~= self.entries@.dom());
            assert(walk.no_duplicates());
            assert forall|i: int, j: int| 0 <= i < j < listed.len() implies #[trigger] listed[i].0
                != #[trigger] listed[j].0 by {
                if listed[i].0 == listed[j].0 {
                    assert(self.entries@.contains_key(*walk[i].0));
                    assert(self.entries@.contains_key(*walk[j].0));
                    assert(walk[i] == walk[j]);
                }
            }
            assert forall|h: isize| #[trigger] self@.contains_key(h) implies exists|i: int|
                0 <= i < listed.len() && #[trigger] listed[i].0 == h by {
                assert(self.entries@.contains_key(h));
                let pair = (&h, &self.entries@[h]);
                assert(walk.contains(pair));
                let i = choose|i: int| 0 <= i < walk.len() && walk[i] == pair;
                assert(listed[i].0 == h);
            }
            assert forall|i: int| 0 <= i < listed.len() implies self@.contains_key(
                #[trigger] listed[i].0,
            ) && self@[listed[i].0] == listed[i].1 by {
                assert(self.entries@.contains_key(*walk[i].0));
            }
        }
        entries
    }

    /// The number of windows recorded.
    pub fn len(&self) -> (n: usize)
        ensures
            self@.dom().finite(),
            n == self@.dom().len(),
    {
        assert(self@.dom() =~= self.entries@.dom());
        self.entries.len()
    }

    /// Whether no window is recorded.
    pub fn is_empty(&self) -> (b: bool)
        ensures
            b == (self@ == Map::<isize, WindowInfoView>::empty()),
    {
        assert(self@.dom() =~= self.entries@.dom());
        assert(self.entries@.dom().len() == 0 <==> self@ =~= Map::<isize, WindowInfoView>::empty());
        self.entries.len() == 0
    }
}

} // verus!
