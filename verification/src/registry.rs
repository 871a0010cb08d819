//! The hook table: for each intercepted method, what a call into it needs.

use crate::handles::{SafeJClass, SafeJMethodId};
use std::collections::HashMap;
use vstd::prelude::*;

verus! {

broadcast use vstd::std_specs::hash::group_hash_axioms;

/// What the table holds for one attached hook. The callback is named by its
/// index in the arena of callbacks, so an entry is copied out whole and no
/// caller keeps a reference into the table while a callback runs.
#[derive(Clone, Copy, Debug, PartialEq, Eq, Structural)]
pub struct HookInfo {
    /// Index of the callback.
    pub callback: u64,
    /// Identity under which the original method can still be called.
    pub original_method: SafeJMethodId,
    /// The class that owns the method.
    pub class: SafeJClass,
    /// Whether the method is static.
    pub is_static: bool,
}

impl HookInfo {
    pub fn new(
        callback: u64,
        original_method: SafeJMethodId,
        class: SafeJClass,
        is_static: bool,
    ) -> (r: Self)
        ensures
            r == (HookInfo { callback, original_method, class, is_static }),
    {
        HookInfo { callback, original_method, class, is_static }
    }
}

/// Table from method identity to hook entry.
pub struct HookRegistry {
    hooks: HashMap<usize, HookInfo>,
}

impl View for HookRegistry {
    type V = Map<usize, HookInfo>;

    closed spec fn view(&self) -> Map<usize, HookInfo> {
        self.hooks@
    }
}

impl HookRegistry {
    /// An empty table.
    pub fn new() -> (r: Self)
        ensures
            r@ == Map::<usize, HookInfo>::empty(),
    {
        HookRegistry { hooks: HashMap::new() }
    }

    /// Records `entry` for `id`. An entry already there is replaced: the last
    /// writer wins.
    pub fn insert(&mut self, id: SafeJMethodId, entry: HookInfo)
        ensures
            final(self)@ == old(self)@.insert(id.0, entry),
    {
        let _ = self.hooks.insert(id.0, entry);
    }

    /// Takes the entry of `id` out of the table and returns it, `None` when
    /// there is none.
    pub fn remove(&mut self, id: SafeJMethodId) -> (r: Option<HookInfo>)
        ensures
            final(self)@ == old(self)@.remove(id.0),
            r == (if old(self)@.contains_key(id.0) {
                Some(old(self)@[id.0])
            } else {
                None
            }),
    {
        let key = id.0;
        self.hooks.remove(&key)
    }

    /// A copy of the entry of `id`, `None` when there is none.
    pub fn lookup(&self, id: SafeJMethodId) -> (r: Option<HookInfo>)
        ensures
            r == (if self@.contains_key(id.0) {
                Some(self@[id.0])
            } else {
                None
            }),
    {
        let key = id.0;
        match self.hooks.get(&key) {
            Some(e) => Some(*e),
            None => None,
        }
    }

    /// Whether `id` has an entry.
    pub fn contains(&self, id: SafeJMethodId) -> (r: bool)
        ensures
            r == self@.contains_key(id.0),
    {
        let key = id.0;
        self.hooks.contains_key(&key)
    }

    /// Number of entries.
    pub fn len(&self) -> (r: usize)
        ensures
            r == self@.len(),
            self@.dom().finite(),
    {
        self.hooks.len()
    }

    /// Whether the table holds no entry.
    pub fn is_empty(&self) -> (r: bool)
        ensures
            r == (self@ == Map::<usize, HookInfo>::empty()),
    {
        let n = self.hooks.len();
        proof {
            if n == 0 {
                assert(self@.dom().finite());
                assert(self@.dom().len() == 0);
                assert(self@.dom() =~= Set::<usize>::empty());
                assert(self@ =~= Map::<usize, HookInfo>::empty());
            }
        }
        n == 0
    }
}

/// Attaching to an identity that already has an entry overwrites it: after the
/// second `insert` the table is what a single `insert` of the second entry
/// would have made, and it has grown by no entry.
pub proof fn lemma_reinsert_overwrites(
    table: Map<usize, HookInfo>,
    id: usize,
    first: HookInfo,
    second: HookInfo,
)
    requires
        table.dom().finite(),
    ensures
        table.insert(id, first).insert(id, second) == table.insert(id, second),
        table.insert(id, first).insert(id, second)[id] == second,
        table.insert(id, first).insert(id, second).len() == table.insert(id, first).len(),
{
    assert(table.insert(id, first).insert(id, second) =~= table.insert(id, second));
    assert(table.insert(id, first).insert(id, second).dom() =~= table.insert(id, first).dom());
}

/// Inserting for one identity and removing it again leaves the table as it
/// was, when that identity had no entry before.
pub proof fn lemma_insert_remove_restores(table: Map<usize, HookInfo>, id: usize, entry: HookInfo)
    requires
        !table.contains_key(id),
    ensures
        table.insert(id, entry).remove(id) == table,
{
    assert(table.insert(id, entry).remove(id) =~= table);
}

/// What the table holds for one identity does not change when another
/// identity is inserted or removed.
pub proof fn lemma_other_identity_untouched(
    table: Map<usize, HookInfo>,
    id: usize,
    other: usize,
    entry: HookInfo,
)
    requires
        id != other,
    ensures
        table.insert(other, entry).contains_key(id) == table.contains_key(id),
        table.insert(other, entry)[id] == table[id],
        table.remove(other).contains_key(id) == table.contains_key(id),
        table.remove(other)[id] == table[id],
{
}

} // verus!
