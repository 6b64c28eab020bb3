//! A queue that keeps the newest entries: stacked frames of an observation
//! window, the history of finished episodes.  When it is at its limit, the
//! oldest entry leaves before a new one comes in.
use vstd::prelude::*;
use std::collections::VecDeque;
use crate::hindsight::spec_archive;

verus! {

/// The newest entries, oldest first, at most `limit` of them (one when the
/// limit is zero).
#[derive(Debug, Clone)]
pub struct RecentWindow<T> {
    items: VecDeque<T>,
    limit: usize,
}

impl<T> RecentWindow<T> {
    /// The entries, oldest first.
    pub closed spec fn spec_items(&self) -> Seq<T> {
        self.items@
    }

    /// The number of entries kept.
    pub closed spec fn spec_limit(&self) -> nat {
        self.limit as nat
    }

    /// An empty window keeping `limit` entries.
    pub fn new(limit: usize) -> (w: Self)
        ensures
            w.spec_items() == Seq::<T>::empty(),
            w.spec_limit() == limit,
    {
        RecentWindow { items: VecDeque::new(), limit }
    }

    /// The number of entries kept.
    pub fn limit(&self) -> (n: usize)
        ensures
            n == self.spec_limit(),
    {
        self.limit
    }

    /// Number of entries.
    pub fn len(&self) -> (n: usize)
        ensures
            n == self.spec_items().len(),
    {
        self.items.len()
    }

    /// Whether there is no entry.
    pub fn is_empty(&self) -> (b: bool)
        ensures
            b == (self.spec_items().len() == 0),
    {
        self.items.len() == 0
    }

    /// The entries, oldest first.
    pub fn items(&self) -> (v: &VecDeque<T>)
        ensures
            v@ == self.spec_items(),
    {
        &self.items
    }

    /// The newest entry.
    pub fn newest(&self) -> (r: Option<&T>)
        ensures
            self.spec_items().len() == 0 <==> r is None,
            r matches Some(x) ==> *x == self.spec_items().last(),
    {
        if self.items.len() == 0 {
            None
        } else {
            Some(&self.items[self.items.len() - 1])
        }
    }

    /// Adds `item` as the newest entry; at the limit the oldest leaves first.
    pub fn push(&mut self, item: T)
        ensures
            final(self).spec_limit() == old(self).spec_limit(),
            final(self).spec_items() == spec_archive(old(self).spec_items(), old(self).spec_limit(), item),
    {
        let ghost before = self.items@;
        if self.items.len() >= self.limit {
            let _ = self.items.pop_front();
        }
        self.items.push_back(item);
        proof {
            if before.len() >= self.limit && before.len() > 0 {
                assert(self.items@ =~= before.drop_first().push(item));
            }
        }
    }

    /// Removes every entry.
    pub fn clear(&mut self)
        ensures
            final(self).spec_limit() == old(self).spec_limit(),
            final(self).spec_items() == Seq::<T>::empty(),
    {
        self.items.clear();
    }
}

} // verus!
