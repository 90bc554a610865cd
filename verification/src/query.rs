//! A generic paginated-result wrapper: an ordered sequence of items, a
//! page limit and a total count, mutated builder-style.

use vstd::prelude::*;

verus! {

/// A paginated query result. The total defaults to the item count when
/// it is not set explicitly.
#[derive(Default, Debug, Clone, PartialEq)]
pub struct QueryOutput<T> {
    pub items: Vec<T>,
    pub limit: usize,
    pub total: usize,
}

impl<T> QueryOutput<T> {
    /// Replaces the items; the total becomes their count.
    pub fn items(self, items: Vec<T>) -> (r: Self)
        ensures
            r.items@ == items@,
            r.total == items@.len(),
            r.limit == self.limit,
    {
        let total = items.len();
        QueryOutput { items, limit: self.limit, total }
    }

    /// Replaces the limit; nothing else changes.
    pub fn limit(self, limit: usize) -> (r: Self)
        ensures
            r.items@ == self.items@,
            r.limit == limit,
            r.total == self.total,
    {
        QueryOutput { items: self.items, limit, total: self.total }
    }

    /// Replaces the total explicitly; nothing else changes.
    pub fn total(self, count: usize) -> (r: Self)
        ensures
            r.items@ == self.items@,
            r.limit == self.limit,
            r.total == count,
    {
        QueryOutput { items: self.items, limit: self.limit, total: count }
    }
}

} // verus!
