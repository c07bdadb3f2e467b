//! A memoized layout table: computed at most once, then served unchanged.
//!
//! The accessor emitted by the build-time generator computes a record's
//! layout lazily on first use and serves every later call from a cache.
//! `LayoutCache` is that cache as an explicit value: `ensure_computed`
//! fills it at most once, and `table` hands out the stored result.

use crate::layout::{
    compute_layout, fields_valid, layout_matches, table_end, Alignment, FieldSpec,
};
use vstd::prelude::*;

verus! {

/// A record's field list together with its lazily computed layout table.
pub struct LayoutCache {
    fields: Vec<FieldSpec>,
    table: Option<Vec<Alignment>>,
}

impl LayoutCache {
    /// The field list the cache was built for.
    pub closed spec fn spec_fields(&self) -> Seq<FieldSpec> {
        self.fields@
    }

    /// Whether the layout table has been computed yet.
    pub closed spec fn computed(&self) -> bool {
        self.table is Some
    }

    /// The cache is well formed: its field list admits a layout, and if a
    /// table has been stored it is that layout.
    pub closed spec fn wf(&self) -> bool {
        &&& fields_valid(self.fields@)
        &&& table_end(self.fields@) <= usize::MAX
        &&& match self.table {
            Some(t) => layout_matches(self.fields@, t@),
            None => true,
        }
    }

    /// An empty cache for `fields`; nothing is computed yet.
    pub fn new(fields: Vec<FieldSpec>) -> (c: Self)
        requires
            fields_valid(fields@),
            table_end(fields@) <= usize::MAX,
        ensures
            c.wf(),
            !c.computed(),
            c.spec_fields() == fields@,
    {
        LayoutCache { fields, table: None }
    }

    /// Fill the cache if it is empty.  The computation runs at most once:
    /// on a cache that is already filled, nothing changes at all.
    pub fn ensure_computed(&mut self)
        requires
            old(self).wf(),
        ensures
            final(self).wf(),
            final(self).computed(),
            final(self).spec_fields() == old(self).spec_fields(),
            old(self).computed() ==> *final(self) == *old(self),
    {
        if self.table.is_none() {
            let t = compute_layout(&self.fields);
            self.table = Some(t);
        }
    }

    /// The cached layout table.  Every call returns the same table: the one
    /// layout of the cache's field list.
    pub fn table(&self) -> (t: &Vec<Alignment>)
        requires
            self.wf(),
            self.computed(),
        ensures
            layout_matches(self.spec_fields(), t@),
    {
        match &self.table {
            Some(t) => t,
            None => vstd::pervasive::unreached(),
        }
    }
}

} // verus!
