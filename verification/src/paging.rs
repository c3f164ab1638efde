//! The host page-table set: an identity-mapped address space for root-mode
//! execution. The table contents are the page-table builder's concern; the
//! control core records only whether the identity mapping has been built,
//! which it establishes once at construction and never revokes.

use vstd::prelude::*;

verus! {

/// Identity-mapped page-table set for host/root-mode virtual memory.
pub struct PageTables {
    identity_mapped: bool,
}

impl PageTables {
    /// Whether the identity mapping has been built into the tables.
    pub closed spec fn is_identity_mapped(&self) -> bool {
        self.identity_mapped
    }

    /// A zeroed table set, before any mapping is built.
    pub fn new_zeroed() -> (pt: PageTables)
        ensures
            !pt.is_identity_mapped(),
    {
        PageTables { identity_mapped: false }
    }

    /// Builds the identity mapping. Done exactly once, at construction of the
    /// control object; the tables are immutable thereafter.
    pub fn build_identity(&mut self)
        ensures
            final(self).is_identity_mapped(),
    {
        self.identity_mapped = true;
    }
}

} // verus!
