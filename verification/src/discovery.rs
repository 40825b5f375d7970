//! The discovery catalog: a frozen snapshot of the resource types a live API
//! server serves, mapping type coordinates to their REST resource name and
//! scope. Lookup is pure; the snapshot is built once per run.

use vstd::prelude::*;
use crate::gvk::{GroupVersionKind, GvkView};

verus! {

/// Whether a resource type exists once per cluster or once per namespace.
#[derive(Clone, Copy, Debug, PartialEq, Eq, Structural)]
pub enum ResourceScope {
    Cluster,
    Namespaced,
}

/// One discovered resource type: its coordinates, REST resource name, and
/// scope.
pub struct CatalogEntry {
    pub gvk: GroupVersionKind,
    pub resource: String,
    pub scope: ResourceScope,
}

/// Mathematical image of a `CatalogEntry`.
pub struct CatalogEntryView {
    pub gvk: GvkView,
    pub resource: Seq<char>,
    pub scope: ResourceScope,
}

impl View for CatalogEntry {
    type V = CatalogEntryView;

    open spec fn view(&self) -> CatalogEntryView {
        CatalogEntryView { gvk: self.gvk@, resource: self.resource@, scope: self.scope }
    }
}

pub open spec fn entries_view(es: Seq<CatalogEntry>) -> Seq<CatalogEntryView> {
    Seq::new(es.len(), |i: int| es[i]@)
}

/// Some entry of the catalog carries these coordinates.
pub open spec fn has_entry(c: Seq<CatalogEntryView>, g: GvkView) -> bool {
    exists|i: int| 0 <= i < c.len() && c[i].gvk == g
}

/// `i` is the first entry carrying these coordinates.
pub open spec fn is_first_entry(c: Seq<CatalogEntryView>, g: GvkView, i: int) -> bool {
    &&& 0 <= i < c.len()
    &&& c[i].gvk == g
    &&& forall|j: int| 0 <= j < i ==> c[j].gvk != g
}

/// What resolving coordinates against a catalog yields: the resource name
/// and scope of the first entry that carries them, if any does.
pub open spec fn resolved(c: Seq<CatalogEntryView>, g: GvkView) -> Option<(Seq<char>, ResourceScope)> {
    if exists|i: int| is_first_entry(c, g, i) {
        let i = choose|i: int| is_first_entry(c, g, i);
        Option::Some((c[i].resource, c[i].scope))
    } else {
        Option::None
    }
}

proof fn lemma_first_entry_unique(c: Seq<CatalogEntryView>, g: GvkView, i: int, j: int)
    requires
        is_first_entry(c, g, i),
        is_first_entry(c, g, j),
    ensures
        i == j,
{
    if i < j {
        assert(c[i].gvk != g);
    } else if j < i {
        assert(c[j].gvk != g);
    }
}

/// The frozen discovery snapshot for one test run.
pub struct DiscoveryCatalog {
    entries: Vec<CatalogEntry>,
}

impl View for DiscoveryCatalog {
    type V = Seq<CatalogEntryView>;

    closed spec fn view(&self) -> Seq<CatalogEntryView> {
        entries_view(self.entries@)
    }
}

impl DiscoveryCatalog {
    /// Freeze a full discovery sweep's results into a catalog.
    pub fn from_entries(entries: Vec<CatalogEntry>) -> (c: DiscoveryCatalog)
        ensures
            c@ == entries_view(entries@),
    {
        DiscoveryCatalog { entries }
    }

    /// Pure lookup of coordinates in the snapshot: `None` means the type is
    /// unknown to the server, which the caller must treat as fatal.
    pub fn resolve(&self, gvk: &GroupVersionKind) -> (r: Option<(String, ResourceScope)>)
        ensures
            match r {
                Option::Some(p) => resolved(self@, gvk@) == Option::Some((p.0@, p.1)),
                Option::None => resolved(self@, gvk@) is None && !has_entry(self@, gvk@),
            },
    {
        let n: usize = self.entries.len();
        let mut i: usize = 0;
        while i < n
            invariant
                0 <= i <= n,
                n == self@.len(),
                forall|j: int| 0 <= j < i ==> self@[j].gvk != gvk@,
            decreases n - i,
        {
            let e = &self.entries[i];
            if e.gvk.same_as(gvk) {
                proof {
                    assert(is_first_entry(self@, gvk@, i as int));
                    lemma_first_entry_unique(
                        self@,
                        gvk@,
                        i as int,
                        choose|k: int| is_first_entry(self@, gvk@, k),
                    );
                }
                return Some((e.resource.clone(), e.scope));
            }
            i += 1;
        }
        proof {
            assert forall|i: int| !is_first_entry(self@, gvk@, i) by {}
            assert(!has_entry(self@, gvk@));
        }
        None
    }
}

} // verus!
