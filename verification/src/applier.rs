//! Planning a force server-side apply for one fixture document: resolve its
//! type against the discovery catalog, pick the target collection from the
//! resolved scope, and fix the write's identity (field manager, force).

use vstd::prelude::*;
use crate::gvk::{GroupVersionKind, GvkView};
use crate::discovery::{DiscoveryCatalog, CatalogEntryView, ResourceScope, resolved, has_entry};
use crate::fixture::{FixtureDocument, FixtureDocView, opt_str_view};

verus! {

/// The collection a write is addressed to: the whole-cluster collection of a
/// type, or that type's collection inside one namespace.
#[derive(Debug)]
pub enum ApplyTarget {
    Cluster,
    InNamespace(String),
}

/// Mathematical image of an `ApplyTarget`.
pub enum ApplyTargetView {
    Cluster,
    InNamespace(Seq<char>),
}

impl View for ApplyTarget {
    type V = ApplyTargetView;

    open spec fn view(&self) -> ApplyTargetView {
        match self {
            ApplyTarget::Cluster => ApplyTargetView::Cluster,
            ApplyTarget::InNamespace(ns) => ApplyTargetView::InNamespace(ns@),
        }
    }
}

/// The target a document's scope and namespace fields call for: a
/// cluster-scoped type is always addressed cluster-wide, whatever namespace
/// the document names; a namespaced type goes to the document's namespace,
/// or to the caller's default namespace when the document names none.
pub open spec fn target_spec(
    scope: ResourceScope,
    doc_namespace: Option<Seq<char>>,
    default_namespace: Seq<char>,
) -> ApplyTargetView {
    match scope {
        ResourceScope::Cluster => ApplyTargetView::Cluster,
        ResourceScope::Namespaced => match doc_namespace {
            Option::Some(ns) => ApplyTargetView::InNamespace(ns),
            Option::None => ApplyTargetView::InNamespace(default_namespace),
        },
    }
}

/// Pick the collection to write to from the resolved scope and the
/// document's namespace field.
pub fn select_target(
    scope: ResourceScope,
    doc_namespace: &Option<String>,
    default_namespace: &str,
) -> (t: ApplyTarget)
    ensures
        t@ == target_spec(scope, opt_str_view(*doc_namespace), default_namespace@),
        scope == ResourceScope::Cluster ==> t is Cluster,
{
    match scope {
        ResourceScope::Cluster => ApplyTarget::Cluster,
        ResourceScope::Namespaced => match doc_namespace {
            Some(ns) => ApplyTarget::InNamespace(ns.clone()),
            None => ApplyTarget::InNamespace(String::from_str(default_namespace)),
        },
    }
}

/// One planned force server-side apply, ready to be committed.
#[derive(Debug)]
pub struct ApplyOp {
    /// The document's type coordinates.
    pub gvk: GroupVersionKind,
    /// REST resource name of the document's type.
    pub resource: String,
    /// The collection the write is addressed to.
    pub target: ApplyTarget,
    /// The object's name.
    pub name: String,
    /// The applier's fixed field-manager identity.
    pub field_manager: String,
    /// Conflicting ownership is overridden.
    pub force: bool,
    /// The full document text to commit.
    pub body: String,
}

/// Mathematical image of an `ApplyOp`.
pub struct ApplyOpView {
    pub gvk: GvkView,
    pub resource: Seq<char>,
    pub target: ApplyTargetView,
    pub name: Seq<char>,
    pub field_manager: Seq<char>,
    pub force: bool,
    pub body: Seq<char>,
}

impl View for ApplyOp {
    type V = ApplyOpView;

    open spec fn view(&self) -> ApplyOpView {
        ApplyOpView {
            gvk: self.gvk@,
            resource: self.resource@,
            target: self.target@,
            name: self.name@,
            field_manager: self.field_manager@,
            force: self.force,
            body: self.body@,
        }
    }
}

/// The fixed field-manager identity every fixture apply claims.
pub open spec fn manager_name() -> Seq<char> {
    "ktest"@
}

/// The apply that a document calls for under a catalog, meaningful only
/// when the catalog has an entry for the document's coordinates.
pub open spec fn plan_spec(
    c: Seq<CatalogEntryView>,
    doc: FixtureDocView,
    default_namespace: Seq<char>,
) -> ApplyOpView {
    let (resource, scope) = resolved(c, doc.gvk).unwrap();
    ApplyOpView {
        gvk: doc.gvk,
        resource: resource,
        target: target_spec(scope, doc.namespace, default_namespace),
        name: doc.name,
        field_manager: manager_name(),
        force: true,
        body: doc.body,
    }
}

/// Plan the apply for one document: resolution failure is fatal and is
/// reported with the offending coordinates; success fixes the target, the
/// field manager, and forced ownership.
pub fn plan_apply(
    catalog: &DiscoveryCatalog,
    doc: &FixtureDocument,
    default_namespace: &str,
) -> (r: Result<ApplyOp, GroupVersionKind>)
    ensures
        r is Ok <==> has_entry(catalog@, doc@.gvk),
        r matches Ok(op) ==> op@ == plan_spec(catalog@, doc@, default_namespace@),
        r matches Err(g) ==> g@ == doc@.gvk,
{
    match catalog.resolve(&doc.gvk) {
        Some((resource, scope)) => {
            let target = select_target(scope, &doc.namespace, default_namespace);
            Ok(ApplyOp {
                gvk: doc.gvk.duplicate(),
                resource,
                target,
                name: doc.name.clone(),
                field_manager: String::from_str("ktest"),
                force: true,
                body: doc.body.clone(),
            })
        },
        None => Err(doc.gvk.duplicate()),
    }
}

} // verus!
