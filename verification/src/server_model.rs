//! A model of the API server's state as one test run observes it: the set of
//! namespaces that exist and, per (resource, namespace, name) coordinate, the
//! last document committed there. A force server-side apply converges the
//! stored object to the applied document, so the model's write is a plain map
//! insert; a write into a namespace that does not exist is rejected, and
//! committing a namespace object makes that namespace exist.

use vstd::prelude::*;
use crate::applier::{ApplyOp, ApplyOpView, ApplyTarget, ApplyTargetView};

verus! {

/// Where one object lives: its type's REST resource name, its namespace
/// (none for a cluster-scoped object), and its name.
pub struct ObjectKey {
    pub resource: String,
    pub namespace: Option<String>,
    pub name: String,
}

/// Mathematical image of an `ObjectKey`.
pub struct ObjectKeyView {
    pub resource: Seq<char>,
    pub namespace: Option<Seq<char>>,
    pub name: Seq<char>,
}

impl View for ObjectKey {
    type V = ObjectKeyView;

    open spec fn view(&self) -> ObjectKeyView {
        ObjectKeyView {
            resource: self.resource@,
            namespace: crate::fixture::opt_str_view(self.namespace),
            name: self.name@,
        }
    }
}

/// The server state one run observes.
#[verifier::ext_equal]
pub struct ClusterView {
    pub namespaces: Set<Seq<char>>,
    pub objects: Map<ObjectKeyView, Seq<char>>,
}

/// The coordinate an apply writes to.
pub open spec fn key_of(op: ApplyOpView) -> ObjectKeyView {
    ObjectKeyView {
        resource: op.resource,
        namespace: match op.target {
            ApplyTargetView::Cluster => Option::None,
            ApplyTargetView::InNamespace(ns) => Option::Some(ns),
        },
        name: op.name,
    }
}

/// The REST resource name of namespace objects.
pub open spec fn namespaces_resource() -> Seq<char> {
    "namespaces"@
}

/// Committing this op makes a namespace named by the op exist.
pub open spec fn creates_namespace(op: ApplyOpView) -> bool {
    op.target is Cluster && op.resource == namespaces_resource()
}

/// Why the modeled server rejects a write.
#[derive(Clone, Copy, Debug, PartialEq, Eq, Structural)]
pub enum ApplyFault {
    /// The write is addressed into a namespace that does not exist.
    MissingNamespace,
}

/// What one force server-side apply does to the observed server state: a
/// namespaced write into an absent namespace is rejected and changes
/// nothing; any other write converges the object at its coordinate to the
/// applied document, and a committed namespace object makes its namespace
/// exist.
pub open spec fn apply_result(s: ClusterView, op: ApplyOpView) -> Result<ClusterView, ApplyFault> {
    match op.target {
        ApplyTargetView::InNamespace(ns) => {
            if !s.namespaces.contains(ns) {
                Result::Err(ApplyFault::MissingNamespace)
            } else {
                Result::Ok(
                    ClusterView {
                        namespaces: s.namespaces,
                        objects: s.objects.insert(key_of(op), op.body),
                    },
                )
            }
        },
        ApplyTargetView::Cluster => Result::Ok(
            ClusterView {
                namespaces: if creates_namespace(op) {
                    s.namespaces.insert(op.name)
                } else {
                    s.namespaces
                },
                objects: s.objects.insert(key_of(op), op.body),
            },
        ),
    }
}

/// Idempotence of force server-side apply: once a document has been
/// committed, applying the very same document again succeeds and leaves no
/// observable difference in the server state.
pub proof fn lemma_apply_idempotent(s: ClusterView, op: ApplyOpView)
    requires
        apply_result(s, op) is Ok,
    ensures
        apply_result(apply_result(s, op).unwrap(), op) == apply_result(s, op),
{
    let s1 = apply_result(s, op).unwrap();
    match op.target {
        ApplyTargetView::InNamespace(ns) => {
            assert(s1.namespaces.contains(ns));
            let s2 = apply_result(s1, op).unwrap();
            assert(s2 =~= s1) by {
                assert(s2.objects =~= s1.objects);
            }
        },
        ApplyTargetView::Cluster => {
            let s2 = apply_result(s1, op).unwrap();
            assert(s2 =~= s1) by {
                assert(s2.objects =~= s1.objects);
                assert(s2.namespaces =~= s1.namespaces);
            }
        },
    }
}

/// The set of namespace names a sequence of name strings holds.
pub open spec fn names_set(s: Seq<String>) -> Set<Seq<char>> {
    Set::new(|x: Seq<char>| exists|i: int| 0 <= i < s.len() && s[i]@ == x)
}

/// The object store an append-only commit log denotes: later commits to a
/// coordinate override earlier ones.
pub open spec fn assoc_map(s: Seq<(ObjectKey, String)>) -> Map<ObjectKeyView, Seq<char>>
    decreases s.len(),
{
    if s.len() == 0 {
        Map::empty()
    } else {
        assoc_map(s.drop_last()).insert(s.last().0@, s.last().1@)
    }
}

proof fn lemma_assoc_push(s: Seq<(ObjectKey, String)>, e: (ObjectKey, String))
    ensures
        assoc_map(s.push(e)) == assoc_map(s).insert(e.0@, e.1@),
{
    assert(s.push(e).drop_last() =~= s);
    assert(s.push(e).last() == e);
}

proof fn lemma_names_push(s: Seq<String>, e: String)
    ensures
        names_set(s.push(e)) == names_set(s).insert(e@),
{
    assert(names_set(s.push(e)) =~= names_set(s).insert(e@)) by {
        assert forall|x: Seq<char>|
            names_set(s.push(e)).contains(x) implies names_set(s).insert(e@).contains(x) by {
            let i = choose|i: int| 0 <= i < s.push(e).len() && s.push(e)[i]@ == x;
            if i < s.len() {
                assert(s[i]@ == x);
            } else {
                assert(x == e@);
            }
        }
        assert forall|x: Seq<char>|
            names_set(s).insert(e@).contains(x) implies names_set(s.push(e)).contains(x) by {
            if names_set(s).contains(x) {
                let i = choose|i: int| 0 <= i < s.len() && s[i]@ == x;
                assert(s.push(e)[i]@ == x);
            } else {
                assert(s.push(e)[s.len() as int]@ == x);
            }
        }
    }
}

proof fn lemma_assoc_tail_free(s: Seq<(ObjectKey, String)>, k: ObjectKeyView, i: int)
    requires
        0 <= i <= s.len(),
        forall|j: int| i <= j < s.len() ==> s[j].0@ != k,
    ensures
        assoc_map(s).contains_key(k) == assoc_map(s.take(i)).contains_key(k),
        assoc_map(s).contains_key(k) ==> assoc_map(s)[k] == assoc_map(s.take(i))[k],
    decreases s.len() - i,
{
    if i == s.len() {
        assert(s.take(i) =~= s);
    } else {
        assert(s.drop_last().take(i) =~= s.take(i));
        assert(s.last().0@ != k);
        lemma_assoc_tail_free(s.drop_last(), k, i);
    }
}

/// The executable server model: the namespaces that exist and the log of
/// committed documents.
pub struct ClusterModel {
    namespaces: Vec<String>,
    objects: Vec<(ObjectKey, String)>,
}

impl View for ClusterModel {
    type V = ClusterView;

    closed spec fn view(&self) -> ClusterView {
        ClusterView { namespaces: names_set(self.namespaces@), objects: assoc_map(self.objects@) }
    }
}

/// Field-by-field coordinate equality.
pub fn key_eq(a: &ObjectKey, b: &ObjectKey) -> (r: bool)
    ensures
        r <==> a@ == b@,
{
    let ns_same = match (&a.namespace, &b.namespace) {
        (Some(x), Some(y)) => *x == *y,
        (None, None) => true,
        _ => false,
    };
    let r = a.resource == b.resource && ns_same && a.name == b.name;
    proof {
        if a@.resource == b@.resource && a@.namespace == b@.namespace && a@.name == b@.name {
            assert(a@ == b@);
        }
    }
    r
}

impl ClusterModel {
    /// A fresh server with no namespaces and no objects.
    pub fn new() -> (c: ClusterModel)
        ensures
            c@.namespaces == Set::<Seq<char>>::empty(),
            c@.objects == Map::<ObjectKeyView, Seq<char>>::empty(),
    {
        let c = ClusterModel { namespaces: Vec::new(), objects: Vec::new() };
        proof {
            assert(c@.namespaces =~= Set::<Seq<char>>::empty());
        }
        c
    }

    /// Record a namespace the server was provisioned with.
    pub fn register_namespace(&mut self, ns: String)
        ensures
            final(self)@.namespaces == old(self)@.namespaces.insert(ns@),
            final(self)@.objects == old(self)@.objects,
    {
        proof {
            lemma_names_push(self.namespaces@, ns);
        }
        self.namespaces.push(ns);
    }

    /// Whether a namespace of this name exists.
    pub fn has_namespace(&self, ns: &String) -> (r: bool)
        ensures
            r <==> self@.namespaces.contains(ns@),
    {
        let n: usize = self.namespaces.len();
        let mut i: usize = 0;
        while i < n
            invariant
                0 <= i <= n,
                n == self.namespaces@.len(),
                forall|j: int| 0 <= j < i ==> self.namespaces@[j]@ != ns@,
            decreases n - i,
        {
            if self.namespaces[i] == *ns {
                proof {
                    assert(self.namespaces@[i as int]@ == ns@);
                }
                return true;
            }
            i += 1;
        }
        false
    }

    /// Commit one planned apply against the modeled server.
    pub fn apply(&mut self, op: &ApplyOp) -> (r: Result<(), ApplyFault>)
        ensures
            apply_result(old(self)@, op@) matches Ok(s1) ==> r is Ok && final(self)@ == s1,
            apply_result(old(self)@, op@) matches Err(f) ==> r == Result::<(), ApplyFault>::Err(f)
                && final(self)@ == old(self)@,
    {
        let key = ObjectKey {
            resource: op.resource.clone(),
            namespace: match &op.target {
                ApplyTarget::Cluster => None,
                ApplyTarget::InNamespace(ns) => Some(ns.clone()),
            },
            name: op.name.clone(),
        };
        proof {
            assert(key@ == key_of(op@));
        }
        match &op.target {
            ApplyTarget::InNamespace(ns) => {
                if !self.has_namespace(ns) {
                    return Err(ApplyFault::MissingNamespace);
                }
                proof {
                    lemma_assoc_push(self.objects@, (key, op.body));
                }
                self.objects.push((key, op.body.clone()));
                proof {
                    assert(self@ =~= apply_result(old(self)@, op@).unwrap());
                }
                Ok(())
            },
            ApplyTarget::Cluster => {
                let ns_lit = String::from_str("namespaces");
                if op.resource == ns_lit {
                    proof {
                        lemma_names_push(self.namespaces@, op.name);
                    }
                    self.namespaces.push(op.name.clone());
                }
                proof {
                    lemma_assoc_push(self.objects@, (key, op.body));
                }
                self.objects.push((key, op.body.clone()));
                proof {
                    assert(self@ =~= apply_result(old(self)@, op@).unwrap());
                }
                Ok(())
            },
        }
    }

    /// The document last committed at a coordinate, if any was.
    pub fn get_object(&self, key: &ObjectKey) -> (r: Option<String>)
        ensures
            match r {
                Option::Some(b) => self@.objects.contains_key(key@) && b@ == self@.objects[key@],
                Option::None => !self@.objects.contains_key(key@),
            },
    {
        let mut i: usize = self.objects.len();
        while i > 0
            invariant
                0 <= i <= self.objects@.len(),
                forall|j: int| i <= j < self.objects@.len() ==> self.objects@[j].0@ != key@,
            decreases i,
        {
            i -= 1;
            let e = &self.objects[i];
            if key_eq(&e.0, key) {
                proof {
                    lemma_assoc_tail_free(self.objects@, key@, i + 1);
                    assert(self.objects@.take(i + 1).drop_last() =~= self.objects@.take(i as int));
                    assert(self.objects@.take(i + 1).last() == self.objects@[i as int]);
                }
                return Some(e.1.clone());
            }
        }
        proof {
            lemma_assoc_tail_free(self.objects@, key@, 0);
            assert(self.objects@.take(0) =~= Seq::<(ObjectKey, String)>::empty());
        }
        None
    }
}

/// Order dependence of fixture application: a namespaced document commits
/// only after the document creating its namespace has been committed.
/// Applied in the right order, both writes succeed; applied the other way
/// round, the namespaced write is rejected.
pub proof fn lemma_order_dependence(s: ClusterView, ns_op: ApplyOpView, obj_op: ApplyOpView)
    requires
        creates_namespace(ns_op),
        obj_op.target == ApplyTargetView::InNamespace(ns_op.name),
        !s.namespaces.contains(ns_op.name),
    ensures
        apply_result(s, obj_op) is Err,
        apply_result(s, ns_op) is Ok,
        apply_result(apply_result(s, ns_op).unwrap(), obj_op) is Ok,
{
}

} // verus!
