//! Group/version/kind coordinates of an API resource type.

use vstd::prelude::*;

verus! {

/// The three-part type identifier of a structured API resource.
#[derive(Debug)]
pub struct GroupVersionKind {
    pub group: String,
    pub version: String,
    pub kind: String,
}

/// Mathematical image of a `GroupVersionKind`.
pub struct GvkView {
    pub group: Seq<char>,
    pub version: Seq<char>,
    pub kind: Seq<char>,
}

impl View for GroupVersionKind {
    type V = GvkView;

    open spec fn view(&self) -> GvkView {
        GvkView { group: self.group@, version: self.version@, kind: self.kind@ }
    }
}

/// `i` is the position of the first `/` in `s`.
pub open spec fn is_first_slash(s: Seq<char>, i: int) -> bool {
    &&& 0 <= i < s.len()
    &&& s[i] == '/'
    &&& forall|j: int| 0 <= j < i ==> s[j] != '/'
}

/// The apiVersion text contains a `/` separating a group from a version.
pub open spec fn has_group(s: Seq<char>) -> bool {
    exists|i: int| is_first_slash(s, i)
}

/// Position of the first `/`, meaningful only when `has_group(s)`.
pub open spec fn slash_pos(s: Seq<char>) -> int {
    choose|i: int| is_first_slash(s, i)
}

/// The API group encoded in an apiVersion text: what stands before the first
/// `/`, or empty for the core group written as a bare version.
pub open spec fn group_of(s: Seq<char>) -> Seq<char> {
    if has_group(s) {
        s.take(slash_pos(s))
    } else {
        Seq::<char>::empty()
    }
}

/// The version encoded in an apiVersion text: what stands after the first
/// `/`, or the whole text when no `/` occurs.
pub open spec fn version_of(s: Seq<char>) -> Seq<char> {
    if has_group(s) {
        s.skip(slash_pos(s) + 1)
    } else {
        s
    }
}

/// The coordinates carried by a document's type fields.
pub open spec fn gvk_of(api_version: Seq<char>, kind: Seq<char>) -> GvkView {
    GvkView { group: group_of(api_version), version: version_of(api_version), kind: kind }
}

proof fn lemma_first_slash_unique(s: Seq<char>, i: int, j: int)
    requires
        is_first_slash(s, i),
        is_first_slash(s, j),
    ensures
        i == j,
{
    if i < j {
        assert(s[i] != '/');
    } else if j < i {
        assert(s[j] != '/');
    }
}

/// Split an apiVersion text into its group and version parts: `"apps/v1"`
/// names group `"apps"` and version `"v1"`; a bare `"v1"` names the core
/// (empty) group.
pub fn parse_api_version(api_version: &str) -> (r: (String, String))
    ensures
        r.0@ == group_of(api_version@),
        r.1@ == version_of(api_version@),
{
    let n: usize = api_version.unicode_len();
    let mut i: usize = 0;
    while i < n
        invariant
            0 <= i <= n,
            n == api_version@.len(),
            forall|j: int| 0 <= j < i ==> api_version@[j] != '/',
        decreases n - i,
    {
        if api_version.get_char(i) == '/' {
            proof {
                assert(is_first_slash(api_version@, i as int));
                lemma_first_slash_unique(api_version@, i as int, slash_pos(api_version@));
            }
            let g = api_version.substring_char(0, i);
            let v = api_version.substring_char(i + 1, n);
            return (String::from_str(g), String::from_str(v));
        }
        i += 1;
    }
    proof {
        assert(!has_group(api_version@)) by {
            if has_group(api_version@) {
                let k = choose|k: int| is_first_slash(api_version@, k);
                assert(api_version@[k] != '/');
            }
        }
    }
    (String::new(), String::from_str(api_version))
}

impl GroupVersionKind {
    /// Build the coordinates from a document's apiVersion and kind fields.
    pub fn from_type_fields(api_version: &str, kind: &str) -> (r: GroupVersionKind)
        ensures
            r@ == gvk_of(api_version@, kind@),
    {
        let (group, version) = parse_api_version(api_version);
        GroupVersionKind { group, version, kind: String::from_str(kind) }
    }

    /// A copy of the coordinates.
    pub fn duplicate(&self) -> (r: GroupVersionKind)
        ensures
            r@ == self@,
    {
        GroupVersionKind {
            group: self.group.clone(),
            version: self.version.clone(),
            kind: self.kind.clone(),
        }
    }

    /// Coordinate equality, field by field.
    pub fn same_as(&self, other: &GroupVersionKind) -> (r: bool)
        ensures
            r <==> self@ == other@,
    {
        let r = self.group == other.group && self.version == other.version
            && self.kind == other.kind;
        proof {
            if self@.group == other@.group && self@.version == other@.version
                && self@.kind == other@.kind {
                assert(self@ == other@);
            }
        }
        r
    }
}

} // verus!
