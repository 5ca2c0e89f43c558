//! Resource identity: group, version and kind, the plural resource name, and the
//! `apiVersion` that group and version combine into.
use vstd::prelude::*;
use crate::error::ApiError;
use crate::text::{ascii_lower, ascii_lowercase, str_equals};

verus! {

/// The `apiVersion` of a group and version: the version alone in the core
/// group (empty name), else `group/version`.
pub open spec fn api_version_of(group: Seq<char>, version: Seq<char>) -> Seq<char> {
    if group.len() == 0 {
        version
    } else {
        group + seq!['/'] + version
    }
}

/// The message of the failure for an identity without a version.
pub open spec fn missing_version_message(kind: Seq<char>) -> Seq<char> {
    "GroupVersionKind '"@ + kind + "' must have a version"@
}

/// The message of the failure for an identity without a kind.
pub open spec fn missing_kind_message(kind: Seq<char>) -> Seq<char> {
    "GroupVersionKind '"@ + kind + "' must have a kind"@
}

/// `i` is the position of the first `/` in `gv`.
pub open spec fn is_first_slash(gv: Seq<char>, i: int) -> bool {
    &&& 0 <= i < gv.len()
    &&& gv[i] == '/'
    &&& forall|j: int| 0 <= j < i ==> gv[j] != '/'
}

/// The default group and version that a discovery `groupVersion` names: split on
/// the first `/`, or the core group (empty) with the whole text as version.
pub open spec fn split_group_version(gv: Seq<char>) -> (Seq<char>, Seq<char>) {
    if exists|i: int| is_first_slash(gv, i) {
        let i = choose|i: int| is_first_slash(gv, i);
        (gv.subrange(0, i), gv.subrange(i + 1, gv.len() as int))
    } else {
        (Seq::empty(), gv)
    }
}

/// `w` ends with the character `c`.
pub open spec fn ends_with_char(w: Seq<char>, c: char) -> bool {
    w.len() >= 1 && w[w.len() - 1] == c
}

/// `w` ends with the two characters `a`, `b`.
pub open spec fn ends_with_pair(w: Seq<char>, a: char, b: char) -> bool {
    w.len() >= 2 && w[w.len() - 2] == a && w[w.len() - 1] == b
}

/// `c` is a lower-case vowel.
pub open spec fn is_vowel(c: char) -> bool {
    c == 'a' || c == 'e' || c == 'i' || c == 'o' || c == 'u'
}

/// The English plural that is inferred for a lower-case kind.
///
/// A few resources are irregular; words that end in `s`, `x`, `z`, `ch` or `sh`
/// take `es`; a `y` after a consonant becomes `ies`; every other word takes `s`.
pub open spec fn plural_of(w: Seq<char>) -> Seq<char> {
    if w == "endpoints"@ || w == "endpointslices"@ {
        w
    } else if w == "nodemetrics"@ {
        "nodes"@
    } else if w == "podmetrics"@ {
        "pods"@
    } else if ends_with_char(w, 's') || ends_with_char(w, 'x') || ends_with_char(w, 'z')
        || ends_with_pair(w, 'c', 'h') || ends_with_pair(w, 's', 'h') {
        w + seq!['e', 's']
    } else if ends_with_char(w, 'y') && w.len() >= 2 && !is_vowel(w[w.len() - 2]) {
        w.drop_last() + seq!['i', 'e', 's']
    } else {
        w.push('s')
    }
}

/// The resource name that a kind is addressed by when no plural was given.
pub open spec fn inferred_plural(kind: Seq<char>) -> Seq<char> {
    plural_of(ascii_lower(kind))
}

/// Joins group and version into an `apiVersion`.
pub fn join_api_version(group: &str, version: &str) -> (r: String)
    ensures
        r@ == api_version_of(group@, version@),
{
    if group.is_empty() {
        String::from_str(version)
    } else {
        proof {
            reveal_strlit("/");
        }
        String::from_str(group).concat("/").concat(version)
    }
}

/// The inferred plural of a word that is already in lower case.
pub fn to_plural(word: &str) -> (r: String)
    ensures
        r@ == plural_of(word@),
{
    if str_equals(word, "endpoints") || str_equals(word, "endpointslices") {
        return String::from_str(word);
    } else if str_equals(word, "nodemetrics") {
        return String::from_str("nodes");
    } else if str_equals(word, "podmetrics") {
        return String::from_str("pods");
    }
    let n = word.unicode_len();
    let last = if n >= 1 { word.get_char(n - 1) } else { ' ' };
    let before = if n >= 2 { word.get_char(n - 2) } else { ' ' };
    let sibilant = last == 's' || last == 'x' || last == 'z' || (n >= 2 && last == 'h' && (
    before == 'c' || before == 's'));
    if n >= 1 && sibilant {
        proof {
            reveal_strlit("es");
        }
        return String::from_str(word).concat("es");
    }
    let vowel_before = before == 'a' || before == 'e' || before == 'i' || before == 'o' || before
        == 'u';
    if n >= 2 && last == 'y' && !vowel_before {
        proof {
            reveal_strlit("ies");
        }
        let stem = word.substring_char(0, n - 1);
        return String::from_str(stem).concat("ies");
    }
    proof {
        reveal_strlit("s");
    }
    String::from_str(word).concat("s")
}

/// The discovery record of one resource, as far as identity needs it.
pub struct APIResource {
    /// The plural resource name.
    pub name: String,
    /// The group, where it differs from the discovery group.
    pub group: Option<String>,
    /// The version, where it differs from the discovery version.
    pub version: Option<String>,
    /// The kind.
    pub kind: String,
}

/// Represents a type-erased object kind.
#[derive(Debug, Clone, PartialEq, Eq, Hash)]
pub struct GroupVersionKind {
    /// API group
    pub group: String,
    /// Version
    pub version: String,
    /// Kind
    pub kind: String,
    /// Concatenation of group and version
    pub api_version: String,
    /// Optional plural/resource
    pub plural: Option<String>,
}

impl GroupVersionKind {
    /// The `apiVersion` agrees with group and version.
    pub open spec fn wf(&self) -> bool {
        self.api_version@ == api_version_of(self.group@, self.version@)
    }

    /// The resource name: the explicit plural if one was set, else the inferred one.
    pub open spec fn plural_name(&self) -> Seq<char> {
        match self.plural {
            Some(p) => p@,
            None => inferred_plural(self.kind@),
        }
    }

    /// Creates a `GroupVersionKind` from a discovered resource. Group and version
    /// that the record leaves out are taken from the discovery `group_version`; the
    /// plural is the record's own name.
    pub fn from_api_resource(ar: &APIResource, group_version: &str) -> (r: Self)
        ensures
            r.group@ == (match ar.group {
                Some(g) => g@,
                None => split_group_version(group_version@).0,
            }),
            r.version@ == (match ar.version {
                Some(v) => v@,
                None => split_group_version(group_version@).1,
            }),
            r.kind@ == ar.kind@,
            r.wf(),
            r.plural is Some,
            r.plural->0@ == ar.name@,
    {
        let n = group_version.unicode_len();
        let mut i: usize = 0;
        while i < n && group_version.get_char(i) != '/'
            invariant
                n == group_version@.len(),
                i <= n,
                forall|j: int| 0 <= j < i ==> group_version@[j] != '/',
            decreases n - i,
        {
            i = i + 1;
        }
        let (default_group, default_version) = if i < n {
            proof {
                assert(is_first_slash(group_version@, i as int));
                let k = choose|k: int| is_first_slash(group_version@, k);
                assert(k == i as int) by {
                    if k < i {
                        assert(group_version@[k] != '/');
                    } else if k > i {
                        assert(group_version@[i as int] != '/');
                    }
                }
            }
            (group_version.substring_char(0, i), group_version.substring_char(i + 1, n))
        } else {
            proof {
                reveal_strlit("");
                assert forall|k: int| !is_first_slash(group_version@, k) by {
                    if 0 <= k < n {
                        assert(group_version@[k] != '/');
                    }
                }
            }
            ("", group_version)
        };
        assert(default_group@ == split_group_version(group_version@).0);
        assert(default_version@ == split_group_version(group_version@).1);
        let group = match &ar.group {
            Some(g) => g.clone(),
            None => String::from_str(default_group),
        };
        let version = match &ar.version {
            Some(v) => v.clone(),
            None => String::from_str(default_version),
        };
        let kind = ar.kind.clone();
        let api_version = join_api_version(group.as_str(), version.as_str());
        let plural = Some(ar.name.clone());
        GroupVersionKind { group, version, kind, api_version, plural }
    }

    /// Set the api group, version, and kind for a resource. Fails when the version
    /// or the kind is empty; the group may be empty (the core group).
    pub fn gvk(group_: &str, version_: &str, kind_: &str) -> (r: Result<Self, ApiError>)
        ensures
            r is Ok <==> (version_@.len() > 0 && kind_@.len() > 0),
            r is Ok ==> {
                let g = r->Ok_0;
                &&& g.group@ == group_@
                &&& g.version@ == version_@
                &&& g.kind@ == kind_@
                &&& g.api_version@ == api_version_of(group_@, version_@)
                &&& g.plural is None
            },
            version_@.len() == 0 ==> (r matches Err(ApiError::DynamicType(m)) && m@
                == missing_version_message(kind_@)),
            version_@.len() > 0 && kind_@.len() == 0 ==> (r matches Err(ApiError::DynamicType(m))
                && m@ == missing_kind_message(kind_@)),
    {
        let version = String::from_str(version_);
        let group = String::from_str(group_);
        let kind = String::from_str(kind_);
        let api_version = join_api_version(group_, version_);
        if version_.is_empty() {
            proof {
                reveal_strlit("GroupVersionKind '");
                reveal_strlit("' must have a version");
            }
            let msg = String::from_str("GroupVersionKind '").concat(kind_).concat(
                "' must have a version",
            );
            return Err(ApiError::DynamicType(msg));
        }
        if kind_.is_empty() {
            let msg = String::from_str("GroupVersionKind '").concat(kind_).concat(
                "' must have a kind",
            );
            return Err(ApiError::DynamicType(msg));
        }
        Ok(GroupVersionKind { group, version, kind, api_version, plural: None })
    }

    /// Set an explicit plural/resource value to avoid relying on inferred pluralisation.
    pub fn plural(self, plural: &str) -> (r: Self)
        ensures
            r.group == self.group,
            r.version == self.version,
            r.kind == self.kind,
            r.api_version == self.api_version,
            r.plural is Some,
            r.plural->0@ == plural@,
    {
        let mut g = self;
        g.plural = Some(String::from_str(plural));
        g
    }

    /// The resource name that paths use: the explicit plural, else the one inferred
    /// from the lower-cased kind.
    pub fn plural_or_inferred(&self) -> (r: String)
        ensures
            r@ == self.plural_name(),
    {
        match &self.plural {
            Some(p) => p.clone(),
            None => {
                let lower = ascii_lowercase(self.kind.as_str());
                to_plural(lower.as_str())
            },
        }
    }
}

/// Represents a type-erased resource collection: group, version and plural name.
#[derive(Debug, Clone, PartialEq, Eq, Hash)]
pub struct GroupVersionResource {
    /// API group
    pub group: String,
    /// Version
    pub version: String,
    /// Resource (plural name)
    pub resource: String,
    /// Concatenation of group and version
    pub api_version: String,
}

impl GroupVersionResource {
    /// The `apiVersion` agrees with group and version.
    pub open spec fn wf(&self) -> bool {
        self.api_version@ == api_version_of(self.group@, self.version@)
    }

    /// Set the api group, version, and resource.
    pub fn gvr(group_: &str, version_: &str, resource_: &str) -> (r: Self)
        ensures
            r.group@ == group_@,
            r.version@ == version_@,
            r.resource@ == resource_@,
            r.wf(),
    {
        GroupVersionResource {
            group: String::from_str(group_),
            version: String::from_str(version_),
            resource: String::from_str(resource_),
            api_version: join_api_version(group_, version_),
        }
    }
}

} // verus!
