//! The capability that generic code relies on: type-level identity and
//! instance-level metadata of any object representation.
use vstd::prelude::*;
use std::borrow::Cow;
use crate::meta::ObjectMeta;

verus! {

/// The optional namespace as characters.
pub open spec fn namespace_view(namespace: Option<&str>) -> Option<Seq<char>> {
    match namespace {
        Some(ns) => Some(ns@),
        None => None,
    }
}

/// The API path of a collection: `/api` for the core group, `/apis` for any
/// other, then the `apiVersion`, the namespace segment where one is given, and
/// the plural resource name.
pub open spec fn url_path_of(
    group: Seq<char>,
    api_version: Seq<char>,
    namespace: Option<Seq<char>>,
    plural: Seq<char>,
) -> Seq<char> {
    let root = if group.len() == 0 {
        "api"@
    } else {
        "apis"@
    };
    let ns = match namespace {
        Some(n) => "namespaces/"@ + n + "/"@,
        None => Seq::empty(),
    };
    "/"@ + root + "/"@ + api_version + "/"@ + ns + plural
}

/// The API path that a resource type derives for a descriptor and namespace.
pub open spec fn resource_path<K: Resource>(
    dt: &K::DynamicType,
    namespace: Option<Seq<char>>,
) -> Seq<char> {
    url_path_of(K::spec_group(dt), K::spec_api_version(dt), namespace, K::spec_plural(dt))
}

/// The text that a copy-on-write string holds.
pub fn cow_text<'a>(c: &'a Cow<'a, str>) -> (r: &'a str)
    ensures
        r@ == c@,
{
    match c {
        Cow::Borrowed(b) => b,
        Cow::Owned(o) => o.as_str(),
    }
}

/// A representation of Kubernetes objects: given its descriptor, the type knows
/// its group, version, kind, `apiVersion` and plural; given an instance, its
/// metadata.
pub trait Resource: Sized {
    /// The run-time description of the type.
    type DynamicType;

    spec fn spec_group(dt: &Self::DynamicType) -> Seq<char>;

    spec fn spec_version(dt: &Self::DynamicType) -> Seq<char>;

    spec fn spec_kind(dt: &Self::DynamicType) -> Seq<char>;

    spec fn spec_api_version(dt: &Self::DynamicType) -> Seq<char>;

    spec fn spec_plural(dt: &Self::DynamicType) -> Seq<char>;

    spec fn spec_meta(&self) -> ObjectMeta;

    /// The API group.
    fn group(dt: &Self::DynamicType) -> (r: Cow<'_, str>)
        ensures
            r@ == Self::spec_group(dt),
    ;

    /// The version.
    fn version(dt: &Self::DynamicType) -> (r: Cow<'_, str>)
        ensures
            r@ == Self::spec_version(dt),
    ;

    /// The kind.
    fn kind(dt: &Self::DynamicType) -> (r: Cow<'_, str>)
        ensures
            r@ == Self::spec_kind(dt),
    ;

    /// The `apiVersion`.
    fn api_version(dt: &Self::DynamicType) -> (r: Cow<'_, str>)
        ensures
            r@ == Self::spec_api_version(dt),
    ;

    /// The plural resource name.
    fn plural(dt: &Self::DynamicType) -> (r: Cow<'_, str>)
        ensures
            r@ == Self::spec_plural(dt),
    ;

    /// The metadata of the object.
    fn meta(&self) -> (r: &ObjectMeta)
        ensures
            *r == self.spec_meta(),
    ;

    /// The name of the object, which it must have.
    fn name(&self) -> (r: String)
        requires
            self.spec_meta().name is Some,
        ensures
            r@ == self.spec_meta().name->0@,
    ;

    /// The namespace of the object, if it has one.
    fn namespace(&self) -> (r: Option<String>)
        ensures
            r == self.spec_meta().namespace,
    ;

    /// The resource version of the object, if it has one.
    fn resource_ver(&self) -> (r: Option<String>)
        ensures
            r == self.spec_meta().resource_version,
    ;

    /// The API path of the collection of this type, in a namespace or across
    /// the cluster.
    fn url_path(dt: &Self::DynamicType, namespace: Option<&str>) -> (r: String)
        ensures
            r@ == url_path_of(
                Self::spec_group(dt),
                Self::spec_api_version(dt),
                namespace_view(namespace),
                Self::spec_plural(dt),
            ),
    {
        proof {
            reveal_strlit("/");
            reveal_strlit("api");
            reveal_strlit("apis");
            reveal_strlit("namespaces/");
            reveal_strlit("");
        }
        let group = Self::group(dt);
        let root = if cow_text(&group).is_empty() {
            "/api/"
        } else {
            "/apis/"
        };
        proof {
            reveal_strlit("/api/");
            reveal_strlit("/apis/");
        }
        let api_version = Self::api_version(dt);
        let mut path = String::from_str(root).concat(cow_text(&api_version)).concat("/");
        if let Some(ns) = namespace {
            path = path.concat("namespaces/").concat(ns).concat("/");
        }
        let plural = Self::plural(dt);
        let r = path.concat(cow_text(&plural));
        assert(r@ =~= url_path_of(
            Self::spec_group(dt),
            Self::spec_api_version(dt),
            namespace_view(namespace),
            Self::spec_plural(dt),
        ));
        r
    }
}

} // verus!
