//! The metadata blocks that every object and list carries.
use vstd::prelude::*;
use crate::json::json_is_null;

verus! {

/// The `apiVersion` and `kind` of an object.
#[derive(Debug, Clone, PartialEq, Eq, Hash, Default)]
pub struct TypeMeta {
    /// The version of the API, `group/version` or the version alone.
    pub api_version: String,
    /// The name of the type.
    pub kind: String,
}

impl TypeMeta {
    /// A copy of the type fields.
    pub fn copied(&self) -> (r: Self)
        ensures
            r == *self,
    {
        TypeMeta { api_version: self.api_version.clone(), kind: self.kind.clone() }
    }
}

/// The metadata of an object, as far as addressing needs it.
#[derive(Debug, Clone, PartialEq, Eq, Default)]
pub struct ObjectMeta {
    /// The name; set once the object is submitted.
    pub name: Option<String>,
    /// The namespace; absent for cluster-scoped objects or before it is set.
    pub namespace: Option<String>,
    /// The version of the object that the server last stored.
    pub resource_version: Option<String>,
    /// Every other metadata field (labels, annotations, uid, owner references and
    /// the rest) as a JSON object, carried as it is; `null` when there is none.
    pub other: serde_json::Value,
}

impl ObjectMeta {
    /// Metadata with only a name.
    pub fn named(name: &str) -> (r: Self)
        ensures
            r.name is Some,
            r.name->0@ == name@,
            r.namespace is None,
            r.resource_version is None,
            json_is_null(r.other),
    {
        ObjectMeta {
            name: Some(String::from_str(name)),
            namespace: None,
            resource_version: None,
            other: serde_json::Value::default(),
        }
    }
}

/// The metadata of a list.
#[derive(Debug, Clone, PartialEq, Eq, Default)]
pub struct ListMeta {
    /// The version of the collection at the time of listing.
    pub resource_version: Option<String>,
    /// The token that fetches the next page of a chunked list.
    pub continue_: Option<String>,
}

/// A copy of an optional text.
pub fn clone_opt_string(s: &Option<String>) -> (r: Option<String>)
    ensures
        r == *s,
{
    match s {
        Some(v) => Some(v.clone()),
        None => None,
    }
}

} // verus!
