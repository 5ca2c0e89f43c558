//! The schema-less object representation.
use vstd::prelude::*;
use std::borrow::Cow;
use crate::gvk::{inferred_plural, GroupVersionKind};
use crate::meta::{clone_opt_string, ObjectMeta, TypeMeta};
use crate::resource::Resource;
use crate::json::json_is_null;

verus! {

/// A dynamic representation of a kubernetes resource: type and metadata, with
/// every other field kept as a JSON document.
///
/// This will work with any non-list type object.
#[derive(Clone, Debug)]
pub struct DynamicObject {
    /// The type fields, not always present
    pub types: Option<TypeMeta>,
    /// Object metadata
    pub metadata: ObjectMeta,
    /// All other keys
    pub data: serde_json::Value,
}

impl DynamicObject {
    /// Create a DynamicObject with minimal values set from GVK.
    pub fn new(name: &str, gvk: &GroupVersionKind) -> (r: Self)
        ensures
            r.types is Some,
            r.types->0.api_version == gvk.api_version,
            r.types->0.kind == gvk.kind,
            r.metadata.name is Some,
            r.metadata.name->0@ == name@,
            r.metadata.namespace is None,
            r.metadata.resource_version is None,
            json_is_null(r.metadata.other),
            json_is_null(r.data),
    {
        DynamicObject {
            types: Some(TypeMeta { api_version: gvk.api_version.clone(), kind: gvk.kind.clone() }),
            metadata: ObjectMeta::named(name),
            data: serde_json::Value::default(),
        }
    }

    /// Attach dynamic data to a DynamicObject
    pub fn data(self, data: serde_json::Value) -> (r: Self)
        ensures
            r.types == self.types,
            r.metadata == self.metadata,
            r.data == data,
    {
        let mut o = self;
        o.data = data;
        o
    }

    /// Attach a namespace to a DynamicObject
    pub fn namespace(self, ns: &str) -> (r: Self)
        ensures
            r.types == self.types,
            r.metadata.name == self.metadata.name,
            r.metadata.resource_version == self.metadata.resource_version,
            r.metadata.namespace is Some,
            r.metadata.namespace->0@ == ns@,
            r.data == self.data,
    {
        let mut o = self;
        o.metadata.namespace = Some(String::from_str(ns));
        o
    }
}

impl Resource for DynamicObject {
    type DynamicType = GroupVersionKind;

    open spec fn spec_group(dt: &GroupVersionKind) -> Seq<char> {
        dt.group@
    }

    open spec fn spec_version(dt: &GroupVersionKind) -> Seq<char> {
        dt.version@
    }

    open spec fn spec_kind(dt: &GroupVersionKind) -> Seq<char> {
        dt.kind@
    }

    open spec fn spec_api_version(dt: &GroupVersionKind) -> Seq<char> {
        dt.api_version@
    }

    open spec fn spec_plural(dt: &GroupVersionKind) -> Seq<char> {
        dt.plural_name()
    }

    open spec fn spec_meta(&self) -> ObjectMeta {
        self.metadata
    }

    fn group(dt: &GroupVersionKind) -> (r: Cow<'_, str>) {
        Cow::Borrowed(dt.group.as_str())
    }

    fn version(dt: &GroupVersionKind) -> (r: Cow<'_, str>) {
        Cow::Borrowed(dt.version.as_str())
    }

    fn kind(dt: &GroupVersionKind) -> (r: Cow<'_, str>) {
        Cow::Borrowed(dt.kind.as_str())
    }

    fn api_version(dt: &GroupVersionKind) -> (r: Cow<'_, str>) {
        Cow::Borrowed(dt.api_version.as_str())
    }

    fn plural(dt: &GroupVersionKind) -> (r: Cow<'_, str>) {
        match &dt.plural {
            Some(p) => Cow::Borrowed(p.as_str()),
            None => Cow::Owned(dt.plural_or_inferred()),
        }
    }

    fn meta(&self) -> (r: &ObjectMeta) {
        &self.metadata
    }

    fn name(&self) -> (r: String) {
        match &self.metadata.name {
            Some(n) => n.clone(),
            None => String::new(),
        }
    }

    fn namespace(&self) -> (r: Option<String>) {
        clone_opt_string(&self.metadata.namespace)
    }

    fn resource_ver(&self) -> (r: Option<String>) {
        clone_opt_string(&self.metadata.resource_version)
    }
}

} // verus!
