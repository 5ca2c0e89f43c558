//! Typed objects with spec and status, lists of objects, and watch events.
use vstd::prelude::*;
use std::borrow::Cow;
use crate::gvk::GroupVersionKind;
use crate::json::{json_is_null, debug_text, debug_text_of, decimal_of, decimal_text};
use crate::meta::{clone_opt_string, ListMeta, ObjectMeta, TypeMeta};
use crate::dynamic::DynamicObject;
use crate::resource::{resource_path, Resource};
use vstd::std_specs::iter::IteratorSpec;

verus! {

/// Empty struct for when data should be discarded.
#[derive(Clone, Copy, Debug, Default, PartialEq, Eq)]
pub struct NotUsed {}

/// The body of a failure that the API server reports.
#[derive(Clone, Debug, PartialEq, Eq)]
pub struct ErrorResponse {
    /// The status, `Failure` for an error.
    pub status: String,
    /// A human-readable description.
    pub message: String,
    /// A machine-readable description.
    pub reason: String,
    /// The HTTP status code.
    pub code: u16,
}

/// Slimmed down metadata of a bookmark: only the resource version.
#[derive(Clone, Debug, PartialEq, Eq)]
pub struct BookmarkMeta {
    pub resource_version: String,
}

/// Slimmed down object of a bookmark event. Can only be relied upon to have
/// metadata with the resource version.
#[derive(Clone, Debug, PartialEq, Eq)]
pub struct Bookmark {
    /// apiVersion + kind
    pub types: TypeMeta,
    /// Basically empty metadata
    pub metadata: BookmarkMeta,
}

/// A raw event returned from a watch query.
///
/// Note that a watch query returns many of these as newline separated JSON.
#[derive(Clone)]
pub enum WatchEvent<K> {
    /// Resource was added
    Added(K),
    /// Resource was modified
    Modified(K),
    /// Resource was deleted
    Deleted(K),
    /// Resource bookmark, a slimmed down `K`.
    Bookmark(Bookmark),
    /// There was some kind of error
    Error(ErrorResponse),
}

/// The one-line description of a watch event.
pub open spec fn event_description<K>(e: WatchEvent<K>) -> Seq<char> {
    match e {
        WatchEvent::Added(_) => "Added event"@,
        WatchEvent::Modified(_) => "Modified event"@,
        WatchEvent::Deleted(_) => "Deleted event"@,
        WatchEvent::Bookmark(_) => "Bookmark event"@,
        WatchEvent::Error(r) => "Error event: "@ + error_response_debug(r),
    }
}

/// The `Debug` text of an error response: its fields in order, texts quoted
/// and escaped, the code in decimal.
pub open spec fn error_response_debug(e: ErrorResponse) -> Seq<char> {
    "ErrorResponse { status: "@ + debug_text_of(e.status@) + ", message: "@ + debug_text_of(
        e.message@,
    ) + ", reason: "@ + debug_text_of(e.reason@) + ", code: "@ + decimal_of(e.code as nat)
        + " }"@
}

impl ErrorResponse {
    /// The `Debug` text of the error response.
    pub fn debug_text(&self) -> (r: String)
        ensures
            r@ == error_response_debug(*self),
    {
        String::from_str("ErrorResponse { status: ").concat(debug_text(self.status.as_str()).as_str())
            .concat(", message: ").concat(debug_text(self.message.as_str()).as_str()).concat(
            ", reason: ",
        ).concat(debug_text(self.reason.as_str()).as_str()).concat(", code: ").concat(
            decimal_text(self.code as u32).as_str(),
        ).concat(" }")
    }
}

impl<K> WatchEvent<K> {
    /// Describes the event in one line, without its object; an error event shows
    /// the whole error response in its `Debug` form.
    pub fn describe(&self) -> (r: String)
        ensures
            r@ == event_description(*self),
    {
        match self {
            WatchEvent::Added(_) => String::from_str("Added event"),
            WatchEvent::Modified(_) => String::from_str("Modified event"),
            WatchEvent::Deleted(_) => String::from_str("Deleted event"),
            WatchEvent::Bookmark(_) => String::from_str("Bookmark event"),
            WatchEvent::Error(e) => String::from_str("Error event: ").concat(e.debug_text().as_str()),
        }
    }
}

/// A standard Kubernetes object with `.spec` and `.status`.
///
/// It is slightly stricter than `DynamicObject` in that it enforces the
/// spec/status convention, and as such will not work with all resources.
#[derive(Clone)]
pub struct Object<P, U> where P: Clone, U: Clone {
    /// The types field of an `Object`
    pub types: TypeMeta,
    /// Resource metadata
    pub metadata: ObjectMeta,
    /// The desired state of the resource as specified by the user.
    pub spec: P,
    /// The state of the resource as observed by the controller.
    /// Use `U = NotUsed` when a status does not exist.
    pub status: Option<U>,
}

impl<P, U> Object<P, U> where P: Clone, U: Clone {
    /// A constructor that takes Resource values from a `GroupVersionKind`
    pub fn new(name: &str, gvk: &GroupVersionKind, spec: P) -> (r: Self)
        ensures
            r.types.api_version == gvk.api_version,
            r.types.kind == gvk.kind,
            r.metadata.name is Some,
            r.metadata.name->0@ == name@,
            r.metadata.namespace is None,
            r.metadata.resource_version is None,
            json_is_null(r.metadata.other),
            r.spec == spec,
            r.status is None,
    {
        Object {
            types: TypeMeta { api_version: gvk.api_version.clone(), kind: gvk.kind.clone() },
            metadata: ObjectMeta::named(name),
            spec: spec,
            status: None,
        }
    }
}

impl<P, U> Resource for Object<P, U> where P: Clone, U: Clone {
    type DynamicType = GroupVersionKind;

    open spec fn spec_group(dt: &GroupVersionKind) -> Seq<char> {
        dt.group@
    }

    open spec fn spec_version(dt: &GroupVersionKind) -> Seq<char> {
        dt.version@
    }

    open spec fn spec_kind(dt: &GroupVersionKind) -> Seq<char> {
        dt.kind@
    }

    open spec fn spec_api_version(dt: &GroupVersionKind) -> Seq<char> {
        dt.api_version@
    }

    open spec fn spec_plural(dt: &GroupVersionKind) -> Seq<char> {
        dt.plural_name()
    }

    open spec fn spec_meta(&self) -> ObjectMeta {
        self.metadata
    }

    fn group(dt: &GroupVersionKind) -> (r: Cow<'_, str>) {
        Cow::Borrowed(dt.group.as_str())
    }

    fn version(dt: &GroupVersionKind) -> (r: Cow<'_, str>) {
        Cow::Borrowed(dt.version.as_str())
    }

    fn kind(dt: &GroupVersionKind) -> (r: Cow<'_, str>) {
        Cow::Borrowed(dt.kind.as_str())
    }

    fn api_version(dt: &GroupVersionKind) -> (r: Cow<'_, str>) {
        Cow::Borrowed(dt.api_version.as_str())
    }

    fn plural(dt: &GroupVersionKind) -> (r: Cow<'_, str>) {
        match &dt.plural {
            Some(p) => Cow::Borrowed(p.as_str()),
            None => Cow::Owned(dt.plural_or_inferred()),
        }
    }

    fn meta(&self) -> (r: &ObjectMeta) {
        &self.metadata
    }

    fn name(&self) -> (r: String) {
        match &self.metadata.name {
            Some(n) => n.clone(),
            None => String::new(),
        }
    }

    fn namespace(&self) -> (r: Option<String>) {
        clone_opt_string(&self.metadata.namespace)
    }

    fn resource_ver(&self) -> (r: Option<String>) {
        clone_opt_string(&self.metadata.resource_version)
    }
}

/// A generic Kubernetes object list: list metadata and the items in the order
/// that the server returned them.
#[derive(Debug)]
pub struct ObjectList<T> where T: Clone {
    /// ListMeta - only really used for its `resourceVersion`
    pub metadata: ListMeta,
    /// The items we are actually interested in.
    pub items: Vec<T>,
}

impl<T: Clone> ObjectList<T> {
    /// An iterator over the items, in order.
    pub fn iter<'a>(&'a self) -> (r: std::slice::Iter<'a, T>)
        ensures
            r.remaining() == self.items@.as_ref(),
    {
        broadcast use vstd::std_specs::slice::axiom_spec_slice_iter;
        self.items.as_slice().iter()
    }

    /// The items, in order, for changing in place.
    pub fn iter_mut<'a>(&'a mut self) -> (r: &'a mut [T])
        ensures
            r@ == old(self).items@,
            final(self).items@ == final(r)@,
            final(self).metadata == old(self).metadata,
    {
        self.items.as_mut_slice()
    }
}

impl<T: Clone> IntoIterator for ObjectList<T> {
    type Item = T;

    type IntoIter = std::vec::IntoIter<T>;

    fn into_iter(self) -> std::vec::IntoIter<T> {
        self.items.into_iter()
    }
}

impl<'a, T: Clone> IntoIterator for &'a ObjectList<T> {
    type Item = &'a T;

    type IntoIter = std::slice::Iter<'a, T>;

    fn into_iter(self) -> std::slice::Iter<'a, T> {
        self.items.as_slice().iter()
    }
}

/// A schema-less object and a typed object of the same descriptor are reached by
/// the same API path, in a namespace or across the cluster: generic path
/// building does not depend on the representation.
pub proof fn lemma_representations_share_paths<P: Clone, U: Clone>(
    gvk: GroupVersionKind,
    namespace: Option<Seq<char>>,
)
    ensures
        resource_path::<DynamicObject>(&gvk, namespace) == resource_path::<Object<P, U>>(
            &gvk,
            namespace,
        ),
{
}

} // verus!
