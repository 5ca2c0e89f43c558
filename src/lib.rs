//! Resource addressing and admission-webhook types for a Kubernetes API client.
//!
//! Resources are identified by group, version and kind (`GroupVersionKind`), are
//! represented either schema-less (`DynamicObject`) or with a typed spec and status
//! (`Object`), and are reached through paths that the `Resource` capability derives.
//! The admission module implements the review request/response exchange.
pub mod admission;
pub mod dynamic;
pub mod error;
pub mod gvk;
pub mod json;
pub mod meta;
pub mod object;
pub mod params;
pub mod resource;
pub mod text;

pub use admission::{
    AdmissionRequest, AdmissionResponse, AdmissionReview, Operation, PatchType, Status,
};
pub use dynamic::DynamicObject;
pub use error::ApiError;
pub use gvk::{APIResource, GroupVersionKind, GroupVersionResource};
pub use meta::{ListMeta, ObjectMeta, TypeMeta};
pub use object::{Bookmark, BookmarkMeta, ErrorResponse, NotUsed, Object, ObjectList, WatchEvent};
pub use params::{
    DeleteParams, ListParams, PatchParams, PostParams, Preconditions, PropagationPolicy,
    QueryWriter, ResourcePatch,
};
pub use resource::Resource;
