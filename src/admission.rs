//! The admission webhook exchange: the review that the API server sends, the
//! request it carries, and the response that goes back in a review.
use vstd::prelude::*;
use std::collections::HashMap;
use crate::dynamic::DynamicObject;
use crate::error::ApiError;
use crate::gvk::{GroupVersionKind, GroupVersionResource};
use crate::json::{json_patch_bytes, json_patch_to_vec};
use crate::meta::TypeMeta;
use crate::resource::Resource;

verus! {

/// The `kind` field in [`TypeMeta`].
pub const META_KIND: &'static str = "AdmissionReview";

/// The `api_version` field in [`TypeMeta`] on the v1 version.
pub const META_API_VERSION_V1: &'static str = "admission.k8s.io/v1";

/// The `api_version` field in [`TypeMeta`] on the v1beta1 version.
pub const META_API_VERSION_V1BETA1: &'static str = "admission.k8s.io/v1beta1";

/// Information about the requesting user, carried as it is.
#[verifier::external_type_specification]
#[verifier::external_body]
pub struct ExUserInfo(k8s_openapi::api::authentication::v1::UserInfo);

/// The options of the operation, carried as they are.
#[verifier::external_type_specification]
#[verifier::external_body]
pub struct ExRawExtension(k8s_openapi::apimachinery::pkg::runtime::RawExtension);

/// The status of a response: why a request was denied.
#[derive(Clone, Debug, PartialEq, Eq)]
pub struct Status {
    /// `Success` or `Failure`.
    pub status: Option<String>,
    /// A human-readable description.
    pub message: Option<String>,
    /// A machine-readable description.
    pub reason: Option<String>,
    /// The HTTP status code.
    pub code: Option<i32>,
}

/// A status with no field set.
pub open spec fn empty_status() -> Status {
    Status { status: None, message: None, reason: None, code: None }
}

impl Default for Status {
    fn default() -> (r: Self)
        ensures
            r == empty_status(),
    {
        Status { status: None, message: None, reason: None, code: None }
    }
}

/// The operation specified in an [`AdmissionRequest`].
#[derive(Clone, Copy, Debug, PartialEq, Eq, Structural)]
pub enum Operation {
    /// An operation that creates a resource.
    CREATE,
    /// An operation that updates a resource.
    UPDATE,
    /// An operation that deletes a resource.
    DELETE,
    /// An operation that connects to a resource.
    CONNECT,
}

/// The type of patch returned in an [`AdmissionResponse`].
#[derive(Clone, Copy, Debug, PartialEq, Eq, Structural)]
pub enum PatchType {
    /// Specifies the patch body implements JSON Patch under RFC 6902.
    JsonPatch,
}

/// An incoming admission request.
#[derive(Debug)]
pub struct AdmissionRequest<T: Resource> {
    /// Copied from the containing [`AdmissionReview`] and used to specify a
    /// response type and version when constructing an [`AdmissionResponse`].
    /// It is not part of the request's own wire form.
    pub types: TypeMeta,
    /// An identifier for the individual request/response.
    pub uid: String,
    /// The fully-qualified type of object being submitted.
    pub kind: GroupVersionKind,
    /// The fully-qualified resource being requested.
    pub resource: GroupVersionResource,
    /// The subresource being requested, if any.
    pub sub_resource: Option<String>,
    /// The fully-qualified type of the original API request, where a conversion
    /// took place.
    pub request_kind: Option<GroupVersionKind>,
    /// The fully-qualified resource of the original API request, where a
    /// conversion took place.
    pub request_resource: Option<GroupVersionResource>,
    /// The name of the subresource of the original API request, if any.
    pub request_sub_resource: Option<String>,
    /// The name of the object as presented in the request.
    pub name: String,
    /// The namespace associated with the request (if any).
    pub namespace: Option<String>,
    /// The operation being performed, as resolved by the server.
    pub operation: Operation,
    /// Information about the requesting user.
    pub user_info: k8s_openapi::api::authentication::v1::UserInfo,
    /// The object from the incoming request. It's None for DELETE operations.
    pub object: Option<T>,
    /// The existing object. Only populated for DELETE and UPDATE requests.
    pub old_object: Option<T>,
    /// Specifies that modifications will definitely not be persisted for this
    /// request.
    pub dry_run: bool,
    /// The operation option structure of the operation being performed.
    pub options: Option<k8s_openapi::apimachinery::pkg::runtime::RawExtension>,
}

/// An outgoing admission response, built for a request.
#[derive(Debug)]
pub struct AdmissionResponse {
    /// Copied from the request the response is built for.
    pub types: TypeMeta,
    /// Identifier for the individual request/response. This must be copied over
    /// from the corresponding AdmissionRequest.
    pub uid: String,
    /// Indicates whether or not the admission request was permitted.
    pub allowed: bool,
    /// Extra details into why an admission request was denied. This field IS NOT
    /// consulted in any way if "Allowed" is "true".
    pub result: Status,
    /// The patch body. Currently we only support "JSONPatch" which implements
    /// RFC 6902.
    pub patch: Option<Vec<u8>>,
    /// The type of Patch. Currently we only allow "JSONPatch".
    pub patch_type: Option<PatchType>,
    /// An unstructured key value map set by remote admission controller.
    pub audit_annotations: HashMap<String, String>,
    /// A list of warning messages to return to the requesting API client.
    pub warnings: Option<Vec<String>>,
}

/// The top level struct of admission requests and responses on the wire.
#[derive(Debug)]
pub struct AdmissionReview<T: Resource> {
    /// Contains the API version and type of the request.
    pub types: TypeMeta,
    /// Describes the attributes for the admission request.
    pub request: Option<AdmissionRequest<T>>,
    /// Describes the attributes for the admission response.
    pub response: Option<AdmissionResponse>,
}

/// The request that a review carries, with the review's type fields threaded
/// into it.
pub open spec fn converted_request<T: Resource>(review: AdmissionReview<T>) -> Option<AdmissionRequest<T>> {
    match review.request {
        Some(req) => Some(AdmissionRequest { types: review.types, ..req }),
        None => None,
    }
}

/// The review that carries a response back.
pub open spec fn review_of(response: AdmissionResponse) -> AdmissionReview<DynamicObject> {
    AdmissionReview { types: response.types, request: None, response: Some(response) }
}

impl AdmissionResponse {
    /// The response is the one built for `req`: uid and type fields copied,
    /// allowed, with nothing else set.
    pub open spec fn is_fresh_for<T: Resource>(&self, req: AdmissionRequest<T>) -> bool {
        &&& self.types == req.types
        &&& self.uid == req.uid
        &&& self.allowed
        &&& self.result == empty_status()
        &&& self.patch is None
        &&& self.patch_type is None
        &&& self.audit_annotations@ == Map::<String, String>::empty()
        &&& self.warnings is None
    }

    /// The response is `base` denied with `reason`: not allowed, the reason as the
    /// result's message, everything else kept.
    pub open spec fn is_denial_of(&self, base: AdmissionResponse, reason: Seq<char>) -> bool {
        &&& !self.allowed
        &&& self.result.message is Some
        &&& self.result.message->0@ == reason
        &&& self.result.status == base.result.status
        &&& self.result.reason == base.result.reason
        &&& self.result.code == base.result.code
        &&& self.types == base.types
        &&& self.uid == base.uid
        &&& self.patch == base.patch
        &&& self.patch_type == base.patch_type
        &&& self.audit_annotations == base.audit_annotations
        &&& self.warnings == base.warnings
    }

    /// The response is `base` with the JSON patch `bytes` attached.
    pub open spec fn is_patched_from(&self, base: AdmissionResponse, bytes: Seq<u8>) -> bool {
        &&& self.patch is Some
        &&& self.patch->0@ == bytes
        &&& self.patch_type == Some(PatchType::JsonPatch)
        &&& self.types == base.types
        &&& self.uid == base.uid
        &&& self.allowed == base.allowed
        &&& self.result == base.result
        &&& self.audit_annotations == base.audit_annotations
        &&& self.warnings == base.warnings
    }
}

impl<T: Resource> AdmissionReview<T> {
    /// The request of an incoming review, with the review's type fields kept for
    /// the response. A review without a request is malformed.
    pub fn try_into(self) -> (r: Result<AdmissionRequest<T>, ApiError>)
        ensures
            r is Ok <==> self.request is Some,
            r is Ok ==> converted_request(self) == Some(r->Ok_0),
            self.request is None ==> (r matches Err(ApiError::RequestValidation(m)) && m@
                == "invalid AdmissionRequest. expected Some but got None"@),
    {
        match self.request {
            Some(req) => {
                let mut req = req;
                req.types = self.types;
                Ok(req)
            },
            None => Err(
                ApiError::RequestValidation(
                    String::from_str("invalid AdmissionRequest. expected Some but got None"),
                ),
            ),
        }
    }
}

impl AdmissionResponse {
    /// The response to a request: uid and type fields copied from it, allowed,
    /// with no patch, annotations or warnings.
    pub fn from<T: Resource>(req: &AdmissionRequest<T>) -> (r: Self)
        ensures
            r.is_fresh_for(*req),
    {
        AdmissionResponse {
            types: req.types.copied(),
            uid: req.uid.clone(),
            allowed: true,
            result: Status::default(),
            patch: None,
            patch_type: None,
            audit_annotations: HashMap::new(),
            warnings: None,
        }
    }

    /// Constructs an invalid [`AdmissionResponse`], for a request that could not
    /// be read. It doesn't copy the uid from the corresponding request, and
    /// takes the most widely supported review version.
    pub fn invalid(reason: &str) -> (r: Self)
        ensures
            r.types.kind@ == META_KIND@,
            r.types.api_version@ == META_API_VERSION_V1BETA1@,
            r.uid@ == Seq::<char>::empty(),
            !r.allowed,
            r.result == (Status { reason: r.result.reason, ..empty_status() }),
            r.result.reason is Some,
            r.result.reason->0@ == reason@,
            r.patch is None,
            r.patch_type is None,
            r.audit_annotations@ == Map::<String, String>::empty(),
            r.warnings is None,
    {
        AdmissionResponse {
            types: TypeMeta {
                kind: String::from_str(META_KIND),
                api_version: String::from_str(META_API_VERSION_V1BETA1),
            },
            uid: String::new(),
            allowed: false,
            result: Status {
                status: None,
                message: None,
                reason: Some(String::from_str(reason)),
                code: None,
            },
            patch: None,
            patch_type: None,
            audit_annotations: HashMap::new(),
            warnings: None,
        }
    }

    /// Deny the request with a reason. The reason will be sent to the original
    /// caller.
    pub fn deny(self, reason: &str) -> (r: Self)
        ensures
            r.is_denial_of(self, reason@),
    {
        let mut res = self;
        res.allowed = false;
        res.result.message = Some(String::from_str(reason));
        res
    }

    /// Attaches the outcome of encoding a JSON patch: the bytes as the patch, or
    /// the encoder's failure as a serialization error.
    ///
    /// A patch on a denied response is kept; the server never applies it.
    pub fn with_encoded_patch(self, encoded: Result<Vec<u8>, serde_json::Error>) -> (r: Result<
        Self,
        ApiError,
    >)
        ensures
            encoded is Ok ==> r is Ok && r->Ok_0.is_patched_from(self, encoded->Ok_0@),
            encoded is Err ==> (r matches Err(ApiError::SerdeError(e)) && e == encoded->Err_0),
    {
        match encoded {
            Ok(bytes) => {
                let mut res = self;
                res.patch = Some(bytes);
                res.patch_type = Some(PatchType::JsonPatch);
                Ok(res)
            },
            Err(e) => Err(ApiError::SerdeError(e)),
        }
    }

    /// Add JSON patches to the response, modifying the object from the request.
    /// The encoding of the operations does not fail.
    pub fn with_patch(self, patch: json_patch::Patch) -> (r: Result<Self, ApiError>)
        ensures
            r is Ok,
            r->Ok_0.is_patched_from(self, json_patch_bytes(patch)),
    {
        let encoded = json_patch_to_vec(&patch);
        self.with_encoded_patch(encoded)
    }

    /// Converts an [`AdmissionResponse`] into a generic [`AdmissionReview`] that
    /// can be used as a webhook response.
    pub fn into_review(self) -> (r: AdmissionReview<DynamicObject>)
        ensures
            r == review_of(self),
    {
        let types = self.types.copied();
        AdmissionReview { types, request: None, response: Some(self) }
    }
}

/// A review that carries a request, converted, answered with the response built
/// for the request, and wrapped back, keeps its type fields; the response keeps
/// the request's uid.
pub proof fn lemma_review_round_trip<T: Resource>(
    review: AdmissionReview<T>,
    response: AdmissionResponse,
)
    requires
        review.request is Some,
        response.is_fresh_for(converted_request(review)->0),
    ensures
        review_of(response).types == review.types,
        review_of(response).request is None,
        review_of(response).response is Some,
        review_of(response).response->0.uid == review.request->0.uid,
{
}

/// Denying the response built for a request makes it not allowed, with the
/// reason as its message, and keeps the request's uid and type fields.
pub proof fn lemma_denial_keeps_identity<T: Resource>(
    req: AdmissionRequest<T>,
    fresh: AdmissionResponse,
    denied: AdmissionResponse,
    reason: Seq<char>,
)
    requires
        fresh.is_fresh_for(req),
        denied.is_denial_of(fresh, reason),
    ensures
        !denied.allowed,
        denied.result.message is Some,
        denied.result.message->0@ == reason,
        denied.uid == req.uid,
        denied.types == req.types,
{
}

} // verus!
