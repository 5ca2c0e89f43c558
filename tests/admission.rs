use k8s_openapi::api::authentication::v1::UserInfo;
use k8s_openapi::apimachinery::pkg::runtime::RawExtension;
use kube::admission::{META_API_VERSION_V1, META_API_VERSION_V1BETA1, META_KIND};
use kube::{
    AdmissionRequest, AdmissionResponse, AdmissionReview, ApiError, DynamicObject, GroupVersionKind,
    GroupVersionResource, Operation, PatchType, TypeMeta,
};

fn pod_review() -> AdmissionReview<DynamicObject> {
    let kind = GroupVersionKind::gvk("", "v1", "Pod").unwrap();
    let object = DynamicObject::new("echo-pod", &kind).namespace("colin-coder");
    let request = AdmissionRequest {
        types: TypeMeta::default(),
        uid: "0c9a8d74-9cb7-44dd-b98e-09fd62def2f4".to_string(),
        kind: kind.clone(),
        resource: GroupVersionResource::gvr("", "v1", "pods"),
        sub_resource: None,
        request_kind: Some(kind),
        request_resource: Some(GroupVersionResource::gvr("", "v1", "pods")),
        request_sub_resource: None,
        name: "echo-pod".to_string(),
        namespace: Some("colin-coder".to_string()),
        operation: Operation::CREATE,
        user_info: UserInfo {
            username: Some("colin@coder.com".to_string()),
            groups: Some(vec!["system:authenticated".to_string()]),
            ..UserInfo::default()
        },
        object: Some(object),
        old_object: None,
        dry_run: false,
        options: Some(RawExtension(serde_json::Value::Null)),
    };
    AdmissionReview {
        types: TypeMeta {
            api_version: "admission.k8s.io/v1".to_string(),
            kind: "AdmissionReview".to_string(),
        },
        request: Some(request),
        response: None,
    }
}

#[test]
fn version_passes_through() {
    let rev = pod_review();
    let rev_typ = rev.types.clone();
    let req = rev.try_into().unwrap();
    let res = AdmissionResponse::from(&req).into_review();

    assert_ne!(&rev_typ.api_version, "");
    assert_eq!(&rev_typ, &res.types);
}

#[test]
fn review_round_trip_keeps_uid() {
    let rev = pod_review();
    let req = rev.try_into().unwrap();
    assert_eq!(req.types.api_version, META_API_VERSION_V1);
    assert_eq!(req.types.kind, META_KIND);
    let res = AdmissionResponse::from(&req);
    assert!(res.allowed);
    assert_eq!(res.uid, "0c9a8d74-9cb7-44dd-b98e-09fd62def2f4");
    assert!(res.patch.is_none());
    assert!(res.audit_annotations.is_empty());
    let review = res.into_review();
    assert!(review.request.is_none());
    assert_eq!(review.response.unwrap().uid, "0c9a8d74-9cb7-44dd-b98e-09fd62def2f4");
}

#[test]
fn review_without_request_is_refused() {
    let rev: AdmissionReview<DynamicObject> = AdmissionReview {
        types: TypeMeta::default(),
        request: None,
        response: None,
    };
    match rev.try_into() {
        Err(ApiError::RequestValidation(m)) => {
            assert_eq!(m, "invalid AdmissionRequest. expected Some but got None")
        }
        _ => panic!("expected a RequestValidation error"),
    }
}

#[test]
fn deny_keeps_identity() {
    let req = pod_review().try_into().unwrap();
    let res = AdmissionResponse::from(&req).deny("x");
    assert!(!res.allowed);
    assert_eq!(res.result.message.as_deref(), Some("x"));
    assert_eq!(res.uid, req.uid);
    assert_eq!(res.types, req.types);
}

#[test]
fn invalid_response_defaults() {
    let res = AdmissionResponse::invalid("unreadable");
    assert!(!res.allowed);
    assert_eq!(res.uid, "");
    assert_eq!(res.types.kind, "AdmissionReview");
    assert_eq!(res.types.api_version, META_API_VERSION_V1BETA1);
    assert_eq!(res.result.reason.as_deref(), Some("unreadable"));
    assert!(res.result.message.is_none());
    let review = res.into_review();
    assert_eq!(review.types.api_version, "admission.k8s.io/v1beta1");
}

#[test]
fn patch_is_attached() {
    let req = pod_review().try_into().unwrap();
    let patch = json_patch::Patch(vec![json_patch::PatchOperation::Add(json_patch::AddOperation {
        path: "/metadata/labels/my-label".to_owned(),
        value: serde_json::Value::String("my-value".to_owned()),
    })]);
    let res = AdmissionResponse::from(&req).with_patch(patch).unwrap();
    assert!(res.allowed);
    assert_eq!(res.patch_type, Some(PatchType::JsonPatch));
    assert_eq!(
        String::from_utf8(res.patch.clone().unwrap()).unwrap(),
        r#"[{"op":"add","path":"/metadata/labels/my-label","value":"my-value"}]"#
    );
    assert_eq!(res.uid, req.uid);
}

#[test]
fn empty_patch_encodes_as_empty_array() {
    let req = pod_review().try_into().unwrap();
    let res = AdmissionResponse::from(&req).deny("no").with_patch(json_patch::Patch(vec![])).unwrap();
    assert!(!res.allowed);
    assert_eq!(res.patch.unwrap(), b"[]".to_vec());
}
