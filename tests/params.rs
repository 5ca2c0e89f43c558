use kube::{
    ApiError, Bookmark, BookmarkMeta, DeleteParams, ErrorResponse, ListMeta, ListParams, ObjectList,
    PatchParams, PostParams, Preconditions, PropagationPolicy, ResourcePatch, TypeMeta, WatchEvent,
};

#[test]
fn delete_param_serialize() {
    let mut dp = DeleteParams::default();
    let emptyser = dp.to_json().unwrap();
    assert_eq!(emptyser, "{}");

    dp.dry_run = true;
    let ser = dp.to_json().unwrap();
    assert_eq!(ser, "{\"dryRun\":[\"All\"]}");
}

#[test]
fn delete_params_all_fields() {
    let dp = DeleteParams {
        dry_run: true,
        grace_period_seconds: Some(30),
        propagation_policy: Some(PropagationPolicy::Foreground),
        preconditions: Some(Preconditions {
            resource_version: Some("12\"3".to_string()),
            uid: Some("abc".to_string()),
        }),
    };
    assert_eq!(
        dp.to_json().unwrap(),
        r#"{"dryRun":["All"],"gracePeriodSeconds":30,"propagationPolicy":"Foreground","preconditions":{"resourceVersion":"12\"3","uid":"abc"}}"#
    );
    let dp = DeleteParams { grace_period_seconds: Some(0), ..DeleteParams::default() };
    assert_eq!(dp.to_json().unwrap(), r#"{"gracePeriodSeconds":0}"#);
    let pc = Preconditions::default();
    assert_eq!(pc.to_json().unwrap(), "{}");
    assert_eq!(PropagationPolicy::Orphan.name(), "Orphan");
}

#[test]
fn list_params_timeout_ceiling() {
    assert!(ListParams::default().timeout(294).validate().is_ok());
    match ListParams::default().timeout(295).validate() {
        Err(ApiError::RequestValidation(m)) => assert_eq!(m, "ListParams::timeout must be < 295s"),
        _ => panic!("expected a RequestValidation error"),
    }
    assert!(ListParams::default().timeout(u32::MAX).validate().is_err());
    assert!(ListParams::default().validate().is_ok());
}

#[test]
fn list_params_builders() {
    let lp = ListParams::default()
        .timeout(60)
        .labels("kubernetes.io/lifecycle=spot")
        .fields("metadata.name=x")
        .limit(10)
        .continue_token("tok");
    assert!(lp.bookmarks);
    assert_eq!(lp.timeout, Some(60));
    assert_eq!(lp.label_selector.as_deref(), Some("kubernetes.io/lifecycle=spot"));
    assert_eq!(lp.field_selector.as_deref(), Some("metadata.name=x"));
    assert_eq!(lp.limit, Some(10));
    assert_eq!(lp.continue_token.as_deref(), Some("tok"));
    assert!(!lp.disable_bookmarks().bookmarks);
}

#[test]
fn field_manager_length_limit() {
    let ok = PostParams { dry_run: false, field_manager: Some("m".repeat(128)) };
    assert!(ok.validate().is_ok());
    let long = PostParams { dry_run: false, field_manager: Some("m".repeat(129)) };
    match long.validate() {
        Err(ApiError::RequestValidation(m)) => {
            assert_eq!(m, "Failed to validate PostParams::field_manager!")
        }
        _ => panic!("expected a RequestValidation error"),
    }
    // 65 two-byte characters are 130 bytes
    let wide = PatchParams::apply(&"é".repeat(65));
    let patch: ResourcePatch<()> = ResourcePatch::Merge(());
    match wide.validate(&patch) {
        Err(ApiError::RequestValidation(m)) => {
            assert_eq!(m, "Failed to validate PatchParams::field_manager!")
        }
        _ => panic!("expected a RequestValidation error"),
    }
    assert!(PatchParams::default().force().validate(&patch).is_ok());
}

#[test]
fn patch_params_query() {
    let pp = PatchParams::apply("kubectl").force().dry_run();
    assert!(pp.dry_run && pp.force);
    assert_eq!(pp.query_string(), "dryRun=All&force=true&fieldManager=kubectl");
    assert_eq!(PatchParams::default().query_string(), "");
    assert_eq!(PatchParams::apply("a b&c").query_string(), "fieldManager=a+b%26c");
}

#[test]
fn patch_content_types_and_bodies() {
    let apply: ResourcePatch<u32> = ResourcePatch::Apply(5);
    assert!(apply.is_apply());
    assert_eq!(apply.content_type(), "application/apply-patch+yaml");
    assert_eq!(apply.serialize().unwrap(), b"5".to_vec());
    let json: ResourcePatch<()> = ResourcePatch::Json(json_patch::Patch(vec![]));
    assert!(!json.is_apply());
    assert_eq!(json.content_type(), "application/json-patch+json");
    assert_eq!(json.serialize().unwrap(), b"[]".to_vec());
    let merge = ResourcePatch::Merge(vec!["a"]);
    assert_eq!(merge.content_type(), "application/merge-patch+json");
    assert_eq!(merge.serialize().unwrap(), br#"["a"]"#.to_vec());
    let strategic = ResourcePatch::Strategic(());
    assert_eq!(strategic.content_type(), "application/strategic-merge-patch+json");
    assert_eq!(strategic.serialize().unwrap(), b"null".to_vec());
}

#[test]
fn object_list_iteration_keeps_order() {
    let mut list = ObjectList { metadata: ListMeta::default(), items: vec![1, 2, 3] };
    let seen: Vec<i32> = list.iter().cloned().collect();
    assert_eq!(seen, vec![1, 2, 3]);
    if let Some(first) = list.iter_mut().iter_mut().next() {
        *first = 2;
    }
    assert_eq!(list.items, vec![2, 2, 3]);
}

#[test]
fn watch_event_descriptions() {
    assert_eq!(WatchEvent::Added(1).describe(), "Added event");
    assert_eq!(WatchEvent::Modified(1).describe(), "Modified event");
    assert_eq!(WatchEvent::Deleted(1).describe(), "Deleted event");
    let bm: WatchEvent<u8> = WatchEvent::Bookmark(Bookmark {
        types: TypeMeta::default(),
        metadata: BookmarkMeta { resource_version: "7".to_string() },
    });
    assert_eq!(bm.describe(), "Bookmark event");
    let err: WatchEvent<u8> = WatchEvent::Error(ErrorResponse {
        status: "Failure".to_string(),
        message: "too old resource version".to_string(),
        reason: "Expired".to_string(),
        code: 410,
    });
    assert_eq!(
        err.describe(),
        "Error event: ErrorResponse { status: \"Failure\", message: \"too old resource version\", reason: \"Expired\", code: 410 }"
    );
    let quoted = ErrorResponse {
        status: "Failure".to_string(),
        message: "say \"no\"\n".to_string(),
        reason: String::new(),
        code: 0,
    };
    assert_eq!(
        quoted.debug_text(),
        "ErrorResponse { status: \"Failure\", message: \"say \\\"no\\\"\\n\", reason: \"\", code: 0 }"
    );
}

#[test]
fn object_list_into_iterators() {
    let list = ObjectList { metadata: ListMeta::default(), items: vec!["a", "b"] };
    let mut seen = Vec::new();
    for item in &list {
        seen.push(*item);
    }
    assert_eq!(seen, vec!["a", "b"]);
    let owned: Vec<&str> = list.into_iter().collect();
    assert_eq!(owned, vec!["a", "b"]);
}

#[test]
fn force_on_non_apply_patch_is_flagged() {
    let forced = PatchParams::apply("m").force();
    let merge: ResourcePatch<()> = ResourcePatch::Merge(());
    let apply: ResourcePatch<()> = ResourcePatch::Apply(());
    assert!(forced.force_is_ignored(&merge));
    assert!(!forced.force_is_ignored(&apply));
    assert!(!PatchParams::apply("m").force_is_ignored(&merge));
}

#[test]
fn precondition_text_is_escaped() {
    let pc = Preconditions { resource_version: None, uid: Some("a\\b\n\t\u{1}\u{1f}é".to_string()) };
    assert_eq!(pc.to_json().unwrap(), "{\"uid\":\"a\\\\b\\n\\t\\u0001\\u001fé\"}");
}

#[test]
fn query_text_is_form_encoded() {
    let pp = PatchParams::apply("é*-._~/ ");
    assert_eq!(pp.query_string(), "fieldManager=%C3%A9*-._%7E%2F+");
}
