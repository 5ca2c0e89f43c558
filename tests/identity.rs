use kube::gvk::to_plural;
use kube::{APIResource, ApiError, DynamicObject, GroupVersionKind, GroupVersionResource, Object, NotUsed, Resource};

#[test]
fn gvk_api_version_core_group() {
    let g = GroupVersionKind::gvk("", "v1", "Pod").unwrap();
    assert_eq!(g.api_version, "v1");
    assert_eq!(g.group, "");
    assert_eq!(g.version, "v1");
    assert_eq!(g.kind, "Pod");
    assert!(g.plural.is_none());
}

#[test]
fn gvk_api_version_named_group() {
    let g = GroupVersionKind::gvk("apps", "v1", "Deployment").unwrap();
    assert_eq!(g.api_version, "apps/v1");
}

#[test]
fn gvk_without_version_fails() {
    match GroupVersionKind::gvk("", "", "Foo") {
        Err(ApiError::DynamicType(m)) => assert_eq!(m, "GroupVersionKind 'Foo' must have a version"),
        _ => panic!("expected a DynamicType error"),
    }
}

#[test]
fn gvk_without_kind_fails() {
    match GroupVersionKind::gvk("g", "v", "") {
        Err(ApiError::DynamicType(m)) => assert_eq!(m, "GroupVersionKind '' must have a kind"),
        _ => panic!("expected a DynamicType error"),
    }
}

#[test]
fn explicit_plural_is_kept() {
    let g = GroupVersionKind::gvk("clux.dev", "v1", "Foo").unwrap().plural("foozies");
    assert_eq!(g.plural.as_deref(), Some("foozies"));
    assert_eq!(g.api_version, "clux.dev/v1");
    assert_eq!(DynamicObject::plural(&g), "foozies");
}

#[test]
fn service_plural_is_inferred() {
    let g = GroupVersionKind::gvk("", "v1", "Service").unwrap();
    assert_eq!(DynamicObject::plural(&g), "services");
    assert_eq!(Object::<NotUsed, NotUsed>::plural(&g), "services");
}

#[test]
fn pluralization_rules() {
    assert_eq!(to_plural("fox"), "foxes");
    assert_eq!(to_plural("class"), "classes");
    assert_eq!(to_plural("batch"), "batches");
    assert_eq!(to_plural("mesh"), "meshes");
    assert_eq!(to_plural("quiz"), "quizes");
    assert_eq!(to_plural("policy"), "policies");
    assert_eq!(to_plural("day"), "days");
    assert_eq!(to_plural("y"), "ys");
    assert_eq!(to_plural("pod"), "pods");
    assert_eq!(to_plural("endpoints"), "endpoints");
    assert_eq!(to_plural("endpointslices"), "endpointslices");
    assert_eq!(to_plural("nodemetrics"), "nodes");
    assert_eq!(to_plural("podmetrics"), "pods");
    assert_eq!(to_plural(""), "s");
}

#[test]
fn inferred_plural_lowercases_kind() {
    let g = GroupVersionKind::gvk("networking.k8s.io", "v1", "NetworkPolicy").unwrap();
    assert_eq!(DynamicObject::plural(&g), "networkpolicies");
}

#[test]
fn from_api_resource_takes_defaults_from_group_version() {
    let ar = APIResource {
        name: "deployments".to_string(),
        group: None,
        version: None,
        kind: "Deployment".to_string(),
    };
    let g = GroupVersionKind::from_api_resource(&ar, "apps/v1");
    assert_eq!(g.group, "apps");
    assert_eq!(g.version, "v1");
    assert_eq!(g.kind, "Deployment");
    assert_eq!(g.api_version, "apps/v1");
    assert_eq!(g.plural.as_deref(), Some("deployments"));
}

#[test]
fn from_api_resource_core_group() {
    let ar = APIResource {
        name: "pods".to_string(),
        group: None,
        version: None,
        kind: "Pod".to_string(),
    };
    let g = GroupVersionKind::from_api_resource(&ar, "v1");
    assert_eq!(g.group, "");
    assert_eq!(g.version, "v1");
    assert_eq!(g.api_version, "v1");
}

#[test]
fn from_api_resource_prefers_record_fields() {
    let ar = APIResource {
        name: "scales".to_string(),
        group: Some("autoscaling".to_string()),
        version: Some("v1".to_string()),
        kind: "Scale".to_string(),
    };
    let g = GroupVersionKind::from_api_resource(&ar, "apps/v1/extra");
    assert_eq!(g.group, "autoscaling");
    assert_eq!(g.version, "v1");
    assert_eq!(g.api_version, "autoscaling/v1");
    let ar2 = APIResource { group: None, version: None, ..ar };
    let g2 = GroupVersionKind::from_api_resource(&ar2, "apps/v1/extra");
    assert_eq!(g2.group, "apps");
    assert_eq!(g2.version, "v1/extra");
}

#[test]
fn gvr_api_version() {
    let r = GroupVersionResource::gvr("", "v1", "pods");
    assert_eq!(r.api_version, "v1");
    let r = GroupVersionResource::gvr("apps", "v1", "deployments");
    assert_eq!(r.api_version, "apps/v1");
    assert_eq!(r.resource, "deployments");
}

#[test]
fn raw_custom_resource() {
    let gvk = GroupVersionKind::gvk("clux.dev", "v1", "Foo").unwrap();
    let url = DynamicObject::url_path(&gvk, Some("myns"));
    assert_eq!(url, "/apis/clux.dev/v1/namespaces/myns/foos");
}

#[test]
fn raw_resource_in_default_group() {
    let gvk = GroupVersionKind::gvk("", "v1", "Service").unwrap();
    let url = DynamicObject::url_path(&gvk, None);
    assert_eq!(url, "/api/v1/services");
}

#[test]
fn typed_and_dynamic_objects_share_paths() {
    let gvk = GroupVersionKind::gvk("clux.dev", "v1", "Foo").unwrap();
    let d = DynamicObject::new("baz", &gvk);
    let o: Object<u32, NotUsed> = Object::new("baz", &gvk, 7);
    assert_eq!(d.name(), o.name());
    assert_eq!(
        DynamicObject::url_path(&gvk, Some("myns")),
        Object::<u32, NotUsed>::url_path(&gvk, Some("myns"))
    );
    assert_eq!(DynamicObject::url_path(&gvk, None), Object::<u32, NotUsed>::url_path(&gvk, None));
    assert_eq!(Object::<u32, NotUsed>::url_path(&gvk, None), "/apis/clux.dev/v1/foos");
}

#[test]
fn object_metadata_accessors() {
    let gvk = GroupVersionKind::gvk("", "v1", "ConfigMap").unwrap();
    let d = DynamicObject::new("cm", &gvk).namespace("ns1");
    assert_eq!(d.name(), "cm");
    assert_eq!(Resource::namespace(&d), Some("ns1".to_string()));
    assert_eq!(d.resource_ver(), None);
    assert_eq!(d.meta().name.as_deref(), Some("cm"));
    let types = d.types.clone().unwrap();
    assert_eq!(types.api_version, "v1");
    assert_eq!(types.kind, "ConfigMap");
    assert_eq!(DynamicObject::group(&gvk), "");
    assert_eq!(DynamicObject::version(&gvk), "v1");
    assert_eq!(DynamicObject::kind(&gvk), "ConfigMap");
    assert_eq!(DynamicObject::api_version(&gvk), "v1");
    assert!(d.data.is_null());
    assert!(d.metadata.other.is_null());
    let d = d.data(serde_json::Value::Bool(true));
    assert_eq!(d.data, serde_json::Value::Bool(true));
    let o: Object<String, NotUsed> = Object::new("cm", &gvk, "spec".to_string());
    assert!(o.status.is_none());
    assert_eq!(o.spec, "spec");
    assert_eq!(o.namespace(), None);
}
