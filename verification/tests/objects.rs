use std::sync::Arc;
use vale_gateway::kinds::{gateway_kind, service_kind};
use vale_gateway::object_ref::{KubeObject, ObjectMeta, ObjectRef, ObjectUniqueId, ResourceKind};
use vale_gateway::objects::{Objects, ObjectsError};

fn meta(namespace: Option<&str>, name: Option<&str>, uid: Option<&str>) -> ObjectMeta {
    ObjectMeta {
        namespace: namespace.map(|s| s.to_string()),
        name: name.map(|s| s.to_string()),
        uid: uid.map(|s| s.to_string()),
        resource_version: None,
        generation: None,
        creation_timestamp: None,
    }
}

fn object(resource: ResourceKind, namespace: &str, name: &str, uid: &str, data: u32) -> Arc<KubeObject<u32>> {
    Arc::new(KubeObject { resource, metadata: meta(Some(namespace), Some(name), Some(uid)), data })
}

#[test]
fn insert_then_lookup_by_ref_and_uid() {
    let mut objects: Objects<u32> = Objects::new();
    assert!(objects.is_empty());
    let o = object(service_kind(), "default", "web", "uid-1", 7);
    assert_eq!(objects.insert(o.clone()), Ok(()));
    assert_eq!(objects.size(), 1);
    let r = ObjectRef::for_kind(&service_kind(), Some("default".to_string()), "web".to_string());
    assert_eq!(objects.get_by_ref(&r).map(|x| x.data), Some(7));
    assert_eq!(objects.get_by_unique_id(&ObjectUniqueId::new("uid-1".to_string())).map(|x| x.data), Some(7));
    assert!(objects.contains_by_ref(&r));
    assert!(objects.contains_by_unique_id(&ObjectUniqueId::new("uid-1".to_string())));
}

#[test]
fn insert_replaces_an_earlier_state() {
    let mut objects: Objects<u32> = Objects::new();
    objects.insert(object(service_kind(), "default", "web", "uid-1", 1)).unwrap();
    objects.insert(object(service_kind(), "default", "web", "uid-1", 2)).unwrap();
    assert_eq!(objects.size(), 1);
    let r = ObjectRef::for_kind(&service_kind(), Some("default".to_string()), "web".to_string());
    assert_eq!(objects.get_by_ref(&r).map(|x| x.data), Some(2));
}

#[test]
fn remove_undoes_insert() {
    let mut objects: Objects<u32> = Objects::new();
    let o = object(gateway_kind(), "infra", "edge", "uid-9", 3);
    objects.insert(o.clone()).unwrap();
    assert_eq!(objects.remove(&o), Ok(()));
    assert!(objects.is_empty());
    let r = ObjectRef::for_kind(&gateway_kind(), Some("infra".to_string()), "edge".to_string());
    assert!(objects.get_by_ref(&r).is_none());
    assert!(!objects.contains_by_unique_id(&ObjectUniqueId::new("uid-9".to_string())));
}

#[test]
fn object_without_uid_is_refused() {
    let mut objects: Objects<u32> = Objects::new();
    let o = Arc::new(KubeObject { resource: service_kind(), metadata: meta(Some("default"), Some("web"), None), data: 1 });
    assert_eq!(objects.insert(o.clone()), Err(ObjectsError::InvalidKeys));
    assert_eq!(objects.remove(&o), Err(ObjectsError::InvalidKeys));
    assert!(objects.is_empty());
}

#[test]
fn iteration_keeps_insertion_order() {
    let mut objects: Objects<u32> = Objects::new();
    objects.insert(object(service_kind(), "a", "one", "u1", 1)).unwrap();
    objects.insert(object(service_kind(), "b", "two", "u2", 2)).unwrap();
    let items = objects.iter();
    assert_eq!(items.len(), 2);
    assert_eq!(items[0].0.name(), "one");
    assert_eq!(items[1].1.id(), "u2");
    let refs = objects.cloned_refs();
    assert_eq!(refs[1].namespace().as_deref(), Some("b"));
    let copy = Objects::from_items(items);
    assert_eq!(copy.size(), 2);
}

#[test]
fn object_ref_display_and_builder() {
    let r = ObjectRef::for_kind(&gateway_kind(), Some("infra".to_string()), "edge".to_string());
    assert_eq!(r.display(), "Gateway.v1gateway.networking.k8s.io/edge.infra");
    let s = ObjectRef::for_kind(&service_kind(), None, "web".to_string());
    assert_eq!(s.display(), "Service.v1/web");
    let mut b = ObjectRef::new_builder();
    b.of_kind(&service_kind()).namespace(None).name("web".to_string());
    let built = b.build().unwrap();
    assert!(built.same_as(&s));
    let mut incomplete = ObjectRef::new_builder();
    incomplete.kind("Service".to_string());
    assert!(incomplete.build().is_err());
    let keys = Objects::<u32>::keys(&object(service_kind(), "default", "web", "u", 0));
    assert_eq!(keys.map(|(r, u)| (r.name().clone(), u.id().clone())), Some(("web".to_string(), "u".to_string())));
}
