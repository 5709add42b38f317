use std::sync::Arc;
use vale_gateway::api::{
    CommonGatewayParameterSpec, GatewayConfiguration, GatewayDeployment, Image, ImagePullPolicy, LogLevel,
    StaticResponseFilterBody, StaticResponseFilterBodyFormat,
    StaticResponseFilterSpec, Timestamp,
};
use vale_gateway::filter_status::{count_attached_routes, create_filter_status, is_valid_status_code};
use vale_gateway::gateway_classes::{
    filter_gateway_class_parameters, filter_gateway_classes, map_to_status, GatewayClassParametersReferenceState,
    GatewayClassSelectionError, GatewayClassSpec, GatewaySpec, Listener, ParametersReference,
};
use vale_gateway::gateway_config::{
    image_pull_policy_of, image_reference, merge_parameters, GatewayInstanceConfiguration,
};
use vale_gateway::gateway_status::build_gateway_status;
use vale_gateway::instances::{
    get_pod_ref, lease_name, names_holder, next_instance_role, primary_pod_field_selector, InstanceRole, Lease,
    LeaseLockResult, LeaseSpec,
};
use vale_gateway::kinds::{gateway_class_kind, gateway_kind, http_route_kind};
use vale_gateway::object_ref::{KubeObject, ObjectMeta, ObjectRef};
use vale_gateway::objects::Objects;
use vale_gateway::ref_map::RefMap;
use vale_gateway::routes::{ExtensionRefSpec, HttpRouteSpec, RouteFilterSpec, RouteRuleSpec};
use vale_gateway::sync_plan::{
    configmap_actions, deleted_refs, deployment_actions, expand, managed_labels, service_actions,
    sync_step, ConfigMapTemplateValues, GatewayState, GeneratedConfiguration, SyncObjectAction, SyncStep,
};

fn meta(namespace: Option<&str>, name: &str, uid: &str) -> ObjectMeta {
    ObjectMeta {
        namespace: namespace.map(|s| s.to_string()),
        name: Some(name.to_string()),
        uid: Some(uid.to_string()),
        resource_version: None,
        generation: None,
        creation_timestamp: None,
    }
}

fn gw_ref(ns: &str, name: &str) -> ObjectRef {
    ObjectRef::for_kind(&gateway_kind(), Some(ns.to_string()), name.to_string())
}

fn now() -> Timestamp {
    Timestamp { seconds: 1_700_000_000, nanos: 0 }
}

#[test]
fn filter_status_reflects_validity_and_use() {
    assert!(is_valid_status_code(100));
    assert!(is_valid_status_code(599));
    assert!(!is_valid_status_code(600));
    let spec = StaticResponseFilterSpec {
        status_code: 404,
        body: Some(StaticResponseFilterBody {
            format: StaticResponseFilterBodyFormat::Text,
            content_type: "text/plain".to_string(),
            text: Some("gone".to_string()),
            binary: None,
        }),
    };
    let status = create_filter_status(&spec, 2, now());
    let conditions = status.conditions.unwrap();
    assert_eq!(conditions.len(), 3);
    assert_eq!(conditions[0].type_, "Accepted");
    assert_eq!(conditions[0].status, "True");
    assert_eq!(conditions[1].type_, "Ready");
    assert_eq!(conditions[1].status, "True");
    assert_eq!(conditions[2].type_, "Attached");
    assert_eq!(conditions[2].message, "StaticResponseFilter is attached to 2 route(s)");
    assert_eq!(status.attached_routes, 2);
    assert_eq!(status.last_updated, Some(now()));

    let invalid = StaticResponseFilterSpec { status_code: 42, body: None };
    let status = create_filter_status(&invalid, 0, now());
    let conditions = status.conditions.unwrap();
    assert_eq!(conditions[0].status, "False");
    assert_eq!(conditions[0].reason, "InvalidConfiguration");
    assert_eq!(conditions[1].reason, "NotReady");
    assert_eq!(conditions[2].status, "False");
}

#[test]
fn attached_routes_are_counted_by_name_and_namespace() {
    let route = |ns: &str, filter: &str| {
        Arc::new(KubeObject {
            resource: http_route_kind(),
            metadata: meta(Some(ns), "r", "u"),
            data: HttpRouteSpec {
                hostnames: None,
                parent_refs: None,
                rules: Some(vec![RouteRuleSpec {
                    backend_refs: None,
                    filters: Some(vec![RouteFilterSpec {
                        request_header_modifier: None,
                        response_header_modifier: None,
                        request_redirect: None,
                        url_rewrite: None,
                        extension_ref: Some(ExtensionRefSpec {
                            group: "vale-gateway.whitefamily.in".to_string(),
                            kind: "StaticResponseFilter".to_string(),
                            name: filter.to_string(),
                        }),
                    }]),
                    matches: None,
                }]),
            },
        })
    };
    let routes = vec![route("apps", "maint"), route("other", "maint"), route("apps", "else")];
    assert_eq!(count_attached_routes(&Some("maint".to_string()), &Some("apps".to_string()), &routes), 1);
    assert_eq!(count_attached_routes(&Some("none".to_string()), &Some("apps".to_string()), &routes), 0);
}

fn class(name: &str, uid: &str, controller: &str, parameters_ref: Option<ParametersReference>) -> Arc<KubeObject<GatewayClassSpec>> {
    Arc::new(KubeObject {
        resource: gateway_class_kind(),
        metadata: meta(None, name, uid),
        data: GatewayClassSpec { controller_name: controller.to_string(), parameters_ref },
    })
}

#[test]
fn gateway_class_selection() {
    let mut classes: Objects<GatewayClassSpec> = Objects::new();
    assert_eq!(filter_gateway_classes(&classes).err(), Some(GatewayClassSelectionError::NotFound));
    classes.insert(class("other", "u0", "example.com/other", None)).unwrap();
    classes.insert(class("vale", "u1", "kubera.whitefamily.in/controlplane", None)).unwrap();
    let (class_ref, selected) = filter_gateway_classes(&classes).ok().unwrap();
    assert_eq!(class_ref.name(), "vale");
    assert_eq!(selected.metadata.uid.as_deref(), Some("u1"));
    classes.insert(class("vale2", "u2", "kubera.whitefamily.in/controlplane", None)).unwrap();
    assert_eq!(filter_gateway_classes(&classes).err(), Some(GatewayClassSelectionError::Ambiguous));
}

#[test]
fn gateway_class_parameters_states() {
    let parameters: Objects<u8> = Objects::new();
    let without = class("vale", "u1", "c", None);
    assert_eq!(filter_gateway_class_parameters(&without, &parameters).as_str(), "kubera.whitefamily.in/NoRef");
    let with = class(
        "vale",
        "u1",
        "c",
        Some(ParametersReference {
            group: "vale-gateway.whitefamily.in".to_string(),
            kind: "GatewayClassParameters".to_string(),
            name: "p".to_string(),
            namespace: None,
        }),
    );
    let state = filter_gateway_class_parameters(&with, &parameters);
    assert_eq!(state.as_str(), "kubera.whitefamily.in/NotFound");
    let status = map_to_status(&state, now());
    let conditions = status.conditions.unwrap();
    assert_eq!(conditions[0].type_, "NotFound");
    assert_eq!(conditions[0].reason, "InvalidParameters");
    let accepted = map_to_status(&GatewayClassParametersReferenceState::<u8>::NoRef, now()).conditions.unwrap();
    assert_eq!(accepted[0].status, "True");
}

#[test]
fn gateway_status_lists_each_listener() {
    let gateway = KubeObject {
        resource: gateway_kind(),
        metadata: meta(Some("infra"), "edge", "g"),
        data: GatewaySpec {
            gateway_class_name: "vale".to_string(),
            listeners: vec![
                Listener { name: "http".to_string(), port: 80, protocol: "HTTP".to_string(), hostname: None },
                Listener { name: "https".to_string(), port: 443, protocol: "HTTPS".to_string(), hostname: None },
            ],
            infrastructure: None,
        },
    };
    let status = build_gateway_status(&gateway, now());
    let addresses = status.addresses.unwrap();
    assert_eq!(addresses[0].value, "127.0.0.1");
    let conditions = status.conditions.unwrap();
    assert_eq!(conditions[1].type_, "Programmed");
    let listeners = status.listeners.unwrap();
    assert_eq!(listeners.len(), 2);
    assert_eq!(listeners[1].name, "https");
    assert_eq!(listeners[1].supported_kinds[0].kind, "HTTPRoute");
    assert_eq!(listeners[1].attached_routes, 0);
}

#[test]
fn leases_decide_the_role() {
    let lease = Lease { spec: Some(LeaseSpec { holder_identity: Some("pod-a".to_string()) }) };
    let pod = get_pod_ref("system", &lease);
    assert_eq!(pod.display(), "Pod.v1/pod-a.system");
    let acquired: Result<LeaseLockResult, String> = Ok(LeaseLockResult::Acquired(lease));
    let role = next_instance_role("system", &acquired).unwrap();
    assert!(role.is_primary());
    assert_eq!(role.primary_pod_ref().name(), "pod-a");
    let other = Lease { spec: Some(LeaseSpec { holder_identity: Some("pod-b".to_string()) }) };
    let role = next_instance_role("system", &Ok::<_, String>(LeaseLockResult::NotAcquired(other))).unwrap();
    assert!(matches!(role, InstanceRole::Redundant(_)));
    assert_eq!(primary_pod_field_selector(&role.primary_pod_ref()), "metadata.name=pod-b");
    assert!(next_instance_role::<String>("system", &Err("down".to_string())).is_none());
    assert_eq!(lease_name("vale"), "vale-primary");
}

#[test]
fn stale_objects_are_deleted_before_upserts() {
    let current = vec![
        ObjectRef::for_kind(&vale_gateway::kinds::deployment_kind(), Some("infra".to_string()), "old".to_string()),
        ObjectRef::for_kind(&vale_gateway::kinds::deployment_kind(), Some("infra".to_string()), "edge".to_string()),
    ];
    let mut instances: RefMap<GatewayInstanceConfiguration<u8, u8>> = RefMap::new();
    instances.insert(
        gw_ref("infra", "edge"),
        GatewayInstanceConfiguration {
            gateway: Arc::new(KubeObject {
                resource: gateway_kind(),
                metadata: meta(Some("infra"), "edge", "g"),
                data: GatewaySpec { gateway_class_name: "vale".to_string(), listeners: vec![], infrastructure: None },
            }),
            configuration: Default::default(),
            image_pull_policy: ImagePullPolicy::Always,
            deployment_overrides: Arc::new(1),
            service_overrides: Arc::new(2),
        },
    );
    let actions = deployment_actions(&current, &instances);
    assert_eq!(actions.len(), 2);
    assert!(matches!(&actions[0], SyncObjectAction::Delete(r) if r.name() == "old"));
    match &actions[1] {
        SyncObjectAction::Upsert(object, parent, values, overrides) => {
            assert_eq!(object.display(), "Deployment.v1apps/edge.infra");
            assert_eq!(parent.name(), "edge");
            assert_eq!(values.configmap_name, "edge-config");
            assert_eq!(values.image_pull_policy, "Always");
            assert_eq!(overrides.as_ref().map(|o| **o), Some(1));
        }
        _ => panic!("expected an upsert"),
    }
    let services = service_actions(&vec![], &instances);
    assert_eq!(services.len(), 1);
    assert_eq!(services[0].object_ref().display(), "Service.v1/edge.infra");
    assert_eq!(sync_step(&actions[0], true), SyncStep::Delete);
    assert_eq!(sync_step(&actions[0], false), SyncStep::Skip);
    assert_eq!(sync_step(&actions[1], false), SyncStep::Create);
    assert_eq!(sync_step(&actions[1], true), SyncStep::Patch);
    let labels = managed_labels(&gw_ref("infra", "edge"));
    assert_eq!(labels[1], ("app.kubernetes.io/part-of".to_string(), "edge".to_string()));
    assert_eq!(deleted_refs(&current, &current).len(), 0);
}

#[test]
fn configmaps_follow_the_generated_configurations() {
    let mut generated: RefMap<Option<GeneratedConfiguration<u8>>> = RefMap::new();
    generated.insert(
        gw_ref("infra", "edge"),
        Some(GeneratedConfiguration { configuration: Arc::new(9), yaml: Some("a: 1".to_string()) }),
    );
    generated.insert(gw_ref("infra", "broken"), None);
    let states: Vec<GatewayState<u8>> = expand(&generated);
    assert_eq!(states.len(), 2);
    assert_eq!(states[0].configmap_ref.display(), "ConfigMap.v1/edge-config.infra");
    let (values, config) = states[0].values.as_ref().unwrap();
    assert_eq!(values.config_yaml, "a: 1");
    assert_eq!(**config, 9);
    assert!(states[1].values.is_none());
    let current = vec![
        ObjectRef::for_kind(&vale_gateway::kinds::config_map_kind(), Some("infra".to_string()), "gone-config".to_string()),
        ObjectRef::for_kind(&vale_gateway::kinds::config_map_kind(), Some("infra".to_string()), "broken-config".to_string()),
    ];
    let actions: Vec<SyncObjectAction<ConfigMapTemplateValues, ()>> = configmap_actions(&current, &states);
    assert_eq!(actions.len(), 2);
    assert_eq!(actions[0].object_ref().name(), "gone-config");
    assert!(matches!(&actions[1], SyncObjectAction::Upsert(_, p, v, None) if p.name() == "edge" && v.gateway_name == "edge"));
}

#[test]
fn leases_without_holders_are_found() {
    assert!(!names_holder(&Lease { spec: None }));
    assert!(!names_holder(&Lease { spec: Some(LeaseSpec { holder_identity: None }) }));
    assert!(names_holder(&Lease { spec: Some(LeaseSpec { holder_identity: Some("cp-0".to_string()) }) }));
}

#[test]
fn a_gateways_own_parameters_come_before_its_class() {
    let deployment = |policy: Option<ImagePullPolicy>, replicas: i32| GatewayDeployment::<()> {
        replicas: Some(replicas),
        strategy: None,
        image_pull_policy: policy,
        image: None,
    };
    let own = CommonGatewayParameterSpec { deployment: Some(deployment(Some(ImagePullPolicy::Always), 3)), gateway: None };
    let class = CommonGatewayParameterSpec {
        deployment: Some(deployment(None, 1)),
        gateway: Some(GatewayConfiguration { log_level: Some(LogLevel::Debug), error_responses: None, client_addresses: None }),
    };
    let merged = merge_parameters(Some(own), Some(class));
    assert_eq!(merged.deployment.as_ref().unwrap().replicas, Some(3));
    assert_eq!(merged.gateway.as_ref().unwrap().log_level, Some(LogLevel::Debug));
    assert_eq!(image_pull_policy_of(&merged.deployment), ImagePullPolicy::Always);
    let none = merge_parameters::<()>(None, None);
    assert!(none.deployment.is_none() && none.gateway.is_none());
    assert_eq!(image_pull_policy_of(&none.deployment), ImagePullPolicy::IfNotPresent);
    let from_class = merge_parameters(None, Some(CommonGatewayParameterSpec { deployment: Some(deployment(None, 2)), gateway: None }));
    assert_eq!(from_class.deployment.as_ref().unwrap().replicas, Some(2));
    assert_eq!(image_pull_policy_of(&from_class.deployment), ImagePullPolicy::IfNotPresent);
    let image = |r: Option<&str>, t: Option<&str>| Image { repository: r.map(|x| x.to_string()), tag: t.map(|x| x.to_string()) };
    assert_eq!(image_reference(&image(Some("repo/gw"), Some("1.2"))), Some("repo/gw:1.2".to_string()));
    assert_eq!(image_reference(&image(Some("repo/gw"), None)), Some("repo/gw".to_string()));
    assert_eq!(image_reference(&image(None, Some("1.2"))), None);
}
