use std::sync::Arc;
use std::time::Duration;
use vale_gateway::controller_state::{gateway_class_state, gateways_watch, parameters_watch, ParametersWatch};
use vale_gateway::gateway_classes::{GatewayInfrastructure, GatewaySpec, LocalParametersReference, ParametersReference};
use vale_gateway::gateway_parameters::filter_gateway_parameters;
use vale_gateway::health::{status_write, Health, KubernetesApiHealthIndicator, StatusWrite};
use vale_gateway::kinds::gateway_kind;
use vale_gateway::object_ref::{KubeObject, ObjectMeta, ObjectRef, ResourceKind};
use vale_gateway::objects::Objects;
use vale_gateway::options::Options;
use vale_gateway::watch_state::State;

fn meta(name: &str, uid: &str) -> ObjectMeta {
    ObjectMeta {
        namespace: Some("infra".to_string()),
        name: Some(name.to_string()),
        uid: Some(uid.to_string()),
        resource_version: None,
        generation: None,
        creation_timestamp: None,
    }
}

#[test]
fn default_options() {
    let o = Options::default();
    assert_eq!(o.lease_duration(), Duration::from_secs(20));
    assert_eq!(o.lease_check_interval(), Duration::from_secs(5));
    assert_eq!(o.auto_cycle_duration(), Duration::from_secs(15));
    assert_eq!(o.controller_requeue_duration(), Duration::from_secs(60));
    assert_eq!(o.controller_error_requeue_duration(), Duration::from_secs(5));
    assert_eq!(o.ipc_sse_keep_alive_interval(), Duration::from_secs(15));
}

#[test]
fn class_state_keeps_only_parameters_of_the_group() {
    let p = |kind: &str, group: &str| Some(ParametersReference {
        group: group.to_string(),
        kind: kind.to_string(),
        name: "params".to_string(),
        namespace: Some("ignored".to_string()),
    });
    let state = gateway_class_state(&"vale".to_string(), &p("GatewayClassParameters", "kubera.whitefamily.in"));
    assert_eq!(state.name(), "vale");
    let r = state.parameter_ref().as_ref().unwrap();
    assert_eq!(r.name, "params");
    assert!(r.namespace.is_none());
    assert_eq!(parameters_watch(&Some(state)), ParametersWatch::Watch("metadata.name=params".to_string()));
    let other = gateway_class_state(&"vale".to_string(), &p("Other", "kubera.whitefamily.in"));
    assert!(other.parameter_ref().is_none());
    assert_eq!(parameters_watch(&Some(other)), ParametersWatch::Idle);
    assert_eq!(parameters_watch(&None), ParametersWatch::Idle);
    let named = gateway_class_state(&"vale".to_string(), &None);
    assert_eq!(gateways_watch(&Some(named)), Some("spec.gatewayClassName=vale".to_string()));
    assert_eq!(gateways_watch(&None), None);
}

#[test]
fn health_and_status_writes() {
    let indicator = KubernetesApiHealthIndicator;
    assert_eq!(indicator.name(), "KubernetesAPI");
    assert_eq!(indicator.details(Some(Ok(()))), Health::Up);
    assert_eq!(indicator.details(None), Health::Down("Kube client not available".to_string()));
    assert_eq!(indicator.details(Some(Err("forbidden".to_string()))), Health::Down("forbidden".to_string()));
    assert_eq!(status_write(true, true), StatusWrite::Replace);
    assert_eq!(status_write(true, false), StatusWrite::NotPrimary);
    assert_eq!(status_write(false, true), StatusWrite::Unavailable);
}

#[test]
fn gateways_get_the_parameters_they_name() {
    let mut gateways: Objects<GatewaySpec> = Objects::new();
    let with_params = |name: &str, uid: &str, params: Option<&str>| Arc::new(KubeObject {
        resource: gateway_kind(),
        metadata: meta(name, uid),
        data: GatewaySpec {
            gateway_class_name: "vale".to_string(),
            listeners: vec![],
            infrastructure: Some(GatewayInfrastructure {
                parameters_ref: params.map(|p| LocalParametersReference {
                    group: "vale-gateway.whitefamily.in".to_string(),
                    kind: "GatewayParameters".to_string(),
                    name: p.to_string(),
                }),
            }),
        },
    });
    gateways.insert(with_params("edge", "g1", Some("edge-params"))).unwrap();
    gateways.insert(with_params("plain", "g2", None)).unwrap();
    gateways.insert(with_params("lost", "g3", Some("missing"))).unwrap();
    let mut parameters: Objects<u8> = Objects::new();
    parameters
        .insert(Arc::new(KubeObject {
            resource: ResourceKind {
                kind: "GatewayParameters".to_string(),
                version: "v1alpha1".to_string(),
                group: "vale-gateway.whitefamily.in".to_string(),
            },
            metadata: meta("edge-params", "p1"),
            data: 42,
        }))
        .unwrap();
    let found = filter_gateway_parameters(&gateways, &parameters);
    assert_eq!(found.len(), 1);
    let edge = ObjectRef::for_kind(&gateway_kind(), Some("infra".to_string()), "edge".to_string());
    assert_eq!(found.get(&edge).map(|p| p.data), Some(42));
}

#[test]
fn test_watchable_changed() {
    let mut state: State<i32> = State::new();
    let mut signal_called_count = 0;

    assert_eq!(*state.current(), None);

    let seen = state.version();
    state.set(42);
    if state.changed_since(seen) {
        assert_eq!(*state.current(), Some(42));
        signal_called_count += 1;
    }
    assert_eq!(*state.current(), Some(42));

    let seen = state.version();
    state.unset();
    if state.changed_since(seen) {
        assert_eq!(*state.current(), None);
        signal_called_count += 1;
    }
    assert_eq!(*state.current(), None);

    assert_eq!(signal_called_count, 2);
}
