use vale_gateway::ipc::{
    gateway_event, get_gateway_configuration, get_gateway_events, get_static_response,
    is_named_gateway_event, static_response_answer, static_response_not_found, Event,
    GatewayConfigurationManager,
    GatewayEvent, IpcInsertGatewayConfigurationError, IpcRef, IpcServices, RecvError,
    TryFromObjectRefError,
};
use vale_gateway::kinds::{config_map_kind, gateway_kind};
use vale_gateway::sync_plan::{record_configmap_action, ConfigMapTemplateValues, SyncObjectAction};
use vale_gateway::object_ref::ObjectRef;

fn gw(ns: Option<&str>, name: &str) -> ObjectRef {
    ObjectRef::for_kind(&gateway_kind(), ns.map(|s| s.to_string()), name.to_string())
}

fn s(x: &str) -> String {
    x.to_string()
}

#[test]
fn a_held_configuration_is_served_back() {
    let mut services = IpcServices { gateway_configuration_manager: GatewayConfigurationManager::new(), port: 8080 };
    assert_eq!(services.port(), 8080);
    let event = services.try_insert_gateway_configuration(gw(Some("infra"), "edge"), s("listeners: []")).ok().unwrap();
    match event {
        GatewayEvent::ConfigurationUpdate(r) => {
            assert_eq!(r.namespace, "infra");
            assert_eq!(r.name, "edge");
        }
        _ => panic!("expected an update"),
    }
    let served = get_gateway_configuration(&services.gateway_configuration_manager, &s("infra"), &s("edge"));
    assert_eq!(served.ok(), Some(s("listeners: []")));
    assert!(get_gateway_events(&services.gateway_configuration_manager, &s("infra"), &s("edge")).is_ok());
}

#[test]
fn unknown_gateways_are_not_found() {
    let manager = GatewayConfigurationManager::new();
    let p = get_gateway_configuration(&manager, &s("infra"), &s("edge")).err().unwrap();
    assert_eq!(p.status, 404);
    assert_eq!(p.title, "Gateway Configuration Not Found");
    assert_eq!(p.detail, "Configuration for object Gateway.v1gateway.networking.k8s.io/edge.infra not found");
    let p = get_gateway_events(&manager, &s("infra"), &s("edge")).err().unwrap();
    assert_eq!(p.title, "Gateway Not Found");
    assert_eq!(p.detail, "Object Gateway.v1gateway.networking.k8s.io/edge.infra not found");
    let p = get_static_response(&manager, &s("infra"), &s("edge"), &s("uid")).err().unwrap();
    assert_eq!(p.detail, "Gateway Gateway.v1gateway.networking.k8s.io/edge.infra not found");
}

#[test]
fn empty_path_parts_are_bad_requests() {
    let manager = GatewayConfigurationManager::new();
    let p = get_gateway_configuration(&manager, &s(""), &s("edge")).err().unwrap();
    assert_eq!((p.status, p.status_value), (400, 502));
    assert_eq!(p.title, "Invalid Namespace");
    let p = get_gateway_events(&manager, &s("infra"), &s("")).err().unwrap();
    assert_eq!((p.status, p.status_value), (400, 400));
    assert_eq!(p.detail, "Gateway name cannot be empty");
    let p = get_static_response(&manager, &s("infra"), &s("edge"), &s("")).err().unwrap();
    assert_eq!(p.title, "Invalid Static Response Filter ID");
}

#[test]
fn static_responses_are_looked_up_by_identifier() {
    let mut manager = GatewayConfigurationManager::new();
    manager.insert(gw(Some("infra"), "edge"), s("x"));
    let id = get_static_response(&manager, &s("infra"), &s("edge"), &s("srf-uid")).ok().unwrap();
    assert_eq!(id.id(), "srf-uid");
    let p = static_response_not_found(&s("srf-uid"));
    assert_eq!(p.detail, "Static response filter srf-uid not found");
    assert_eq!(p.status, 404);
}

#[test]
fn removal_announces_deletion_once() {
    let mut services = IpcServices { gateway_configuration_manager: GatewayConfigurationManager::new(), port: 1 };
    services.try_insert_gateway_configuration(gw(Some("infra"), "edge"), s("y")).ok().unwrap();
    match services.remove_gateway_configuration(&gw(Some("infra"), "edge")) {
        Some(GatewayEvent::Deleted(r)) => assert_eq!(r.name, "edge"),
        _ => panic!("expected a deletion"),
    }
    assert!(services.remove_gateway_configuration(&gw(Some("infra"), "edge")).is_none());
    assert!(!services.gateway_configuration_manager.contains(&gw(Some("infra"), "edge")));
}

#[test]
fn references_without_namespace_are_held_but_not_announced() {
    let mut services = IpcServices { gateway_configuration_manager: GatewayConfigurationManager::new(), port: 1 };
    let r = services.try_insert_gateway_configuration(gw(None, "edge"), s("z"));
    assert_eq!(
        r.err(),
        Some(IpcInsertGatewayConfigurationError::InvalidGatewayRef(TryFromObjectRefError::MissingNamespace))
    );
    assert!(services.gateway_configuration_manager.contains(&gw(None, "edge")));
    assert!(services.remove_gateway_configuration(&gw(None, "edge")).is_none());
    assert!(IpcRef::try_from_object_ref(&gw(None, "edge")).is_err());
}

#[test]
fn subscribers_see_only_their_gateway_updates() {
    let edge = gw(Some("infra"), "edge");
    let update = |ns: &str, name: &str| Ok(GatewayEvent::ConfigurationUpdate(IpcRef { namespace: s(ns), name: s(name) }));
    assert!(is_named_gateway_event(&update("infra", "edge"), &edge));
    assert!(!is_named_gateway_event(&update("other", "edge"), &edge));
    assert!(!is_named_gateway_event(&Ok(GatewayEvent::Deleted(IpcRef { namespace: s("infra"), name: s("edge") })), &edge));
    assert!(!is_named_gateway_event(&Err(RecvError), &edge));
    let passed = gateway_event(Ok(Event::Gateway(GatewayEvent::Deleted(IpcRef { namespace: s("a"), name: s("b") }))));
    assert!(matches!(passed, Some(Ok(GatewayEvent::Deleted(_)))));
    assert!(matches!(gateway_event(Err(RecvError)), Some(Err(RecvError))));
}

#[test]
fn static_responses_found_are_answered_and_others_refused() {
    let found = static_response_answer(&s("uid-1"), Some((s("text/plain"), b"down".to_vec())));
    assert_eq!(found, Ok((s("text/plain"), b"down".to_vec())));
    let missing = static_response_answer::<(String, Vec<u8>)>(&s("uid-2"), None);
    let p = missing.err().unwrap();
    assert_eq!(p.status, 404);
    assert_eq!(p.status_value, 404);
    assert_eq!(p.title, "Static Response Filter Not Found");
    assert_eq!(p.detail, "Static response filter uid-2 not found");
}

fn upsert(ns: &str, name: &str, yaml: &str) -> SyncObjectAction<ConfigMapTemplateValues, ()> {
    SyncObjectAction::Upsert(
        ObjectRef::for_kind(&config_map_kind(), Some(s(ns)), format!("{name}-config")),
        gw(Some(ns), name),
        ConfigMapTemplateValues { gateway_name: s(name), config_yaml: s(yaml) },
        None,
    )
}

#[test]
fn configurations_are_held_only_once_their_action_is_sent() {
    let mut services = IpcServices { gateway_configuration_manager: GatewayConfigurationManager::new(), port: 1 };
    assert!(record_configmap_action(&mut services, &upsert("infra", "edge", "a: 1"), false).is_none());
    assert!(!services.gateway_configuration_manager.contains(&gw(Some("infra"), "edge")));
    match record_configmap_action(&mut services, &upsert("infra", "edge", "a: 1"), true) {
        Some(GatewayEvent::ConfigurationUpdate(r)) => assert_eq!(r.name, "edge"),
        _ => panic!("expected an update"),
    }
    assert_eq!(
        services.gateway_configuration_manager.get_configuration_yaml(&gw(Some("infra"), "edge")).map(|y| y.as_str()),
        Some("a: 1")
    );
    let delete: SyncObjectAction<ConfigMapTemplateValues, ()> = SyncObjectAction::Delete(gw(Some("infra"), "edge"));
    assert!(record_configmap_action(&mut services, &delete, false).is_none());
    assert!(services.gateway_configuration_manager.contains(&gw(Some("infra"), "edge")));
    match record_configmap_action(&mut services, &delete, true) {
        Some(GatewayEvent::Deleted(r)) => assert_eq!(r.namespace, "infra"),
        _ => panic!("expected a deletion"),
    }
    assert!(!services.gateway_configuration_manager.contains(&gw(Some("infra"), "edge")));
}
