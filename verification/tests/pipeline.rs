use std::sync::Arc;
use vale_gateway::api::{
    AccessControlFilterClients, AccessControlFilterEffect, AccessControlFilterSpec, ClientAddresses,
    ClientAddressesSource, ErrorResponseKind, ErrorResponses, GatewayConfiguration, ImagePullPolicy,
    ProblemDetailErrorResponse, StaticResponseFilterBody, StaticResponseFilterBodyFormat,
    StaticResponseFilterSpec,
};
use vale_gateway::backends::{
    collect_service_backends, AddressText, EndpointSliceSpec, IpAddress, SliceEndpoint,
};
use vale_gateway::extension_filters::collect_extension_filters;
use vale_gateway::gateway_classes::{GatewaySpec, Listener};
use vale_gateway::gateway_config::{
    generate_gateway_configuration, generate_gateway_configurations, ClientAddrsStrategy,
    ExtensionFilters, GatewayInstanceConfiguration, IpcEndpoint,
};
use vale_gateway::kinds::{
    access_control_filter_kind, gateway_kind, http_route_kind, service_kind,
    static_response_filter_kind,
};
use vale_gateway::object_ref::{KubeObject, ObjectMeta, ObjectRef};
use vale_gateway::objects::Objects;
use vale_gateway::ref_map::RefMap;
use vale_gateway::route_config::{HostnameMatch, PathMatch, RouteFilter};
use vale_gateway::routes::{
    collect_http_route_backends, collect_http_routes_by_gateway, filter_http_routes, service_ports_fit_in,
    BackendRefSpec, ExtensionRefSpec, HeaderModifierSpec, HttpHeader, HttpRouteSpec, ParentRefSpec, PathMatchSpec,
    PathMatchType, RouteFilterSpec, RouteMatchSpec, RouteRuleSpec,
};

fn meta(namespace: &str, name: &str, uid: &str) -> ObjectMeta {
    ObjectMeta {
        namespace: Some(namespace.to_string()),
        name: Some(name.to_string()),
        uid: Some(uid.to_string()),
        resource_version: Some("41".to_string()),
        generation: Some(1),
        creation_timestamp: None,
    }
}

fn gateway() -> KubeObject<GatewaySpec> {
    KubeObject {
        resource: gateway_kind(),
        metadata: meta("infra", "edge", "gw-uid"),
        data: GatewaySpec {
            gateway_class_name: "vale".to_string(),
            listeners: vec![
                Listener {
                    name: "http".to_string(),
                    port: 8080,
                    protocol: "HTTP".to_string(),
                    hostname: Some("*.example.com".to_string()),
                },
                Listener {
                    name: "bad".to_string(),
                    port: 70000,
                    protocol: "HTTP".to_string(),
                    hostname: None,
                },
            ],
            infrastructure: None,
        },
    }
}

fn route() -> KubeObject<HttpRouteSpec> {
    KubeObject {
        resource: http_route_kind(),
        metadata: meta("infra", "api", "route-uid"),
        data: HttpRouteSpec {
            hostnames: Some(vec!["api.example.com".to_string()]),
            parent_refs: Some(vec![ParentRefSpec { name: "edge".to_string(), namespace: None }]),
            rules: Some(vec![RouteRuleSpec {
                backend_refs: Some(vec![
                    BackendRefSpec {
                        kind: Some("Service".to_string()),
                        name: "api".to_string(),
                        namespace: None,
                        port: Some(8080),
                        weight: Some(5),
                    },
                    BackendRefSpec {
                        kind: Some("Service".to_string()),
                        name: "missing".to_string(),
                        namespace: None,
                        port: Some(80),
                        weight: None,
                    },
                ]),
                filters: Some(vec![RouteFilterSpec {
                    request_header_modifier: Some(HeaderModifierSpec {
                        add: Some(vec![HttpHeader { name: "X-A".to_string(), value: "1".to_string() }]),
                        remove: None,
                        set: None,
                    }),
                    response_header_modifier: None,
                    request_redirect: None,
                    url_rewrite: None,
                    extension_ref: None,
                }]),
                matches: Some(vec![RouteMatchSpec {
                    headers: None,
                    method: None,
                    path: Some(PathMatchSpec {
                        type_: Some(PathMatchType::PathPrefix),
                        value: Some("/v1".to_string()),
                    }),
                    query_params: None,
                }]),
            }]),
        },
    }
}

fn slice() -> KubeObject<EndpointSliceSpec> {
    KubeObject {
        resource: vale_gateway::object_ref::ResourceKind {
            kind: "EndpointSlice".to_string(),
            version: "v1".to_string(),
            group: "discovery.k8s.io".to_string(),
        },
        metadata: meta("infra", "api-abc", "slice-uid"),
        data: EndpointSliceSpec {
            address_type: "IPv4".to_string(),
            endpoints: vec![
                SliceEndpoint {
                    addresses: vec![AddressText {
                        text: "10.0.0.1".to_string(),
                        as_v4: Some(0x0a00_0001),
                        as_v6: None,
                    }],
                    ready: Some(true),
                    zone: Some("z1".to_string()),
                    node_name: Some("n1".to_string()),
                },
                SliceEndpoint {
                    addresses: vec![AddressText {
                        text: "10.0.0.2".to_string(),
                        as_v4: Some(0x0a00_0002),
                        as_v6: None,
                    }],
                    ready: Some(false),
                    zone: None,
                    node_name: None,
                },
            ],
            labels: Some(vec![("kubernetes.io/service-name".to_string(), "api".to_string())]),
        },
    }
}

fn instance(configuration: GatewayConfiguration) -> GatewayInstanceConfiguration<(), ()> {
    GatewayInstanceConfiguration {
        gateway: Arc::new(gateway()),
        configuration,
        image_pull_policy: ImagePullPolicy::IfNotPresent,
        deployment_overrides: Arc::new(()),
        service_overrides: Arc::new(()),
    }
}

fn gateway_ref() -> ObjectRef {
    ObjectRef::for_kind(&gateway_kind(), Some("infra".to_string()), "edge".to_string())
}

#[test]
fn routes_flow_into_the_gateway_configuration() {
    let mut gateways: Objects<GatewaySpec> = Objects::new();
    gateways.insert(Arc::new(gateway())).unwrap();
    let mut routes: Objects<HttpRouteSpec> = Objects::new();
    routes.insert(Arc::new(route())).unwrap();
    let mut slices: Objects<EndpointSliceSpec> = Objects::new();
    slices.insert(Arc::new(slice())).unwrap();

    let attached = filter_http_routes(&gateways, &routes);
    assert_eq!(attached.size(), 1);
    let by_gateway = collect_http_routes_by_gateway(&attached);
    assert_eq!(by_gateway.get(&gateway_ref()).map(|v| v.len()), Some(1));
    let route_backends = collect_http_route_backends(&attached);
    assert_eq!(route_backends.len(), 2);
    let backends = collect_service_backends(&route_backends, &slices);
    assert_eq!(backends.len(), 1);

    let extension_filters: RefMap<ExtensionFilters> = RefMap::new();
    let config = generate_gateway_configuration(
        &gateway_ref(),
        &instance(GatewayConfiguration::default()),
        5000,
        IpAddress::V4(0x0a00_0063),
        &by_gateway,
        &backends,
        &extension_filters,
    );
    assert_eq!(config.ipc, IpcEndpoint { address: IpAddress::V4(0x0a00_0063), port: 5000 });
    assert!(config.client_addrs.is_none());
    assert_eq!(config.error_responses.kind, ErrorResponseKind::Empty);
    assert!(config.static_responses.is_empty());
    assert_eq!(config.listeners.len(), 1);
    assert_eq!(config.listeners[0].port, 8080);
    assert_eq!(config.listeners[0].hostname, Some(HostnameMatch::Suffix(".example.com".to_string())));
    assert_eq!(config.http_routes.len(), 1);
    let r = &config.http_routes[0];
    assert_eq!(r.host_headers, vec![HostnameMatch::Exact("api.example.com".to_string())]);
    assert_eq!(r.rules.len(), 1);
    let rule = &r.rules[0];
    assert_eq!(rule.id, "gw-uid:route-uid:0");
    assert_eq!(rule.matches.len(), 1);
    assert_eq!(rule.matches[0].path, Some(PathMatch::Prefix("/v1".to_string())));
    assert!(matches!(rule.filters[0], RouteFilter::RequestHeaderModifier(_)));
    assert_eq!(rule.backends.len(), 1);
    assert_eq!(rule.backends[0].weight(), Some(5));
    assert_eq!(rule.backends[0].port(), Some(8080));
    assert_eq!(rule.backends[0].endpoints().len(), 1);
    assert_eq!(rule.backends[0].endpoints()[0].addresses(), &vec![IpAddress::V4(0x0a00_0001)]);
    assert_eq!(rule.backends[0].endpoints()[0].location().zone().as_deref(), Some("z1"));
}

#[test]
fn parameters_shape_the_strategies() {
    let configuration = GatewayConfiguration {
        log_level: None,
        error_responses: Some(ErrorResponses {
            kind: ErrorResponseKind::ProblemDetail,
            problem_detail: Some(ProblemDetailErrorResponse { authority: Some("example.com".to_string()) }),
        }),
        client_addresses: Some(ClientAddresses {
            source: ClientAddressesSource::Header,
            header: Some("X-Real-IP".to_string()),
            proxies: None,
        }),
    };
    let mut filters = ExtensionFilters { static_responses: vec![], access_controls: vec![] };
    let srf_ref = ObjectRef::for_kind(&static_response_filter_kind(), Some("infra".to_string()), "maint".to_string());
    filters.static_responses.push((
        srf_ref,
        Arc::new(KubeObject {
            resource: static_response_filter_kind(),
            metadata: meta("infra", "maint", "srf-uid"),
            data: StaticResponseFilterSpec {
                status_code: 503,
                body: Some(StaticResponseFilterBody {
                    format: StaticResponseFilterBodyFormat::Text,
                    content_type: "text/plain".to_string(),
                    text: Some("down".to_string()),
                    binary: None,
                }),
            },
        }),
    ));
    let mut without_uid = meta("infra", "other", "x");
    without_uid.uid = None;
    filters.static_responses.push((
        ObjectRef::for_kind(&static_response_filter_kind(), Some("infra".to_string()), "other".to_string()),
        Arc::new(KubeObject {
            resource: static_response_filter_kind(),
            metadata: without_uid,
            data: StaticResponseFilterSpec { status_code: 200, body: None },
        }),
    ));
    filters.access_controls.push((
        ObjectRef::for_kind(&access_control_filter_kind(), Some("infra".to_string()), "allow".to_string()),
        Arc::new(KubeObject {
            resource: access_control_filter_kind(),
            metadata: meta("infra", "allow", "acf-uid"),
            data: AccessControlFilterSpec {
                effect: AccessControlFilterEffect::Allow,
                clients: AccessControlFilterClients { ip_ranges: vec![], ips: vec![IpAddress::V4(1)] },
            },
        }),
    ));
    let mut extension_filters: RefMap<ExtensionFilters> = RefMap::new();
    extension_filters.insert(gateway_ref(), filters);
    let mut instances: RefMap<GatewayInstanceConfiguration<(), ()>> = RefMap::new();
    instances.insert(gateway_ref(), instance(configuration));

    let configs = generate_gateway_configurations(
        &instances,
        5000,
        IpAddress::V4(7),
        &RefMap::new(),
        &RefMap::new(),
        &extension_filters,
    );
    assert_eq!(configs.len(), 1);
    let (g, c) = &configs[0];
    assert!(g.same_as(&gateway_ref()));
    assert_eq!(c.client_addrs, Some(ClientAddrsStrategy::Header("X-Real-IP".to_string())));
    assert_eq!(c.error_responses.kind, ErrorResponseKind::ProblemDetail);
    assert_eq!(
        c.error_responses.problem_detail.as_ref().unwrap().authority.as_deref(),
        Some("example.com")
    );
    assert_eq!(c.static_responses.len(), 1);
    assert_eq!(
        c.static_responses[0].key,
        "StaticResponseFilter.v1alpha1vale-gateway.whitefamily.in/maint.infra"
    );
    assert_eq!(c.static_responses[0].version_key, "41");
    assert_eq!(c.static_responses[0].status_code, 503);
    let body = c.static_responses[0].body.as_ref().unwrap();
    assert_eq!(body.content_type, "text/plain");
    assert_eq!(body.identifier, "srf-uid");
    assert_eq!(c.access_control_filters.len(), 1);
    assert_eq!(c.access_control_filters[0].effect, AccessControlFilterEffect::Allow);
    assert_eq!(c.access_control_filters[0].ips, vec![IpAddress::V4(1)]);
    assert!(c.http_routes.is_empty());
}

#[test]
fn proxies_without_settings_trust_nothing() {
    let configuration = GatewayConfiguration {
        log_level: None,
        error_responses: Some(ErrorResponses { kind: ErrorResponseKind::Html, problem_detail: None }),
        client_addresses: Some(ClientAddresses {
            source: ClientAddressesSource::Proxies,
            header: None,
            proxies: None,
        }),
    };
    let c = generate_gateway_configuration(
        &gateway_ref(),
        &instance(configuration),
        1,
        IpAddress::V6(1),
        &RefMap::new(),
        &RefMap::new(),
        &RefMap::new(),
    );
    match c.client_addrs {
        Some(ClientAddrsStrategy::Proxies(p)) => {
            assert!(!p.trust_local_ranges);
            assert!(p.trusted_ips.is_empty());
            assert!(p.trusted_headers.is_empty());
        }
        other => panic!("unexpected strategy {:?}", other),
    }
    assert_eq!(c.error_responses.kind, ErrorResponseKind::Html);
    assert!(c.error_responses.problem_detail.is_none());
}

fn extension_filter(group: &str, kind: &str, name: &str) -> RouteFilterSpec {
    RouteFilterSpec {
        request_header_modifier: None,
        response_header_modifier: None,
        request_redirect: None,
        url_rewrite: None,
        extension_ref: Some(ExtensionRefSpec { group: group.to_string(), kind: kind.to_string(), name: name.to_string() }),
    }
}

fn route_with_filters(name: &str, uid: &str, filters: Vec<RouteFilterSpec>) -> KubeObject<HttpRouteSpec> {
    KubeObject {
        resource: http_route_kind(),
        metadata: meta("infra", name, uid),
        data: HttpRouteSpec {
            hostnames: None,
            parent_refs: Some(vec![ParentRefSpec { name: "edge".to_string(), namespace: None }]),
            rules: Some(vec![
                RouteRuleSpec { backend_refs: None, filters: Some(filters), matches: None },
                RouteRuleSpec { backend_refs: None, filters: None, matches: None },
            ]),
        },
    }
}

#[test]
fn routes_name_their_extension_filters_once() {
    let group = "vale-gateway.whitefamily.in";
    let mut statics: Objects<StaticResponseFilterSpec> = Objects::new();
    statics
        .insert(Arc::new(KubeObject {
            resource: static_response_filter_kind(),
            metadata: meta("infra", "maint", "srf-uid"),
            data: StaticResponseFilterSpec { status_code: 503, body: None },
        }))
        .unwrap();
    let mut access: Objects<AccessControlFilterSpec> = Objects::new();
    access
        .insert(Arc::new(KubeObject {
            resource: access_control_filter_kind(),
            metadata: meta("infra", "allow", "acf-uid"),
            data: AccessControlFilterSpec {
                effect: AccessControlFilterEffect::Deny,
                clients: AccessControlFilterClients { ip_ranges: vec![], ips: vec![] },
            },
        }))
        .unwrap();
    let first = route_with_filters(
        "a",
        "route-a",
        vec![
            extension_filter(group, "StaticResponseFilter", "maint"),
            extension_filter(group, "StaticResponseFilter", "missing"),
            extension_filter("other.example.com", "AccessControlFilter", "allow"),
        ],
    );
    let second = route_with_filters(
        "b",
        "route-b",
        vec![
            extension_filter(group, "AccessControlFilter", "allow"),
            extension_filter(group, "StaticResponseFilter", "maint"),
        ],
    );
    let mut by_gateway = RefMap::new();
    by_gateway.insert(gateway_ref(), vec![Arc::new(first), Arc::new(second)]);
    let lonely = ObjectRef::for_kind(&gateway_kind(), Some("infra".to_string()), "lonely".to_string());
    by_gateway.insert(lonely.clone(), vec![]);

    let filters = collect_extension_filters(&by_gateway, &statics, &access);
    assert_eq!(filters.len(), 2);
    let edge = filters.get(&gateway_ref()).unwrap();
    assert_eq!(edge.static_responses.len(), 1);
    assert!(edge.static_responses[0].0.same_as(&ObjectRef::for_kind(
        &static_response_filter_kind(),
        Some("infra".to_string()),
        "maint".to_string()
    )));
    assert_eq!(edge.static_responses[0].1.data.status_code, 503);
    assert_eq!(edge.access_controls.len(), 1);
    assert_eq!(edge.access_controls[0].1.data.effect, AccessControlFilterEffect::Deny);
    let none = filters.get(&lonely).unwrap();
    assert!(none.static_responses.is_empty());
    assert!(none.access_controls.is_empty());
}

#[test]
fn service_ports_are_checked_before_collecting() {
    let mut routes: Objects<HttpRouteSpec> = Objects::default();
    assert!(routes.is_empty());
    routes.insert(Arc::new(route())).unwrap();
    assert!(service_ports_fit_in(&routes));
    let mut bad = route();
    bad.metadata.uid = Some("route-bad".to_string());
    bad.metadata.name = Some("bad".to_string());
    if let Some(rules) = bad.data.rules.as_mut() {
        if let Some(refs) = rules[0].backend_refs.as_mut() {
            refs[0].port = Some(70000);
        }
    }
    routes.insert(Arc::new(bad)).unwrap();
    assert!(!service_ports_fit_in(&routes));
}
