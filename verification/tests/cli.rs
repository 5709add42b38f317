use vale_gateway::age::{format_age, format_age_from_option, format_seconds_age, is_representable};
use vale_gateway::api::{Condition, StaticResponseFilterStatus, Timestamp};
use vale_gateway::gateway_classes::{GatewayClassSpec, GatewayClassStatus, GatewaySpec, Listener};
use vale_gateway::gateway_status::{GatewayStatus, GatewayStatusAddress};
use vale_gateway::kinds::gateway_kind;
use vale_gateway::listing::{
    filter_by_name, gateway_label_selector, list_scope, output_deployments, output_gateways,
    output_pods, output_services, ContainerStatus, DeploymentInfo, DeploymentObject,
    DeploymentSpec, DeploymentStatus, GatewayInfo, IntOrString, ListScope, Listing, OutputFormat,
    PodInfo, PodListing, PodObject, PodSpec, PodStatus, ServiceInfo, ServiceListing, ServiceObject,
    ServicePort, ServiceSpec, TableStyle, Container, restarts_fit_in,
};
use vale_gateway::object_ref::{KubeObject, ObjectMeta, ResourceKind};
use vale_gateway::status_table::{
    cluster_status_query, gateway_status_row, gatewayclass_status_row, httproute_status_row,
    namespaced_status_query, parse_status_resource_type, staticresponsefilter_status_row,
    status_emoji_columns, status_sections, RouteParentStatus, RouteStatus, StatusQuery,
    StatusResourceType,
};

fn at(seconds: i64) -> Timestamp {
    Timestamp { seconds, nanos: 0 }
}

fn meta(name: &str, created: Option<Timestamp>) -> ObjectMeta {
    ObjectMeta {
        namespace: Some("infra".to_string()),
        name: Some(name.to_string()),
        uid: None,
        resource_version: None,
        generation: None,
        creation_timestamp: created,
    }
}

fn kind(k: &str) -> ResourceKind {
    ResourceKind { kind: k.to_string(), version: "v1".to_string(), group: String::new() }
}

fn condition(t: &str, status: &str, reason: &str) -> Condition {
    Condition {
        type_: t.to_string(),
        status: status.to_string(),
        reason: reason.to_string(),
        message: String::new(),
        last_transition_time: at(0),
        observed_generation: None,
    }
}

#[test]
fn ages_by_largest_unit() {
    assert_eq!(format_seconds_age(2 * 86400 + 5, true), "2d");
    assert_eq!(format_seconds_age(7200, true), "2h");
    assert_eq!(format_seconds_age(61, true), "1m");
    assert_eq!(format_seconds_age(59, true), "59s");
    assert_eq!(format_seconds_age(-5, true), "0s");
    assert_eq!(format_seconds_age(-5, false), "-5s");
    assert_eq!(format_age(Some(at(1000)), at(1000 + 3 * 3600)), "3h");
    assert_eq!(format_age(None, at(1000)), "Unknown");
    assert_eq!(format_age_from_option(None, at(1000)), "<unknown>");
    let half = Timestamp { seconds: 10, nanos: 500_000_000 };
    assert_eq!(format_age_from_option(Some(half), at(9)), "-1s");
}

#[test]
fn resource_types_parse_in_any_case() {
    assert_eq!(parse_status_resource_type("GW"), Ok(StatusResourceType::Gateway));
    assert_eq!(parse_status_resource_type("Route"), Ok(StatusResourceType::HTTPRoute));
    assert_eq!(parse_status_resource_type("gwc"), Ok(StatusResourceType::GatewayClass));
    assert_eq!(parse_status_resource_type("SRF"), Ok(StatusResourceType::StaticResponseFilter));
    assert_eq!(parse_status_resource_type("all"), Ok(StatusResourceType::All));
    assert_eq!(parse_status_resource_type("pods"), Err("Invalid resource type: pods".to_string()));
    assert_eq!("gateway".parse::<StatusResourceType>(), Ok(StatusResourceType::Gateway));
    assert_eq!(status_sections(StatusResourceType::All).len(), 4);
    assert_eq!(status_sections(StatusResourceType::GatewayClass), vec![StatusResourceType::GatewayClass]);
    assert_eq!(status_emoji_columns(StatusResourceType::StaticResponseFilter, true), vec![2, 3, 4, 6]);
    assert!(status_emoji_columns(StatusResourceType::Gateway, false).is_empty());
}

#[test]
fn status_queries() {
    let ns = Some("infra".to_string());
    let name = Some("edge".to_string());
    assert_eq!(
        namespaced_status_query(&ns, &name, "Gateway"),
        Ok(StatusQuery::Get(Some("infra".to_string()), "edge".to_string()))
    );
    assert_eq!(namespaced_status_query(&ns, &None, "Gateway"), Ok(StatusQuery::List(Some("infra".to_string()))));
    assert_eq!(
        namespaced_status_query(&None, &name, "Gateway"),
        Err("Specify namespace when getting a specific Gateway".to_string())
    );
    assert_eq!(cluster_status_query(&None), StatusQuery::List(None));
}

#[test]
fn gateway_status_rows() {
    let now = at(100_000);
    let status = GatewayStatus {
        addresses: Some(vec![
            GatewayStatusAddress { type_: "IPAddress".to_string(), value: "10.0.0.1".to_string() },
            GatewayStatusAddress { type_: "IPAddress".to_string(), value: "10.0.0.2".to_string() },
        ]),
        conditions: Some(vec![condition("Accepted", "True", "Accepted"), condition("Programmed", "False", "Pending")]),
        listeners: Some(vec![]),
    };
    let row = gateway_status_row(&meta("edge", Some(at(100_000 - 90))), &Some(status), now);
    assert_eq!(row.accepted, "True");
    assert_eq!(row.programmed, "False");
    assert_eq!(row.addresses, "10.0.0.1,10.0.0.2");
    assert_eq!(row.listeners, "0");
    assert_eq!(row.age, "1m");
    let row = gateway_status_row(&meta("edge", None), &None, now);
    assert_eq!((row.accepted.as_str(), row.addresses.as_str(), row.age.as_str()), ("Unknown", "None", "Unknown"));
}

#[test]
fn route_status_rows() {
    let now = at(10);
    let status = RouteStatus {
        parents: vec![RouteParentStatus {
            conditions: Some(vec![condition("Accepted", "False", "NoMatchingParent")]),
        }],
    };
    let row = httproute_status_row(&meta("api", None), &Some(status), now);
    assert_eq!(row.parents, "1");
    assert_eq!(row.accepted, "False");
    assert_eq!(row.resolved_refs, "Unknown");
    assert_eq!(row.reason, "NoMatchingParent");
    let row = httproute_status_row(&meta("api", None), &Some(RouteStatus { parents: vec![] }), now);
    assert_eq!(row.reason, "No parents");
    let row = httproute_status_row(&meta("api", None), &None, now);
    assert_eq!((row.parents.as_str(), row.reason.as_str()), ("0", "No status"));
}

#[test]
fn class_and_filter_status_rows() {
    let now = at(10);
    let spec = GatewayClassSpec { controller_name: "kubera.whitefamily.in/controlplane".to_string(), parameters_ref: None };
    let annotations = Some(vec![("description".to_string(), "Edge class".to_string())]);
    let status = Some(GatewayClassStatus { conditions: Some(vec![condition("Accepted", "True", "Accepted")]) });
    let row = gatewayclass_status_row(&meta("vale", None), &spec, &annotations, &status, now);
    assert_eq!(row.accepted, "True");
    assert_eq!(row.description, "Edge class");
    assert_eq!(row.controller, "kubera.whitefamily.in/controlplane");
    let filter_status = Some(StaticResponseFilterStatus {
        conditions: Some(vec![condition("Accepted", "True", "Accepted"), condition("Attached", "False", "NotAttached")]),
        attached_routes: 0,
        last_updated: None,
    });
    let row = staticresponsefilter_status_row(&meta("maint", None), 503, &filter_status, now);
    assert_eq!(row.accepted, "True");
    assert_eq!(row.ready, "Unknown");
    assert_eq!(row.attached, "False");
    assert_eq!(row.attached_routes, "0");
    assert_eq!(row.status_code, "503");
}

#[test]
fn listings_of_gateways_and_pods() {
    let now = at(100_000);
    let gateway = KubeObject {
        resource: gateway_kind(),
        metadata: meta("edge", Some(at(100_000 - 7200))),
        data: GatewaySpec {
            gateway_class_name: "vale".to_string(),
            listeners: vec![Listener { name: "http".to_string(), port: 80, protocol: "HTTP".to_string(), hostname: None }],
            infrastructure: None,
        },
    };
    let info = GatewayInfo::from_gateway(&gateway, &None);
    assert_eq!(info.status, "Ready");
    assert!(info.addresses.is_empty());
    assert_eq!(info.listeners[0].port, 80);
    match output_gateways(&vec![info], OutputFormat::TableEmoji, now) {
        Listing::Table(rows, style, cols) => {
            assert_eq!(rows[0].address, "<none>");
            assert_eq!(rows[0].age, "2h");
            assert_eq!(style, TableStyle::DefaultEmoji);
            assert_eq!(cols, vec![3]);
        }
        _ => panic!("expected a table"),
    }
    assert!(matches!(output_gateways(&vec![], OutputFormat::Yaml, now), Listing::Yaml));

    let pod = KubeObject {
        resource: kind("Pod"),
        metadata: meta("edge-abc", None),
        data: PodObject {
            spec: Some(PodSpec { containers: vec![Container { name: "proxy".to_string() }, Container { name: "agent".to_string() }], node_name: Some("n1".to_string()) }),
            status: Some(PodStatus {
                phase: Some("Running".to_string()),
                container_statuses: Some(vec![
                    ContainerStatus { ready: true, restart_count: 2 },
                    ContainerStatus { ready: false, restart_count: 1 },
                ]),
                pod_ip: None,
            }),
        },
    };
    let info = PodInfo::from_pod(&pod);
    assert_eq!(info.ready, "1/2");
    assert_eq!(info.restarts, 3);
    assert_eq!(info.status, "Running");
    match output_pods(&vec![info], OutputFormat::Wide, now) {
        PodListing::Wide(Listing::Table(rows, style, cols)) => {
            assert_eq!(rows[0].node, "n1");
            assert_eq!(rows[0].age, "<unknown>");
            assert_eq!(style, TableStyle::Wide);
            assert!(cols.is_empty());
        }
        _ => panic!("expected a wide table"),
    }
}

#[test]
fn listings_of_services_and_deployments() {
    let now = at(1000);
    let service = KubeObject {
        resource: kind("Service"),
        metadata: meta("edge", None),
        data: ServiceObject {
            spec: Some(ServiceSpec {
                type_: Some("ClusterIP".to_string()),
                cluster_ip: None,
                external_ips: Some(vec!["1.2.3.4".to_string(), "5.6.7.8".to_string()]),
                ports: Some(vec![
                    ServicePort { protocol: Some("TCP".to_string()), port: 80, target_port: Some(IntOrString::Int(8080)) },
                    ServicePort { protocol: None, port: 443, target_port: Some(IntOrString::String("https".to_string())) },
                    ServicePort { protocol: Some("UDP".to_string()), port: 53, target_port: None },
                ]),
            }),
        },
    };
    let info = ServiceInfo::from_service(&service);
    assert_eq!(info.ports, vec!["tcp:80/8080".to_string(), ":443/https".to_string(), "udp:53/53".to_string()]);
    match output_services(&vec![info], OutputFormat::WideEmoji, now) {
        ServiceListing::Wide(Listing::Table(rows, _, _)) => {
            assert_eq!(rows[0].external_ip, "1.2.3.4,5.6.7.8");
            assert_eq!(rows[0].cluster_ip, "<none>");
            assert_eq!(rows[0].ports, "tcp:80/8080,:443/https,udp:53/53");
        }
        _ => panic!("expected a wide table"),
    }
    let deployment = KubeObject {
        resource: kind("Deployment"),
        metadata: meta("edge", None),
        data: DeploymentObject {
            spec: Some(DeploymentSpec { replicas: Some(3) }),
            status: Some(DeploymentStatus { ready_replicas: Some(2), updated_replicas: None, available_replicas: Some(2) }),
        },
    };
    let info = DeploymentInfo::from_deployment(&deployment);
    assert_eq!(info.ready, "2/3");
    assert_eq!(info.up_to_date, 0);
    match output_deployments(&vec![info], OutputFormat::WideEmoji, now) {
        Listing::Table(rows, style, cols) => {
            assert_eq!(rows[0].ready, "2/3");
            assert_eq!(style, TableStyle::Default);
            assert!(cols.is_empty());
        }
        _ => panic!("expected a table"),
    }
}

#[test]
fn scopes_selectors_and_name_filters() {
    assert_eq!(list_scope(&Some("infra".to_string()), false), ListScope::Namespaced("infra".to_string()));
    assert_eq!(list_scope(&Some("infra".to_string()), true), ListScope::All);
    assert_eq!(list_scope(&None, false), ListScope::All);
    assert_eq!(gateway_label_selector(&Some("edge".to_string())), "gateway.networking.k8s.io/gateway=edge");
    assert_eq!(gateway_label_selector(&None), "app.kubernetes.io/part-of=vale-gateway");
    let items = vec![
        KubeObject { resource: kind("X"), metadata: meta("a", None), data: 1u8 },
        KubeObject { resource: kind("X"), metadata: meta("b", None), data: 2u8 },
        KubeObject { resource: kind("X"), metadata: meta("a", None), data: 3u8 },
    ];
    let kept = filter_by_name(items, &Some("a".to_string()));
    assert_eq!(kept.iter().map(|o| o.data).collect::<Vec<_>>(), vec![1, 3]);
}

#[test]
fn representable_instants_are_told_apart() {
    assert!(is_representable(at(0)));
    assert!(is_representable(Timestamp { seconds: 0x100_0000_0000, nanos: 999_999_999 }));
    assert!(!is_representable(Timestamp { seconds: 0x100_0000_0001, nanos: 0 }));
    assert!(!is_representable(Timestamp { seconds: -0x100_0000_0001, nanos: 0 }));
    assert!(!is_representable(Timestamp { seconds: 0, nanos: 1_000_000_000 }));
}

fn pod_with_restarts(counts: &[i32]) -> KubeObject<PodObject> {
    KubeObject {
        resource: kind("Pod"),
        metadata: meta("edge-abc", None),
        data: PodObject {
            spec: None,
            status: Some(PodStatus {
                phase: None,
                container_statuses: Some(
                    counts.iter().map(|c| ContainerStatus { ready: true, restart_count: *c }).collect(),
                ),
                pod_ip: None,
            }),
        },
    }
}

#[test]
fn restart_sums_that_overflow_are_found() {
    assert!(restarts_fit_in(&pod_with_restarts(&[])));
    assert!(restarts_fit_in(&pod_with_restarts(&[1, 2, 3])));
    assert!(restarts_fit_in(&pod_with_restarts(&[i32::MAX, -5])));
    assert!(!restarts_fit_in(&pod_with_restarts(&[i32::MAX, 1])));
    assert!(!restarts_fit_in(&pod_with_restarts(&[i32::MIN, -1, 5])));
    assert_eq!(PodInfo::from_pod(&pod_with_restarts(&[i32::MAX, -5])).restarts, i32::MAX - 5);
}

#[test]
fn wide_deployment_listings_are_the_plain_table() {
    let infos = || {
        vec![DeploymentInfo {
            name: "edge".to_string(),
            namespace: "infra".to_string(),
            ready: "1/2".to_string(),
            up_to_date: 1,
            available: 1,
            age: Some(at(0)),
        }]
    };
    let now = at(7200);
    let table = output_deployments(&infos(), OutputFormat::Table, now);
    for format in [OutputFormat::Wide, OutputFormat::WideEmoji] {
        let wide = output_deployments(&infos(), format, now);
        match (&wide, &table) {
            (Listing::Table(r1, s1, c1), Listing::Table(r2, s2, c2)) => {
                assert_eq!(r1, r2);
                assert_eq!(s1, s2);
                assert_eq!(c1, c2);
                assert_eq!(r1[0].age, "2h");
            }
            _ => panic!("expected tables"),
        }
    }
}
