//! The configuration that the control plane hands each gateway: where to
//! reach the control plane, how to learn clients' addresses, how to answer
//! with errors, the extension filters, the listeners and the HTTP routes.
use crate::api::{
    AccessControlFilterEffect, AccessControlFilterSpec, ClientAddresses, ClientAddressesProxies,
    ClientAddressesSource, CommonGatewayParameterSpec, ErrorResponseKind, ErrorResponses,
    GatewayConfiguration, GatewayDeployment, Image, ImagePullPolicy, IpRange, ProblemDetailErrorResponse, ProxyIpAddressHeaders,
    StaticResponseFilterSpec,
};
use crate::backends::{Backend, IpAddress};
use crate::gateway_classes::{Gateway, Listener};
use crate::object_ref::{display_spec, KubeObject, ObjectRef, ObjectRefView};
use crate::ref_map::{ref_entries, RefMap};
use crate::route_config::{
    hostname_match_of, lists_configs_of, map_hostname_match_to_type, process_http_routes,
    route_config_views, HostnameMatch, HostnameMatchView, HttpRouteConfig, HttpRouteConfigView,
};
use crate::routes::HttpRoute;
use crate::text::{clone_opt_string, opt_view};
use std::sync::Arc;
use vstd::prelude::*;

verus! {

/// A static response filter object.
pub type StaticResponseFilter = KubeObject<StaticResponseFilterSpec>;

/// An access control filter object.
pub type AccessControlFilter = KubeObject<AccessControlFilterSpec>;

/// What a gateway's parameters and objects contribute to its configuration,
/// its deployment and its service.
pub struct GatewayInstanceConfiguration<D, S> {
    pub gateway: Arc<Gateway>,
    pub configuration: GatewayConfiguration,
    pub image_pull_policy: ImagePullPolicy,
    pub deployment_overrides: Arc<D>,
    pub service_overrides: Arc<S>,
}

/// The extension filters that the routes of a gateway use, each with its
/// reference.
pub struct ExtensionFilters {
    pub static_responses: Vec<(ObjectRef, Arc<StaticResponseFilter>)>,
    pub access_controls: Vec<(ObjectRef, Arc<AccessControlFilter>)>,
}

/// Where a gateway reaches the control plane.
#[derive(Debug, Clone, Copy, PartialEq, Eq)]
pub struct IpcEndpoint {
    pub address: IpAddress,
    pub port: u16,
}

/// A listener as the gateway opens it.
#[derive(Debug, PartialEq, Eq)]
pub struct ListenerConfig {
    pub name: String,
    pub port: u16,
    pub protocol: String,
    pub hostname: Option<HostnameMatch>,
}

/// The model of a [`ListenerConfig`].
pub struct ListenerConfigView {
    pub name: Seq<char>,
    pub port: u16,
    pub protocol: Seq<char>,
    pub hostname: Option<HostnameMatchView>,
}

impl View for ListenerConfig {
    type V = ListenerConfigView;

    open spec fn view(&self) -> ListenerConfigView {
        ListenerConfigView {
            name: self.name@,
            port: self.port,
            protocol: self.protocol@,
            hostname: match self.hostname {
                Some(h) => Some(h@),
                None => None,
            },
        }
    }
}

/// The listener that a gateway's listener becomes, when its port is one.
pub open spec fn listener_config_of(l: Listener) -> Option<ListenerConfigView> {
    if 0 <= l.port <= u16::MAX {
        Some(
            ListenerConfigView {
                name: l.name@,
                port: l.port as u16,
                protocol: l.protocol@,
                hostname: hostname_match_of(opt_view(l.hostname)),
            },
        )
    } else {
        None
    }
}

/// The listeners that a gateway's listeners become, in order; those whose
/// port is out of range are left out.
pub open spec fn listeners_config_of(ls: Seq<Listener>) -> Seq<ListenerConfigView>
    decreases ls.len(),
{
    if ls.len() == 0 {
        Seq::empty()
    } else {
        let rest = listeners_config_of(ls.drop_last());
        match listener_config_of(ls.last()) {
            Some(c) => rest.push(c),
            None => rest,
        }
    }
}

/// The models of a list of listeners.
pub open spec fn listener_views(s: Seq<ListenerConfig>) -> Seq<ListenerConfigView> {
    s.map_values(|l: ListenerConfig| l@)
}

/// The listeners of a gateway, in order; a listener whose port does not fit
/// a port number is skipped.
pub fn add_listeners(listeners: &Vec<Listener>) -> (r: Vec<ListenerConfig>)
    ensures
        listener_views(r@) == listeners_config_of(listeners@),
{
    let mut r: Vec<ListenerConfig> = Vec::new();
    let mut i: usize = 0;
    while i < listeners.len()
        invariant
            i <= listeners.len(),
            listener_views(r@) == listeners_config_of(listeners@.take(i as int)),
        decreases listeners.len() - i,
    {
        let l = &listeners[i];
        assert(listeners@.take(i + 1).drop_last() =~= listeners@.take(i as int));
        assert(listeners@.take(i + 1).last() == *l);
        if 0 <= l.port && l.port <= 65535 {
            let hostname = match &l.hostname {
                Some(h) => map_hostname_match_to_type(Some(h)),
                None => map_hostname_match_to_type(None),
            };
            let c = ListenerConfig {
                name: l.name.clone(),
                port: l.port as u16,
                protocol: l.protocol.clone(),
                hostname,
            };
            let ghost before = r@;
            r.push(c);
            assert(listener_views(r@) =~= listener_views(before).push(c@));
        }
        i += 1;
    }
    assert(listeners@.take(listeners.len() as int) =~= listeners@);
    r
}

/// How a gateway answers with errors, as it applies it.
#[derive(Debug, PartialEq)]
pub struct ErrorResponsesConfig {
    pub kind: ErrorResponseKind,
    pub problem_detail: Option<ProblemDetailErrorResponse>,
}

/// The kind of error responses that a configuration asks for; empty ones
/// when it says nothing.
pub open spec fn error_kind_of(e: Option<ErrorResponses>) -> ErrorResponseKind {
    match e {
        Some(e) => e.kind,
        None => ErrorResponseKind::Empty,
    }
}

/// The authority of problem detail error responses: present only for that
/// kind, and absent within when the configuration names none.
pub open spec fn problem_authority_of(e: Option<ErrorResponses>) -> Option<Option<Seq<char>>> {
    match e {
        Some(e) => match e.kind {
            ErrorResponseKind::ProblemDetail => Some(
                match e.problem_detail {
                    Some(p) => opt_view(p.authority),
                    None => None,
                },
            ),
            _ => None,
        },
        None => None,
    }
}

/// The error responses of a gateway from its configuration.
pub fn set_error_responses_strategy(configuration: &GatewayConfiguration) -> (r:
    ErrorResponsesConfig)
    ensures
        r.kind == error_kind_of(configuration.error_responses),
        match r.problem_detail {
            Some(p) => problem_authority_of(configuration.error_responses) == Some(
                opt_view(p.authority),
            ),
            None => problem_authority_of(configuration.error_responses) is None,
        },
{
    match &configuration.error_responses {
        None => ErrorResponsesConfig { kind: ErrorResponseKind::Empty, problem_detail: None },
        Some(e) => match e.kind {
            ErrorResponseKind::Empty => ErrorResponsesConfig {
                kind: ErrorResponseKind::Empty,
                problem_detail: None,
            },
            ErrorResponseKind::Html => ErrorResponsesConfig {
                kind: ErrorResponseKind::Html,
                problem_detail: None,
            },
            ErrorResponseKind::ProblemDetail => {
                let authority = match &e.problem_detail {
                    Some(p) => clone_opt_string(&p.authority),
                    None => None,
                };
                ErrorResponsesConfig {
                    kind: ErrorResponseKind::ProblemDetail,
                    problem_detail: Some(ProblemDetailErrorResponse { authority }),
                }
            },
        },
    }
}

/// How a gateway learns a client's address, as it applies it: from the
/// connection, from a header, or from the headers of trusted proxies.
#[derive(Debug, PartialEq)]
pub enum ClientAddrsStrategy {
    Unset,
    Header(String),
    Proxies(ClientAddressesProxies),
}

/// The model of a [`ClientAddrsStrategy`].
pub enum ClientAddrsView {
    Unset,
    Header(Seq<char>),
    Proxies(bool, Seq<IpAddress>, Seq<IpRange>, Seq<ProxyIpAddressHeaders>),
}

impl View for ClientAddrsStrategy {
    type V = ClientAddrsView;

    open spec fn view(&self) -> ClientAddrsView {
        match self {
            ClientAddrsStrategy::Unset => ClientAddrsView::Unset,
            ClientAddrsStrategy::Header(h) => ClientAddrsView::Header(h@),
            ClientAddrsStrategy::Proxies(p) => ClientAddrsView::Proxies(
                p.trust_local_ranges,
                p.trusted_ips@,
                p.trusted_ranges@,
                p.trusted_headers@,
            ),
        }
    }
}

/// The client address strategy of a configuration: none when it says
/// nothing of client addresses; the connection's when it names no source,
/// or the header source without a header; trusted proxies that trust
/// nothing when it names the proxy source without proxies.
pub open spec fn client_addrs_of(c: Option<ClientAddresses>) -> Option<ClientAddrsView> {
    match c {
        None => None,
        Some(c) => Some(
            match c.source {
                ClientAddressesSource::Unspecified => ClientAddrsView::Unset,
                ClientAddressesSource::Header => match c.header {
                    Some(h) => ClientAddrsView::Header(h@),
                    None => ClientAddrsView::Unset,
                },
                ClientAddressesSource::Proxies => match c.proxies {
                    Some(p) => ClientAddrsView::Proxies(
                        p.trust_local_ranges,
                        p.trusted_ips@,
                        p.trusted_ranges@,
                        p.trusted_headers@,
                    ),
                    None => ClientAddrsView::Proxies(false, Seq::empty(), Seq::empty(), Seq::empty()),
                },
            },
        ),
    }
}

/// A copy of a list of plain values.
fn copy_vec<T: Copy>(v: &Vec<T>) -> (r: Vec<T>)
    ensures
        r@ == v@,
{
    let mut r: Vec<T> = Vec::new();
    let mut i: usize = 0;
    while i < v.len()
        invariant
            i <= v.len(),
            r@ == v@.take(i as int),
        decreases v.len() - i,
    {
        r.push(v[i]);
        assert(r@ =~= v@.take(i + 1));
        i += 1;
    }
    assert(v@.take(v.len() as int) =~= v@);
    r
}

/// The client address strategy of a gateway from its configuration.
pub fn set_client_addrs_strategy(configuration: &GatewayConfiguration) -> (r: Option<
    ClientAddrsStrategy,
>)
    ensures
        match r {
            Some(s) => client_addrs_of(configuration.client_addresses) == Some(s@),
            None => client_addrs_of(configuration.client_addresses) is None,
        },
{
    let c = match &configuration.client_addresses {
        Some(c) => c,
        None => return None,
    };
    let s = match c.source {
        ClientAddressesSource::Unspecified => ClientAddrsStrategy::Unset,
        ClientAddressesSource::Header => match &c.header {
            Some(h) => ClientAddrsStrategy::Header(h.clone()),
            None => ClientAddrsStrategy::Unset,
        },
        ClientAddressesSource::Proxies => match &c.proxies {
            Some(p) => ClientAddrsStrategy::Proxies(
                ClientAddressesProxies {
                    trust_local_ranges: p.trust_local_ranges,
                    trusted_ips: copy_vec(&p.trusted_ips),
                    trusted_ranges: copy_vec(&p.trusted_ranges),
                    trusted_headers: copy_vec(&p.trusted_headers),
                },
            ),
            None => ClientAddrsStrategy::Proxies(
                ClientAddressesProxies {
                    trust_local_ranges: false,
                    trusted_ips: Vec::new(),
                    trusted_ranges: Vec::new(),
                    trusted_headers: Vec::new(),
                },
            ),
        },
    };
    Some(s)
}

/// The body of a static response as the gateway serves it: its content
/// type, and the identifier under which the control plane hands out its
/// bytes.
#[derive(Debug, PartialEq, Eq)]
pub struct StaticResponseBodyConfig {
    pub content_type: String,
    pub identifier: String,
}

/// A static response as the gateway serves it.
#[derive(Debug, PartialEq, Eq)]
pub struct StaticResponseConfig {
    pub key: String,
    pub version_key: String,
    pub status_code: u16,
    pub body: Option<StaticResponseBodyConfig>,
}

/// The model of a [`StaticResponseConfig`]: key, version key, status code,
/// and the content type and identifier of the body.
pub struct StaticResponseView {
    pub key: Seq<char>,
    pub version_key: Seq<char>,
    pub status_code: u16,
    pub body: Option<(Seq<char>, Seq<char>)>,
}

impl View for StaticResponseConfig {
    type V = StaticResponseView;

    open spec fn view(&self) -> StaticResponseView {
        StaticResponseView {
            key: self.key@,
            version_key: self.version_key@,
            status_code: self.status_code,
            body: match self.body {
                Some(b) => Some((b.content_type@, b.identifier@)),
                None => None,
            },
        }
    }
}

/// The static response of a filter: keyed by the filter's reference,
/// versioned by its resource version, its body identified by its unique
/// id; none when the filter has no resource version or no unique id.
pub open spec fn static_response_of(r: ObjectRefView, f: StaticResponseFilter) -> Option<
    StaticResponseView,
> {
    match (f.metadata.resource_version, f.metadata.uid) {
        (Some(v), Some(u)) => Some(
            StaticResponseView {
                key: display_spec(r),
                version_key: v@,
                status_code: f.data.status_code,
                body: match f.data.body {
                    Some(b) => Some((b.content_type@, u@)),
                    None => None,
                },
            },
        ),
        _ => None,
    }
}

/// The static responses of the filters, in order.
pub open spec fn static_responses_of(s: Seq<(ObjectRefView, Arc<StaticResponseFilter>)>) -> Seq<
    StaticResponseView,
>
    decreases s.len(),
{
    if s.len() == 0 {
        Seq::empty()
    } else {
        let rest = static_responses_of(s.drop_last());
        match static_response_of(s.last().0, *s.last().1) {
            Some(v) => rest.push(v),
            None => rest,
        }
    }
}

/// The models of a list of static responses.
pub open spec fn static_response_views(s: Seq<StaticResponseConfig>) -> Seq<StaticResponseView> {
    s.map_values(|c: StaticResponseConfig| c@)
}

/// The static responses of the static response filters, in order; a filter
/// without a resource version or a unique id is skipped.
pub fn apply_static_response_filters(extension_filters: &ExtensionFilters) -> (r: Vec<
    StaticResponseConfig,
>)
    ensures
        static_response_views(r@) == static_responses_of(
            ref_entries(extension_filters.static_responses@),
        ),
{
    let filters = &extension_filters.static_responses;
    let ghost all = ref_entries(filters@);
    let mut r: Vec<StaticResponseConfig> = Vec::new();
    let mut i: usize = 0;
    while i < filters.len()
        invariant
            i <= filters.len(),
            all == ref_entries(filters@),
            static_response_views(r@) == static_responses_of(all.take(i as int)),
        decreases filters.len() - i,
    {
        let (filter_ref, filter) = &filters[i];
        assert(all.take(i + 1).drop_last() =~= all.take(i as int));
        assert(all.take(i + 1).last() == (filter_ref@, *filter));
        match (&filter.metadata.resource_version, &filter.metadata.uid) {
            (Some(version_key), Some(uid)) => {
                let body = match &filter.data.body {
                    Some(b) => Some(
                        StaticResponseBodyConfig {
                            content_type: b.content_type.clone(),
                            identifier: uid.clone(),
                        },
                    ),
                    None => None,
                };
                let c = StaticResponseConfig {
                    key: filter_ref.display(),
                    version_key: version_key.clone(),
                    status_code: filter.data.status_code,
                    body,
                };
                let ghost before = r@;
                r.push(c);
                assert(static_response_views(r@) =~= static_response_views(before).push(c@));
            },
            _ => {},
        }
        i += 1;
    }
    assert(all.take(filters.len() as int) =~= all);
    r
}

/// An access control filter as the gateway applies it.
#[derive(Debug, PartialEq)]
pub struct AccessControlConfig {
    pub key: String,
    pub effect: AccessControlFilterEffect,
    pub ip_ranges: Vec<IpRange>,
    pub ips: Vec<IpAddress>,
}

/// The model of an [`AccessControlConfig`]: key, effect, ranges and
/// addresses.
pub struct AccessControlView {
    pub key: Seq<char>,
    pub effect: AccessControlFilterEffect,
    pub ip_ranges: Seq<IpRange>,
    pub ips: Seq<IpAddress>,
}

impl View for AccessControlConfig {
    type V = AccessControlView;

    open spec fn view(&self) -> AccessControlView {
        AccessControlView {
            key: self.key@,
            effect: self.effect,
            ip_ranges: self.ip_ranges@,
            ips: self.ips@,
        }
    }
}

/// The access control of a filter, keyed by the filter's reference.
pub open spec fn access_control_of(r: ObjectRefView, f: AccessControlFilter) -> AccessControlView {
    AccessControlView {
        key: display_spec(r),
        effect: f.data.effect,
        ip_ranges: f.data.clients.ip_ranges@,
        ips: f.data.clients.ips@,
    }
}

/// The models of a list of access controls.
pub open spec fn access_control_views(s: Seq<AccessControlConfig>) -> Seq<AccessControlView> {
    s.map_values(|c: AccessControlConfig| c@)
}

/// The access controls of the access control filters, one for each, in
/// order.
pub fn apply_access_control_filters(extension_filters: &ExtensionFilters) -> (r: Vec<
    AccessControlConfig,
>)
    ensures
        r@.len() == extension_filters.access_controls@.len(),
        forall|i: int|
            0 <= i < r@.len() ==> #[trigger] r@[i]@ == access_control_of(
                extension_filters.access_controls@[i].0@,
                *extension_filters.access_controls@[i].1,
            ),
{
    let filters = &extension_filters.access_controls;
    let mut r: Vec<AccessControlConfig> = Vec::new();
    let mut i: usize = 0;
    while i < filters.len()
        invariant
            i <= filters.len(),
            r@.len() == i,
            forall|j: int|
                0 <= j < i ==> #[trigger] r@[j]@ == access_control_of(
                    filters@[j].0@,
                    *filters@[j].1,
                ),
        decreases filters.len() - i,
    {
        let (filter_ref, filter) = &filters[i];
        let c = AccessControlConfig {
            key: filter_ref.display(),
            effect: filter.data.effect,
            ip_ranges: copy_vec(&filter.data.clients.ip_ranges),
            ips: copy_vec(&filter.data.clients.ips),
        };
        r.push(c);
        i += 1;
    }
    r
}

/// The configuration of a gateway.
#[derive(Debug, PartialEq)]
pub struct GatewayConfig {
    pub ipc: IpcEndpoint,
    pub client_addrs: Option<ClientAddrsStrategy>,
    pub error_responses: ErrorResponsesConfig,
    pub static_responses: Vec<StaticResponseConfig>,
    pub access_control_filters: Vec<AccessControlConfig>,
    pub listeners: Vec<ListenerConfig>,
    pub http_routes: Vec<HttpRouteConfig>,
}

/// The extension filters of a gateway, if it has any.
pub open spec fn filters_of(
    extension_filters: Map<ObjectRefView, ExtensionFilters>,
    gateway: ObjectRefView,
) -> Option<ExtensionFilters> {
    if extension_filters.dom().contains(gateway) {
        Some(extension_filters[gateway])
    } else {
        None
    }
}

/// Whether a configuration is the one of a gateway: the control plane at
/// the primary instance's address and the IPC port; the client address and
/// error response strategies of the gateway's parameters; the static
/// responses and access controls of its extension filters (none without
/// them); its listeners; and the HTTP routes that reference it.
pub open spec fn is_gateway_config<D, S>(
    c: GatewayConfig,
    gateway: ObjectRefView,
    instance: GatewayInstanceConfiguration<D, S>,
    ipc_address: IpAddress,
    ipc_port: u16,
    http_routes: Seq<(ObjectRefView, Vec<Arc<HttpRoute>>)>,
    backends: Map<ObjectRefView, Backend>,
    filters: Option<ExtensionFilters>,
) -> bool {
    &&& c.ipc == IpcEndpoint { address: ipc_address, port: ipc_port }
    &&& match c.client_addrs {
        Some(s) => client_addrs_of(instance.configuration.client_addresses) == Some(s@),
        None => client_addrs_of(instance.configuration.client_addresses) is None,
    }
    &&& c.error_responses.kind == error_kind_of(instance.configuration.error_responses)
    &&& match c.error_responses.problem_detail {
        Some(p) => problem_authority_of(instance.configuration.error_responses) == Some(
            opt_view(p.authority),
        ),
        None => problem_authority_of(instance.configuration.error_responses) is None,
    }
    &&& static_response_views(c.static_responses@) == match filters {
        Some(f) => static_responses_of(ref_entries(f.static_responses@)),
        None => Seq::empty(),
    }
    &&& access_control_views(c.access_control_filters@) == match filters {
        Some(f) => f.access_controls@.map_values(
            |e: (ObjectRef, Arc<AccessControlFilter>)| access_control_of(e.0@, *e.1),
        ),
        None => Seq::empty(),
    }
    &&& listener_views(c.listeners@) == listeners_config_of(instance.gateway.data.listeners@)
    &&& route_config_views(c.http_routes@) == lists_configs_of(
        http_routes,
        gateway,
        opt_view(instance.gateway.metadata.uid),
        backends,
    )
}

/// The configuration of one gateway.
pub fn generate_gateway_configuration<D, S>(
    gateway_ref: &ObjectRef,
    instance: &GatewayInstanceConfiguration<D, S>,
    ipc_port: u16,
    primary_instance_ip_addr: IpAddress,
    http_routes: &RefMap<Vec<Arc<HttpRoute>>>,
    backends: &RefMap<Backend>,
    extension_filters: &RefMap<ExtensionFilters>,
) -> (r: GatewayConfig)
    requires
        backends.wf(),
        extension_filters.wf(),
    ensures
        is_gateway_config(
            r,
            gateway_ref@,
            *instance,
            primary_instance_ip_addr,
            ipc_port,
            http_routes.order(),
            backends.map(),
            filters_of(extension_filters.map(), gateway_ref@),
        ),
{
    let ipc = IpcEndpoint { address: primary_instance_ip_addr, port: ipc_port };
    let client_addrs = set_client_addrs_strategy(&instance.configuration);
    let error_responses = set_error_responses_strategy(&instance.configuration);
    let (static_responses, access_control_filters) = match extension_filters.get(gateway_ref) {
        Some(filters) => {
            let a = apply_access_control_filters(filters);
            assert(access_control_views(a@) =~= filters.access_controls@.map_values(
                |e: (ObjectRef, Arc<AccessControlFilter>)| access_control_of(e.0@, *e.1),
            ));
            (apply_static_response_filters(filters), a)
        },
        None => {
            let s: Vec<StaticResponseConfig> = Vec::new();
            let a: Vec<AccessControlConfig> = Vec::new();
            assert(static_response_views(s@) =~= Seq::empty());
            assert(access_control_views(a@) =~= Seq::empty());
            (s, a)
        },
    };
    let listeners = add_listeners(&instance.gateway.data.listeners);
    let http_routes = process_http_routes(
        gateway_ref,
        &instance.gateway.metadata,
        http_routes,
        backends,
    );
    GatewayConfig {
        ipc,
        client_addrs,
        error_responses,
        static_responses,
        access_control_filters,
        listeners,
        http_routes,
    }
}

/// The configuration of each gateway, in the order of the gateways.
pub fn generate_gateway_configurations<D, S>(
    gateway_instances: &RefMap<GatewayInstanceConfiguration<D, S>>,
    ipc_port: u16,
    primary_instance_ip_addr: IpAddress,
    http_routes: &RefMap<Vec<Arc<HttpRoute>>>,
    backends: &RefMap<Backend>,
    extension_filters: &RefMap<ExtensionFilters>,
) -> (r: Vec<(ObjectRef, GatewayConfig)>)
    requires
        backends.wf(),
        extension_filters.wf(),
    ensures
        r@.len() == gateway_instances.order().len(),
        forall|i: int|
            0 <= i < r@.len() ==> {
                let (g, instance) = #[trigger] gateway_instances.order()[i];
                &&& r@[i].0@ == g
                &&& is_gateway_config(
                    r@[i].1,
                    g,
                    instance,
                    primary_instance_ip_addr,
                    ipc_port,
                    http_routes.order(),
                    backends.map(),
                    filters_of(extension_filters.map(), g),
                )
            },
{
    let entries = gateway_instances.entries();
    let ghost order = gateway_instances.order();
    let mut r: Vec<(ObjectRef, GatewayConfig)> = Vec::new();
    let mut i: usize = 0;
    while i < entries.len()
        invariant
            i <= entries.len(),
            backends.wf(),
            extension_filters.wf(),
            ref_entries(entries@) == order,
            r@.len() == i,
            forall|j: int|
                0 <= j < i ==> {
                    let (g, instance) = #[trigger] order[j];
                    &&& r@[j].0@ == g
                    &&& is_gateway_config(
                        r@[j].1,
                        g,
                        instance,
                        primary_instance_ip_addr,
                        ipc_port,
                        http_routes.order(),
                        backends.map(),
                        filters_of(extension_filters.map(), g),
                    )
                },
        decreases entries.len() - i,
    {
        let (gateway_ref, instance) = &entries[i];
        assert(order[i as int] == (gateway_ref@, *instance));
        let c = generate_gateway_configuration(
            gateway_ref,
            instance,
            ipc_port,
            primary_instance_ip_addr,
            http_routes,
            backends,
            extension_filters,
        );
        r.push((gateway_ref.clone(), c));
        i += 1;
    }
    r
}

/// A gateway's own value where it has one, else its class's.
pub open spec fn own_or_class<T>(own: Option<T>, class: Option<T>) -> Option<T> {
    match own {
        Some(v) => Some(v),
        None => class,
    }
}

/// The deployment settings of optional parameters.
pub open spec fn deployment_of<St>(c: Option<CommonGatewayParameterSpec<St>>) -> Option<GatewayDeployment<St>> {
    match c {
        Some(c) => c.deployment,
        None => None,
    }
}

/// The gateway configuration of optional parameters.
pub open spec fn configuration_of<St>(c: Option<CommonGatewayParameterSpec<St>>) -> Option<GatewayConfiguration> {
    match c {
        Some(c) => c.gateway,
        None => None,
    }
}

/// The parameters that make up a gateway's instance: the deployment
/// settings and the gateway configuration, each the gateway's own where its
/// parameters give it, else its class's.
pub fn merge_parameters<St>(
    own: Option<CommonGatewayParameterSpec<St>>,
    class: Option<CommonGatewayParameterSpec<St>>,
) -> (r: CommonGatewayParameterSpec<St>)
    ensures
        r.deployment == own_or_class(deployment_of(own), deployment_of(class)),
        r.gateway == own_or_class(configuration_of(own), configuration_of(class)),
{
    let (own_deployment, own_gateway) = match own {
        Some(c) => (c.deployment, c.gateway),
        None => (None, None),
    };
    let (class_deployment, class_gateway) = match class {
        Some(c) => (c.deployment, c.gateway),
        None => (None, None),
    };
    CommonGatewayParameterSpec {
        deployment: match own_deployment {
            Some(d) => Some(d),
            None => class_deployment,
        },
        gateway: match own_gateway {
            Some(g) => Some(g),
            None => class_gateway,
        },
    }
}

/// The pull policy of a gateway's image: its deployment settings', else
/// `IfNotPresent`.
pub fn image_pull_policy_of<St>(deployment: &Option<GatewayDeployment<St>>) -> (p: ImagePullPolicy)
    ensures
        p == match deployment {
            Some(d) => match d.image_pull_policy {
                Some(p) => p,
                None => ImagePullPolicy::IfNotPresent,
            },
            None => ImagePullPolicy::IfNotPresent,
        },
{
    match deployment {
        Some(d) => match d.image_pull_policy {
            Some(p) => p,
            None => ImagePullPolicy::IfNotPresent,
        },
        None => ImagePullPolicy::IfNotPresent,
    }
}

/// The reference of a gateway's image: the repository and the tag joined
/// by `:`, the repository alone without a tag, none without a repository.
pub fn image_reference(image: &Image) -> (r: Option<String>)
    ensures
        match image.repository {
            Some(repository) => r matches Some(s) && s@ == match image.tag {
                Some(tag) => repository@ + ":"@ + tag@,
                None => repository@,
            },
            None => r is None,
        },
{
    match &image.repository {
        Some(repository) => {
            let mut s = repository.clone();
            if let Some(tag) = &image.tag {
                crate::text::push_str(&mut s, ":");
                crate::text::push_str(&mut s, tag.as_str());
            }
            Some(s)
        },
        None => None,
    }
}

} // verus!
