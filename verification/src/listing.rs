//! What the command line tool lists: the gateways, their pods, services and
//! deployments, read from their objects and laid out as table rows.
use crate::age::{format_age_from_option, listing_age, representable};
use crate::api::Timestamp;
use crate::decimal::{decimal, decimal_int, format_i64, format_u64};
use crate::emoji::{lowered, to_lowercase};
use crate::gateway_classes::{Gateway, Listener};
use crate::gateway_status::GatewayStatus;
use crate::object_ref::{KubeObject, ObjectMeta};
use crate::text::{
    clone_opt_string, clone_strings, join, joined, opt_view, push_str, string_views, text_or,
    text_or_empty, unwrap_or_empty, unwrap_or_text,
};
use vstd::prelude::*;
use vstd::string::*;

verus! {

/// How the tool prints what it lists.
#[derive(Debug, Clone, Copy, PartialEq, Eq)]
pub enum OutputFormat {
    Table,
    TableEmoji,
    Wide,
    WideEmoji,
    Kubectl,
    Json,
    Yaml,
}

/// The look of a printed table.
#[derive(Debug, Clone, Copy, PartialEq, Eq)]
pub enum TableStyle {
    Default,
    DefaultEmoji,
    Wide,
    WideEmoji,
    Kubectl,
}

/// A listing: table rows with their style and the columns whose values get
/// emoji, or the listed items written as JSON or YAML.
pub enum Listing<R> {
    Table(Vec<R>, TableStyle, Vec<usize>),
    Json,
    Yaml,
}

/// A listener of a gateway, as listed.
#[derive(Debug, PartialEq)]
pub struct ListenerInfo {
    pub name: String,
    pub port: i32,
    pub protocol: String,
    pub hostname: Option<String>,
}

/// Whether a listed listener is the gateway's listener.
pub open spec fn listener_info_of(i: ListenerInfo, l: Listener) -> bool {
    &&& i.name@ == l.name@
    &&& i.port == l.port
    &&& i.protocol@ == l.protocol@
    &&& opt_view(i.hostname) == opt_view(l.hostname)
}

impl ListenerInfo {
    /// The listed form of a gateway's listener.
    pub fn from_listener(listener: &Listener) -> (r: ListenerInfo)
        ensures
            listener_info_of(r, *listener),
    {
        ListenerInfo {
            name: listener.name.clone(),
            port: listener.port,
            protocol: listener.protocol.clone(),
            hostname: clone_opt_string(&listener.hostname),
        }
    }
}

/// A gateway, as listed.
#[derive(Debug, PartialEq)]
pub struct GatewayInfo {
    pub name: String,
    pub namespace: String,
    pub gateway_class: String,
    pub addresses: Vec<String>,
    pub listeners: Vec<ListenerInfo>,
    pub status: String,
    pub age: Option<Timestamp>,
}

/// The addresses that a gateway's status reports, in order.
pub open spec fn status_addresses(status: Option<GatewayStatus>) -> Seq<Seq<char>> {
    match status {
        Some(s) => match s.addresses {
            Some(a) => a@.map_values(|x: crate::gateway_status::GatewayStatusAddress| x.value@),
            None => Seq::empty(),
        },
        None => Seq::empty(),
    }
}

/// Whether a listed gateway is the gateway with the given status: its
/// name, namespace and class, the addresses of its status, its listeners,
/// `Ready`, and its creation time.
pub open spec fn gateway_info_of(i: GatewayInfo, g: Gateway, status: Option<GatewayStatus>) -> bool {
    &&& i.name@ == text_or_empty(g.metadata.name)
    &&& i.namespace@ == text_or_empty(g.metadata.namespace)
    &&& i.gateway_class@ == g.data.gateway_class_name@
    &&& string_views(i.addresses@) == status_addresses(status)
    &&& i.listeners@.len() == g.data.listeners@.len()
    &&& forall|k: int|
        0 <= k < i.listeners@.len() ==> listener_info_of(
            #[trigger] i.listeners@[k],
            g.data.listeners@[k],
        )
    &&& i.status@ == "Ready"@
    &&& i.age == g.metadata.creation_timestamp
}

impl GatewayInfo {
    /// The listed form of a gateway with its status.
    pub fn from_gateway(gateway: &Gateway, status: &Option<GatewayStatus>) -> (r: GatewayInfo)
        ensures
            gateway_info_of(r, *gateway, *status),
    {
        let mut addresses: Vec<String> = Vec::new();
        if let Some(s) = status {
            if let Some(a) = &s.addresses {
                let mut k: usize = 0;
                while k < a.len()
                    invariant
                        k <= a.len(),
                        string_views(addresses@) == a@.take(k as int).map_values(
                            |x: crate::gateway_status::GatewayStatusAddress| x.value@,
                        ),
                    decreases a.len() - k,
                {
                    let ghost before = addresses@;
                    addresses.push(a[k].value.clone());
                    assert(string_views(addresses@) =~= string_views(before).push(a@[k as int].value@));
                    assert(a@.take(k + 1) =~= a@.take(k as int).push(a@[k as int]));
                    k += 1;
                }
                assert(a@.take(a.len() as int) =~= a@);
            }
        }
        assert(status_addresses(*status) == string_views(addresses@)) by {
            if status_addresses(*status).len() == 0 {
                assert(string_views(addresses@) =~= Seq::<Seq<char>>::empty());
            }
        }
        let ls = &gateway.data.listeners;
        let mut listeners: Vec<ListenerInfo> = Vec::new();
        let mut k: usize = 0;
        while k < ls.len()
            invariant
                k <= ls.len(),
                listeners@.len() == k,
                forall|j: int| 0 <= j < k ==> listener_info_of(#[trigger] listeners@[j], ls@[j]),
            decreases ls.len() - k,
        {
            listeners.push(ListenerInfo::from_listener(&ls[k]));
            k += 1;
        }
        GatewayInfo {
            name: unwrap_or_empty(&gateway.metadata.name),
            namespace: unwrap_or_empty(&gateway.metadata.namespace),
            gateway_class: gateway.data.gateway_class_name.clone(),
            addresses,
            listeners,
            status: String::from_str("Ready"),
            age: gateway.metadata.creation_timestamp,
        }
    }
}

/// A container of a pod.
pub struct Container {
    pub name: String,
}

/// How a container of a pod fares.
pub struct ContainerStatus {
    pub ready: bool,
    pub restart_count: i32,
}

/// The part of a pod's specification that listings show.
pub struct PodSpec {
    pub containers: Vec<Container>,
    pub node_name: Option<String>,
}

/// The part of a pod's status that listings show.
pub struct PodStatus {
    pub phase: Option<String>,
    pub container_statuses: Option<Vec<ContainerStatus>>,
    pub pod_ip: Option<String>,
}

/// A pod's specification and status.
pub struct PodObject {
    pub spec: Option<PodSpec>,
    pub status: Option<PodStatus>,
}

/// A pod.
pub type Pod = KubeObject<PodObject>;

/// A pod, as listed.
#[derive(Debug, PartialEq)]
pub struct PodInfo {
    pub name: String,
    pub namespace: String,
    pub ready: String,
    pub status: String,
    pub restarts: i32,
    pub age: Option<Timestamp>,
    pub node: Option<String>,
}

/// The number of ready containers.
pub open spec fn ready_count(s: Seq<ContainerStatus>) -> nat
    decreases s.len(),
{
    if s.len() == 0 {
        0
    } else {
        ready_count(s.drop_last()) + if s.last().ready {
            1nat
        } else {
            0nat
        }
    }
}

/// The restarts of the containers, summed.
pub open spec fn restart_sum(s: Seq<ContainerStatus>) -> int
    decreases s.len(),
{
    if s.len() == 0 {
        0
    } else {
        restart_sum(s.drop_last()) + s.last().restart_count
    }
}

/// The container statuses of a pod, none when it reports none.
pub open spec fn statuses_of(p: PodObject) -> Seq<ContainerStatus> {
    match p.status {
        Some(s) => match s.container_statuses {
            Some(c) => c@,
            None => Seq::empty(),
        },
        None => Seq::empty(),
    }
}

/// The number of containers of a pod.
pub open spec fn container_count(p: PodObject) -> nat {
    match p.spec {
        Some(s) => s.containers@.len(),
        None => 0,
    }
}

/// Whether the restarts of every prefix of the containers fit a 32-bit
/// integer, as summing them asks.
pub open spec fn restarts_fit(s: Seq<ContainerStatus>) -> bool {
    forall|k: int| 0 <= k <= s.len() ==> i32::MIN <= #[trigger] restart_sum(s.take(k)) <= i32::MAX
}

/// Tests whether the restarts of a pod's containers can be summed, so that
/// a caller can check the precondition of [`PodInfo::from_pod`].
pub fn restarts_fit_in(pod: &Pod) -> (b: bool)
    ensures
        b == restarts_fit(statuses_of(pod.data)),
{
    let empty: Vec<ContainerStatus> = Vec::new();
    let statuses = match &pod.data.status {
        Some(s) => match &s.container_statuses {
            Some(c) => c,
            None => &empty,
        },
        None => &empty,
    };
    assert(statuses@ == statuses_of(pod.data));
    assert(statuses@.take(0) =~= Seq::<ContainerStatus>::empty());
    let mut sum: i64 = 0;
    let mut k: usize = 0;
    while k < statuses.len()
        invariant
            k <= statuses.len(),
            statuses@ == statuses_of(pod.data),
            sum == restart_sum(statuses@.take(k as int)),
            forall|j: int|
                0 <= j <= k ==> i32::MIN <= #[trigger] restart_sum(statuses@.take(j)) <= i32::MAX,
        decreases statuses.len() - k,
    {
        assert(statuses@.take(k + 1).drop_last() =~= statuses@.take(k as int));
        assert(statuses@.take(k + 1).last() == statuses@[k as int]);
        sum = sum + statuses[k].restart_count as i64;
        assert(sum == restart_sum(statuses@.take(k + 1)));
        k += 1;
        if sum < i32::MIN as i64 || sum > i32::MAX as i64 {
            assert(!(i32::MIN <= restart_sum(statuses@.take(k as int)) <= i32::MAX));
            assert(!restarts_fit(statuses@));
            return false;
        }
    }
    assert(statuses@.take(statuses.len() as int) =~= statuses@);
    true
}

/// Whether a listed pod is the pod: its name and namespace, its ready
/// containers over its containers, its phase, its summed restarts, its
/// creation time and its node.
pub open spec fn pod_info_of(i: PodInfo, p: Pod) -> bool {
    &&& i.name@ == text_or_empty(p.metadata.name)
    &&& i.namespace@ == text_or_empty(p.metadata.namespace)
    &&& i.ready@ == decimal(ready_count(statuses_of(p.data))) + "/"@ + decimal(container_count(p.data))
    &&& i.status@ == match p.data.status {
        Some(s) => text_or_empty(s.phase),
        None => Seq::empty(),
    }
    &&& i.restarts == restart_sum(statuses_of(p.data))
    &&& i.age == p.metadata.creation_timestamp
    &&& opt_view(i.node) == match p.data.spec {
        Some(s) => opt_view(s.node_name),
        None => None,
    }
}

impl PodInfo {
    /// The listed form of a pod.
    pub fn from_pod(pod: &Pod) -> (r: PodInfo)
        requires
            restarts_fit(statuses_of(pod.data)),
        ensures
            pod_info_of(r, *pod),
    {
        let empty: Vec<ContainerStatus> = Vec::new();
        let statuses = match &pod.data.status {
            Some(s) => match &s.container_statuses {
                Some(c) => c,
                None => &empty,
            },
            None => &empty,
        };
        assert(statuses@ == statuses_of(pod.data));
        let mut ready: usize = 0;
        let mut restarts: i32 = 0;
        let mut k: usize = 0;
        while k < statuses.len()
            invariant
                k <= statuses.len(),
                ready == ready_count(statuses@.take(k as int)),
                ready <= k,
                restarts == restart_sum(statuses@.take(k as int)),
                restarts_fit(statuses@),
            decreases statuses.len() - k,
        {
            assert(statuses@.take(k + 1).drop_last() =~= statuses@.take(k as int));
            assert(i32::MIN <= restart_sum(statuses@.take(k + 1)) <= i32::MAX);
            if statuses[k].ready {
                ready += 1;
            }
            restarts = restarts + statuses[k].restart_count;
            k += 1;
        }
        assert(statuses@.take(statuses.len() as int) =~= statuses@);
        let total: usize = match &pod.data.spec {
            Some(s) => s.containers.len(),
            None => 0,
        };
        let mut ready_text = format_u64(ready as u64);
        push_str(&mut ready_text, "/");
        push_str(&mut ready_text, format_u64(total as u64).as_str());
        let phase = match &pod.data.status {
            Some(s) => unwrap_or_empty(&s.phase),
            None => String::new(),
        };
        let node = match &pod.data.spec {
            Some(s) => clone_opt_string(&s.node_name),
            None => None,
        };
        PodInfo {
            name: unwrap_or_empty(&pod.metadata.name),
            namespace: unwrap_or_empty(&pod.metadata.namespace),
            ready: ready_text,
            status: phase,
            restarts,
            age: pod.metadata.creation_timestamp,
            node,
        }
    }
}

/// The port a service port forwards to: a number or a named port.
pub enum IntOrString {
    Int(i32),
    String(String),
}

/// A port of a service.
pub struct ServicePort {
    pub protocol: Option<String>,
    pub port: i32,
    pub target_port: Option<IntOrString>,
}

/// The part of a service's specification that listings show.
pub struct ServiceSpec {
    pub type_: Option<String>,
    pub cluster_ip: Option<String>,
    pub external_ips: Option<Vec<String>>,
    pub ports: Option<Vec<ServicePort>>,
}

/// A service's specification.
pub struct ServiceObject {
    pub spec: Option<ServiceSpec>,
}

/// A service.
pub type Service = KubeObject<ServiceObject>;

/// A service, as listed.
#[derive(Debug, PartialEq)]
pub struct ServiceInfo {
    pub name: String,
    pub namespace: String,
    pub service_type: String,
    pub cluster_ip: Option<String>,
    pub external_ips: Vec<String>,
    pub ports: Vec<String>,
    pub age: Option<Timestamp>,
}

/// A service port as listed: the lowercased protocol, the port and the
/// target port (the port itself when none is given), as
/// `protocol:port/target`.
pub open spec fn port_text(p: ServicePort) -> Seq<char> {
    lowered(text_or_empty(p.protocol)) + ":"@ + decimal_int(p.port as int) + "/"@ + match p.target_port {
        Some(IntOrString::Int(i)) => decimal_int(i as int),
        Some(IntOrString::String(s)) => s@,
        None => decimal_int(p.port as int),
    }
}

/// The ports of a service's specification, none when it names none.
pub open spec fn ports_of(s: Option<ServiceSpec>) -> Seq<ServicePort> {
    match s {
        Some(s) => match s.ports {
            Some(p) => p@,
            None => Seq::empty(),
        },
        None => Seq::empty(),
    }
}

/// Whether a listed service is the service: its name and namespace, its
/// type, cluster address and external addresses, its ports and its
/// creation time.
pub open spec fn service_info_of(i: ServiceInfo, s: Service) -> bool {
    &&& i.name@ == text_or_empty(s.metadata.name)
    &&& i.namespace@ == text_or_empty(s.metadata.namespace)
    &&& i.service_type@ == match s.data.spec {
        Some(spec) => text_or_empty(spec.type_),
        None => Seq::empty(),
    }
    &&& opt_view(i.cluster_ip) == match s.data.spec {
        Some(spec) => opt_view(spec.cluster_ip),
        None => None,
    }
    &&& string_views(i.external_ips@) == match s.data.spec {
        Some(spec) => match spec.external_ips {
            Some(e) => string_views(e@),
            None => Seq::empty(),
        },
        None => Seq::empty(),
    }
    &&& string_views(i.ports@) == ports_of(s.data.spec).map_values(|p: ServicePort| port_text(p))
    &&& i.age == s.metadata.creation_timestamp
}

fn int_text(n: i32) -> (r: String)
    ensures
        r@ == decimal_int(n as int),
{
    format_i64(n as i64)
}

fn service_port_text(p: &ServicePort) -> (r: String)
    ensures
        r@ == port_text(*p),
{
    let protocol = unwrap_or_empty(&p.protocol);
    let mut r = to_lowercase(protocol.as_str());
    push_str(&mut r, ":");
    push_str(&mut r, int_text(p.port).as_str());
    push_str(&mut r, "/");
    let target = match &p.target_port {
        Some(IntOrString::Int(i)) => int_text(*i),
        Some(IntOrString::String(s)) => s.clone(),
        None => int_text(p.port),
    };
    push_str(&mut r, target.as_str());
    r
}

impl ServiceInfo {
    /// The listed form of a service.
    pub fn from_service(service: &Service) -> (r: ServiceInfo)
        ensures
            service_info_of(r, *service),
    {
        let empty_ports: Vec<ServicePort> = Vec::new();
        let ports_in = match &service.data.spec {
            Some(s) => match &s.ports {
                Some(p) => p,
                None => &empty_ports,
            },
            None => &empty_ports,
        };
        assert(ports_in@ == ports_of(service.data.spec));
        let mut ports: Vec<String> = Vec::new();
        let mut k: usize = 0;
        while k < ports_in.len()
            invariant
                k <= ports_in.len(),
                string_views(ports@) == ports_in@.take(k as int).map_values(
                    |p: ServicePort| port_text(p),
                ),
            decreases ports_in.len() - k,
        {
            let ghost before = ports@;
            let t = service_port_text(&ports_in[k]);
            ports.push(t);
            assert(string_views(ports@) =~= string_views(before).push(t@));
            assert(ports_in@.take(k + 1) =~= ports_in@.take(k as int).push(ports_in@[k as int]));
            k += 1;
        }
        assert(ports_in@.take(ports_in.len() as int) =~= ports_in@);
        let (service_type, cluster_ip, external_ips) = match &service.data.spec {
            Some(s) => (
                unwrap_or_empty(&s.type_),
                clone_opt_string(&s.cluster_ip),
                match &s.external_ips {
                    Some(e) => clone_strings(e),
                    None => Vec::new(),
                },
            ),
            None => (String::new(), None, Vec::new()),
        };
        assert(string_views(external_ips@) == match service.data.spec {
            Some(spec) => match spec.external_ips {
                Some(e) => string_views(e@),
                None => Seq::empty(),
            },
            None => Seq::<Seq<char>>::empty(),
        }) by {
            if string_views(external_ips@).len() == 0 {
                assert(string_views(external_ips@) =~= Seq::<Seq<char>>::empty());
            }
        }
        ServiceInfo {
            name: unwrap_or_empty(&service.metadata.name),
            namespace: unwrap_or_empty(&service.metadata.namespace),
            service_type,
            cluster_ip,
            external_ips,
            ports,
            age: service.metadata.creation_timestamp,
        }
    }
}

/// The part of a deployment's specification that listings show.
pub struct DeploymentSpec {
    pub replicas: Option<i32>,
}

/// The part of a deployment's status that listings show.
pub struct DeploymentStatus {
    pub ready_replicas: Option<i32>,
    pub updated_replicas: Option<i32>,
    pub available_replicas: Option<i32>,
}

/// A deployment's specification and status.
pub struct DeploymentObject {
    pub spec: Option<DeploymentSpec>,
    pub status: Option<DeploymentStatus>,
}

/// A deployment.
pub type Deployment = KubeObject<DeploymentObject>;

/// A deployment, as listed.
#[derive(Debug, PartialEq)]
pub struct DeploymentInfo {
    pub name: String,
    pub namespace: String,
    pub ready: String,
    pub up_to_date: i32,
    pub available: i32,
    pub age: Option<Timestamp>,
}

/// A count that may be absent, as zero.
pub open spec fn count_or_zero(c: Option<i32>) -> i32 {
    match c {
        Some(n) => n,
        None => 0,
    }
}

/// Whether a listed deployment is the deployment: its name and namespace,
/// its ready replicas over its desired replicas, its updated and available
/// replicas (zero when not reported) and its creation time.
pub open spec fn deployment_info_of(i: DeploymentInfo, d: Deployment) -> bool {
    let desired = match d.data.spec {
        Some(s) => count_or_zero(s.replicas),
        None => 0,
    };
    let (ready, updated, available) = match d.data.status {
        Some(s) => (
            count_or_zero(s.ready_replicas),
            count_or_zero(s.updated_replicas),
            count_or_zero(s.available_replicas),
        ),
        None => (0i32, 0i32, 0i32),
    };
    &&& i.name@ == text_or_empty(d.metadata.name)
    &&& i.namespace@ == text_or_empty(d.metadata.namespace)
    &&& i.ready@ == decimal_int(ready as int) + "/"@ + decimal_int(desired as int)
    &&& i.up_to_date == updated
    &&& i.available == available
    &&& i.age == d.metadata.creation_timestamp
}

fn or_zero(c: Option<i32>) -> (n: i32)
    ensures
        n == count_or_zero(c),
{
    match c {
        Some(n) => n,
        None => 0,
    }
}

impl DeploymentInfo {
    /// The listed form of a deployment.
    pub fn from_deployment(deployment: &Deployment) -> (r: DeploymentInfo)
        ensures
            deployment_info_of(r, *deployment),
    {
        let desired = match &deployment.data.spec {
            Some(s) => or_zero(s.replicas),
            None => 0,
        };
        let (ready, updated, available) = match &deployment.data.status {
            Some(s) => (or_zero(s.ready_replicas), or_zero(s.updated_replicas), or_zero(s.available_replicas)),
            None => (0, 0, 0),
        };
        let mut ready_text = int_text(ready);
        push_str(&mut ready_text, "/");
        push_str(&mut ready_text, int_text(desired).as_str());
        DeploymentInfo {
            name: unwrap_or_empty(&deployment.metadata.name),
            namespace: unwrap_or_empty(&deployment.metadata.namespace),
            ready: ready_text,
            up_to_date: updated,
            available,
            age: deployment.metadata.creation_timestamp,
        }
    }
}

/// Whether an optional instant can be shown as an age.
pub open spec fn age_shown(age: Option<Timestamp>) -> bool {
    age matches Some(t) ==> representable(t)
}

/// A row of the gateway table.
#[derive(Debug, PartialEq, Eq)]
pub struct GatewayTableRow {
    pub name: String,
    pub namespace: String,
    pub class: String,
    pub address: String,
    pub age: String,
}

/// Whether a row shows a gateway at `now`: its first address, or `<none>`.
pub open spec fn gateway_row_of(r: GatewayTableRow, g: GatewayInfo, now: Timestamp) -> bool {
    &&& r.name@ == g.name@
    &&& r.namespace@ == g.namespace@
    &&& r.class@ == g.gateway_class@
    &&& r.address@ == if g.addresses@.len() > 0 {
        g.addresses@[0]@
    } else {
        "<none>"@
    }
    &&& r.age@ == listing_age(g.age, now)
}

/// The style of table that a format asks for.
pub open spec fn style_of(format: OutputFormat) -> TableStyle {
    match format {
        OutputFormat::TableEmoji => TableStyle::DefaultEmoji,
        OutputFormat::Wide => TableStyle::Wide,
        OutputFormat::WideEmoji => TableStyle::WideEmoji,
        OutputFormat::Kubectl => TableStyle::Kubectl,
        _ => TableStyle::Default,
    }
}

fn table_style(format: OutputFormat) -> (s: TableStyle)
    ensures
        s == style_of(format),
{
    match format {
        OutputFormat::TableEmoji => TableStyle::DefaultEmoji,
        OutputFormat::Wide => TableStyle::Wide,
        OutputFormat::WideEmoji => TableStyle::WideEmoji,
        OutputFormat::Kubectl => TableStyle::Kubectl,
        _ => TableStyle::Default,
    }
}

/// Whether a format is written as JSON or YAML.
pub open spec fn is_document(format: OutputFormat) -> bool {
    format == OutputFormat::Json || format == OutputFormat::Yaml
}

/// Whether a listing writes the items as the document format asks.
pub open spec fn document_listing<R>(l: Listing<R>, format: OutputFormat) -> bool {
    match format {
        OutputFormat::Json => l is Json,
        OutputFormat::Yaml => l is Yaml,
        _ => false,
    }
}

fn document<R>(format: OutputFormat) -> (l: Listing<R>)
    requires
        is_document(format),
    ensures
        document_listing(l, format),
{
    match format {
        OutputFormat::Yaml => Listing::Yaml,
        _ => Listing::Json,
    }
}

fn columns(a: usize, b: usize, c: usize, n: usize) -> (v: Vec<usize>)
    requires
        n <= 3,
    ensures
        v@ == seq![a, b, c].take(n as int),
{
    let mut v: Vec<usize> = Vec::new();
    if n > 0 {
        v.push(a);
    }
    if n > 1 {
        v.push(b);
    }
    if n > 2 {
        v.push(c);
    }
    assert(v@ =~= seq![a, b, c].take(n as int));
    v
}

/// The gateway listing: as a table in every table format, with emoji in
/// the address column for the emoji formats.
pub fn output_gateways(gateways: &Vec<GatewayInfo>, format: OutputFormat, now: Timestamp) -> (r:
    Listing<GatewayTableRow>)
    requires
        representable(now),
        forall|i: int| 0 <= i < gateways@.len() ==> age_shown(#[trigger] gateways@[i].age),
    ensures
        is_document(format) ==> document_listing(r, format),
        !is_document(format) ==> match r {
            Listing::Table(rows, style, cols) => {
                &&& style == style_of(format)
                &&& cols@ == if format == OutputFormat::TableEmoji || format
                    == OutputFormat::WideEmoji {
                    seq![3usize]
                } else {
                    Seq::<usize>::empty()
                }
                &&& rows@.len() == gateways@.len()
                &&& forall|i: int|
                    0 <= i < rows@.len() ==> gateway_row_of(#[trigger] rows@[i], gateways@[i], now)
            },
            _ => false,
        },
{
    match format {
        OutputFormat::Json | OutputFormat::Yaml => return document(format),
        _ => {},
    }
    let mut rows: Vec<GatewayTableRow> = Vec::new();
    let mut k: usize = 0;
    while k < gateways.len()
        invariant
            k <= gateways.len(),
            representable(now),
            forall|i: int| 0 <= i < gateways@.len() ==> age_shown(#[trigger] gateways@[i].age),
            rows@.len() == k,
            forall|i: int| 0 <= i < k ==> gateway_row_of(#[trigger] rows@[i], gateways@[i], now),
        decreases gateways.len() - k,
    {
        let g = &gateways[k];
        assert(age_shown(gateways@[k as int].age));
        let address = if g.addresses.len() > 0 {
            g.addresses[0].clone()
        } else {
            String::from_str("<none>")
        };
        rows.push(
            GatewayTableRow {
                name: g.name.clone(),
                namespace: g.namespace.clone(),
                class: g.gateway_class.clone(),
                address,
                age: format_age_from_option(g.age, now),
            },
        );
        k += 1;
    }
    let emoji = match format {
        OutputFormat::TableEmoji | OutputFormat::WideEmoji => true,
        _ => false,
    };
    let cols = if emoji {
        columns(3, 0, 0, 1)
    } else {
        columns(0, 0, 0, 0)
    };
    Listing::Table(rows, table_style(format), cols)
}

/// A row of the pod table.
#[derive(Debug, PartialEq, Eq)]
pub struct PodTableRow {
    pub name: String,
    pub namespace: String,
    pub ready: String,
    pub status: String,
    pub restarts: i32,
    pub age: String,
}

/// A row of the wide pod table, which adds the node.
#[derive(Debug, PartialEq, Eq)]
pub struct PodWideTableRow {
    pub name: String,
    pub namespace: String,
    pub ready: String,
    pub status: String,
    pub restarts: i32,
    pub node: String,
    pub age: String,
}

/// Whether a row shows a pod at `now`.
pub open spec fn pod_row_of(r: PodTableRow, p: PodInfo, now: Timestamp) -> bool {
    &&& r.name@ == p.name@
    &&& r.namespace@ == p.namespace@
    &&& r.ready@ == p.ready@
    &&& r.status@ == p.status@
    &&& r.restarts == p.restarts
    &&& r.age@ == listing_age(p.age, now)
}

/// Whether a wide row shows a pod at `now`: its node, or `<none>`.
pub open spec fn pod_wide_row_of(r: PodWideTableRow, p: PodInfo, now: Timestamp) -> bool {
    &&& r.name@ == p.name@
    &&& r.namespace@ == p.namespace@
    &&& r.ready@ == p.ready@
    &&& r.status@ == p.status@
    &&& r.restarts == p.restarts
    &&& r.node@ == text_or(p.node, "<none>"@)
    &&& r.age@ == listing_age(p.age, now)
}

/// The pod listing: narrow rows for the plain, emoji and kubectl tables,
/// wide rows for the wide ones.
pub enum PodListing {
    Narrow(Listing<PodTableRow>),
    Wide(Listing<PodWideTableRow>),
}

fn pod_row(p: &PodInfo, now: Timestamp) -> (r: PodTableRow)
    requires
        representable(now),
        age_shown(p.age),
    ensures
        pod_row_of(r, *p, now),
{
    PodTableRow {
        name: p.name.clone(),
        namespace: p.namespace.clone(),
        ready: p.ready.clone(),
        status: p.status.clone(),
        restarts: p.restarts,
        age: format_age_from_option(p.age, now),
    }
}

fn pod_wide_row(p: &PodInfo, now: Timestamp) -> (r: PodWideTableRow)
    requires
        representable(now),
        age_shown(p.age),
    ensures
        pod_wide_row_of(r, *p, now),
{
    PodWideTableRow {
        name: p.name.clone(),
        namespace: p.namespace.clone(),
        ready: p.ready.clone(),
        status: p.status.clone(),
        restarts: p.restarts,
        node: unwrap_or_text(&p.node, "<none>"),
        age: format_age_from_option(p.age, now),
    }
}

/// The pod listing in a format: with emoji in the ready, status and
/// restarts columns for the emoji formats.
pub fn output_pods(pods: &Vec<PodInfo>, format: OutputFormat, now: Timestamp) -> (r: PodListing)
    requires
        representable(now),
        forall|i: int| 0 <= i < pods@.len() ==> age_shown(#[trigger] pods@[i].age),
    ensures
        is_document(format) ==> (r matches PodListing::Narrow(l) && document_listing(l, format)),
        (format == OutputFormat::Table || format == OutputFormat::TableEmoji || format
            == OutputFormat::Kubectl) ==> match r {
            PodListing::Narrow(Listing::Table(rows, style, cols)) => {
                &&& style == style_of(format)
                &&& cols@ == if format == OutputFormat::TableEmoji {
                    seq![2usize, 3usize, 4usize]
                } else {
                    Seq::<usize>::empty()
                }
                &&& rows@.len() == pods@.len()
                &&& forall|i: int| 0 <= i < rows@.len() ==> pod_row_of(#[trigger] rows@[i], pods@[i], now)
            },
            _ => false,
        },
        (format == OutputFormat::Wide || format == OutputFormat::WideEmoji) ==> match r {
            PodListing::Wide(Listing::Table(rows, style, cols)) => {
                &&& style == style_of(format)
                &&& cols@ == if format == OutputFormat::WideEmoji {
                    seq![2usize, 3usize, 4usize]
                } else {
                    Seq::<usize>::empty()
                }
                &&& rows@.len() == pods@.len()
                &&& forall|i: int|
                    0 <= i < rows@.len() ==> pod_wide_row_of(#[trigger] rows@[i], pods@[i], now)
            },
            _ => false,
        },
{
    match format {
        OutputFormat::Json | OutputFormat::Yaml => return PodListing::Narrow(document(format)),
        _ => {},
    }
    let emoji = match format {
        OutputFormat::TableEmoji | OutputFormat::WideEmoji => true,
        _ => false,
    };
    let cols = if emoji {
        columns(2, 3, 4, 3)
    } else {
        columns(0, 0, 0, 0)
    };
    match format {
        OutputFormat::Wide | OutputFormat::WideEmoji => {
            let mut rows: Vec<PodWideTableRow> = Vec::new();
            let mut k: usize = 0;
            while k < pods.len()
                invariant
                    k <= pods.len(),
                    representable(now),
                    forall|i: int| 0 <= i < pods@.len() ==> age_shown(#[trigger] pods@[i].age),
                    rows@.len() == k,
                    forall|i: int| 0 <= i < k ==> pod_wide_row_of(#[trigger] rows@[i], pods@[i], now),
                decreases pods.len() - k,
            {
                assert(age_shown(pods@[k as int].age));
                rows.push(pod_wide_row(&pods[k], now));
                k += 1;
            }
            PodListing::Wide(Listing::Table(rows, table_style(format), cols))
        },
        _ => {
            let mut rows: Vec<PodTableRow> = Vec::new();
            let mut k: usize = 0;
            while k < pods.len()
                invariant
                    k <= pods.len(),
                    representable(now),
                    forall|i: int| 0 <= i < pods@.len() ==> age_shown(#[trigger] pods@[i].age),
                    rows@.len() == k,
                    forall|i: int| 0 <= i < k ==> pod_row_of(#[trigger] rows@[i], pods@[i], now),
                decreases pods.len() - k,
            {
                assert(age_shown(pods@[k as int].age));
                rows.push(pod_row(&pods[k], now));
                k += 1;
            }
            PodListing::Narrow(Listing::Table(rows, table_style(format), cols))
        },
    }
}

/// A row of the service table.
#[derive(Debug, PartialEq, Eq)]
pub struct ServiceTableRow {
    pub name: String,
    pub namespace: String,
    pub type_: String,
    pub cluster_ip: String,
    pub ports: String,
    pub age: String,
}

/// A row of the wide service table, which adds the external addresses.
#[derive(Debug, PartialEq, Eq)]
pub struct ServiceWideTableRow {
    pub name: String,
    pub namespace: String,
    pub type_: String,
    pub cluster_ip: String,
    pub external_ip: String,
    pub ports: String,
    pub age: String,
}

/// Whether a row shows a service at `now`: its ports joined by commas, its
/// cluster address or `<none>`.
pub open spec fn service_row_of(r: ServiceTableRow, s: ServiceInfo, now: Timestamp) -> bool {
    &&& r.name@ == s.name@
    &&& r.namespace@ == s.namespace@
    &&& r.type_@ == s.service_type@
    &&& r.cluster_ip@ == text_or(s.cluster_ip, "<none>"@)
    &&& r.ports@ == joined(string_views(s.ports@), ","@)
    &&& r.age@ == listing_age(s.age, now)
}

/// Whether a wide row shows a service at `now`: also its external
/// addresses joined by commas, or `<none>`.
pub open spec fn service_wide_row_of(r: ServiceWideTableRow, s: ServiceInfo, now: Timestamp) -> bool {
    &&& r.name@ == s.name@
    &&& r.namespace@ == s.namespace@
    &&& r.type_@ == s.service_type@
    &&& r.cluster_ip@ == text_or(s.cluster_ip, "<none>"@)
    &&& r.external_ip@ == if s.external_ips@.len() == 0 {
        "<none>"@
    } else {
        joined(string_views(s.external_ips@), ","@)
    }
    &&& r.ports@ == joined(string_views(s.ports@), ","@)
    &&& r.age@ == listing_age(s.age, now)
}

/// The service listing: narrow rows for the plain, emoji and kubectl
/// tables, wide rows for the wide ones.
pub enum ServiceListing {
    Narrow(Listing<ServiceTableRow>),
    Wide(Listing<ServiceWideTableRow>),
}

fn service_row(s: &ServiceInfo, now: Timestamp) -> (r: ServiceTableRow)
    requires
        representable(now),
        age_shown(s.age),
    ensures
        service_row_of(r, *s, now),
{
    ServiceTableRow {
        name: s.name.clone(),
        namespace: s.namespace.clone(),
        type_: s.service_type.clone(),
        cluster_ip: unwrap_or_text(&s.cluster_ip, "<none>"),
        ports: join(&s.ports, ","),
        age: format_age_from_option(s.age, now),
    }
}

fn service_wide_row(s: &ServiceInfo, now: Timestamp) -> (r: ServiceWideTableRow)
    requires
        representable(now),
        age_shown(s.age),
    ensures
        service_wide_row_of(r, *s, now),
{
    let external_ip = if s.external_ips.len() == 0 {
        String::from_str("<none>")
    } else {
        join(&s.external_ips, ",")
    };
    ServiceWideTableRow {
        name: s.name.clone(),
        namespace: s.namespace.clone(),
        type_: s.service_type.clone(),
        cluster_ip: unwrap_or_text(&s.cluster_ip, "<none>"),
        external_ip,
        ports: join(&s.ports, ","),
        age: format_age_from_option(s.age, now),
    }
}

/// The service listing in a format; no column gets emoji.
pub fn output_services(services: &Vec<ServiceInfo>, format: OutputFormat, now: Timestamp) -> (r:
    ServiceListing)
    requires
        representable(now),
        forall|i: int| 0 <= i < services@.len() ==> age_shown(#[trigger] services@[i].age),
    ensures
        is_document(format) ==> (r matches ServiceListing::Narrow(l) && document_listing(l, format)),
        (format == OutputFormat::Table || format == OutputFormat::TableEmoji || format
            == OutputFormat::Kubectl) ==> match r {
            ServiceListing::Narrow(Listing::Table(rows, style, cols)) => {
                &&& style == style_of(format)
                &&& cols@ == Seq::<usize>::empty()
                &&& rows@.len() == services@.len()
                &&& forall|i: int|
                    0 <= i < rows@.len() ==> service_row_of(#[trigger] rows@[i], services@[i], now)
            },
            _ => false,
        },
        (format == OutputFormat::Wide || format == OutputFormat::WideEmoji) ==> match r {
            ServiceListing::Wide(Listing::Table(rows, style, cols)) => {
                &&& style == style_of(format)
                &&& cols@ == Seq::<usize>::empty()
                &&& rows@.len() == services@.len()
                &&& forall|i: int|
                    0 <= i < rows@.len() ==> service_wide_row_of(
                        #[trigger] rows@[i],
                        services@[i],
                        now,
                    )
            },
            _ => false,
        },
{
    match format {
        OutputFormat::Json | OutputFormat::Yaml => return ServiceListing::Narrow(document(format)),
        _ => {},
    }
    let cols = columns(0, 0, 0, 0);
    match format {
        OutputFormat::Wide | OutputFormat::WideEmoji => {
            let mut rows: Vec<ServiceWideTableRow> = Vec::new();
            let mut k: usize = 0;
            while k < services.len()
                invariant
                    k <= services.len(),
                    representable(now),
                    forall|i: int| 0 <= i < services@.len() ==> age_shown(#[trigger] services@[i].age),
                    rows@.len() == k,
                    forall|i: int|
                        0 <= i < k ==> service_wide_row_of(#[trigger] rows@[i], services@[i], now),
                decreases services.len() - k,
            {
                assert(age_shown(services@[k as int].age));
                rows.push(service_wide_row(&services[k], now));
                k += 1;
            }
            ServiceListing::Wide(Listing::Table(rows, table_style(format), cols))
        },
        _ => {
            let mut rows: Vec<ServiceTableRow> = Vec::new();
            let mut k: usize = 0;
            while k < services.len()
                invariant
                    k <= services.len(),
                    representable(now),
                    forall|i: int| 0 <= i < services@.len() ==> age_shown(#[trigger] services@[i].age),
                    rows@.len() == k,
                    forall|i: int| 0 <= i < k ==> service_row_of(#[trigger] rows@[i], services@[i], now),
                decreases services.len() - k,
            {
                assert(age_shown(services@[k as int].age));
                rows.push(service_row(&services[k], now));
                k += 1;
            }
            ServiceListing::Narrow(Listing::Table(rows, table_style(format), cols))
        },
    }
}

/// A row of the deployment table.
#[derive(Debug, PartialEq, Eq)]
pub struct DeploymentTableRow {
    pub name: String,
    pub namespace: String,
    pub ready: String,
    pub up_to_date: i32,
    pub available: i32,
    pub age: String,
}

/// Whether a row shows a deployment at `now`.
pub open spec fn deployment_row_of(r: DeploymentTableRow, d: DeploymentInfo, now: Timestamp) -> bool {
    &&& r.name@ == d.name@
    &&& r.namespace@ == d.namespace@
    &&& r.ready@ == d.ready@
    &&& r.up_to_date == d.up_to_date
    &&& r.available == d.available
    &&& r.age@ == listing_age(d.age, now)
}

/// Whether a listing lists the deployments in a format, at `now`: as a
/// document for the document formats, else as a table of one row per
/// deployment, in the table style and with the emoji columns of the format.
pub open spec fn deployments_listing(
    r: Listing<DeploymentTableRow>,
    deployments: Seq<DeploymentInfo>,
    format: OutputFormat,
    now: Timestamp,
) -> bool {
    &&& is_document(format) ==> document_listing(r, format)
    &&& !is_document(format) ==> match r {
        Listing::Table(rows, style, cols) => {
            &&& style == match format {
                OutputFormat::TableEmoji => TableStyle::DefaultEmoji,
                OutputFormat::Kubectl => TableStyle::Kubectl,
                _ => TableStyle::Default,
            }
            &&& cols@ == if format == OutputFormat::TableEmoji {
                seq![2usize]
            } else {
                Seq::<usize>::empty()
            }
            &&& rows@.len() == deployments.len()
            &&& forall|i: int|
                0 <= i < rows@.len() ==> deployment_row_of(
                    #[trigger] rows@[i],
                    deployments[i],
                    now,
                )
        },
        _ => false,
    }
}

/// Whether two rows show the same texts and numbers.
pub open spec fn same_deployment_row(a: DeploymentTableRow, b: DeploymentTableRow) -> bool {
    &&& a.name@ == b.name@
    &&& a.namespace@ == b.namespace@
    &&& a.ready@ == b.ready@
    &&& a.up_to_date == b.up_to_date
    &&& a.available == b.available
    &&& a.age@ == b.age@
}

/// The wide formats list deployments exactly as the plain table does: the
/// same style, the same emoji columns and the same rows.
pub proof fn law_wide_deployments_as_table(
    deployments: Seq<DeploymentInfo>,
    format: OutputFormat,
    now: Timestamp,
    wide: Listing<DeploymentTableRow>,
    table: Listing<DeploymentTableRow>,
)
    requires
        format == OutputFormat::Wide || format == OutputFormat::WideEmoji,
        deployments_listing(wide, deployments, format, now),
        deployments_listing(table, deployments, OutputFormat::Table, now),
    ensures
        match (wide, table) {
            (Listing::Table(r1, s1, c1), Listing::Table(r2, s2, c2)) => {
                &&& s1 == s2
                &&& c1@ == c2@
                &&& r1@.len() == r2@.len()
                &&& forall|i: int| 0 <= i < r1@.len() ==> same_deployment_row(#[trigger] r1@[i], r2@[i])
            },
            _ => false,
        },
{
    match (wide, table) {
        (Listing::Table(r1, s1, c1), Listing::Table(r2, s2, c2)) => {
            assert forall|i: int| 0 <= i < r1@.len() implies same_deployment_row(#[trigger] r1@[i], r2@[i]) by {
                assert(deployment_row_of(r1@[i], deployments[i], now));
                assert(deployment_row_of(r2@[i], deployments[i], now));
            }
        },
        _ => {},
    }
}

/// The deployment listing in a format: the wide formats list as the plain
/// table does, and the emoji table marks the ready column.
pub fn output_deployments(deployments: &Vec<DeploymentInfo>, format: OutputFormat, now: Timestamp) -> (r:
    Listing<DeploymentTableRow>)
    requires
        representable(now),
        forall|i: int| 0 <= i < deployments@.len() ==> age_shown(#[trigger] deployments@[i].age),
    ensures
        deployments_listing(r, deployments@, format, now),
{
    let style = match format {
        OutputFormat::Json | OutputFormat::Yaml => return document(format),
        OutputFormat::TableEmoji => TableStyle::DefaultEmoji,
        OutputFormat::Kubectl => TableStyle::Kubectl,
        _ => TableStyle::Default,
    };
    let mut rows: Vec<DeploymentTableRow> = Vec::new();
    let mut k: usize = 0;
    while k < deployments.len()
        invariant
            k <= deployments.len(),
            representable(now),
            forall|i: int| 0 <= i < deployments@.len() ==> age_shown(#[trigger] deployments@[i].age),
            rows@.len() == k,
            forall|i: int| 0 <= i < k ==> deployment_row_of(#[trigger] rows@[i], deployments@[i], now),
        decreases deployments.len() - k,
    {
        let d = &deployments[k];
        assert(age_shown(deployments@[k as int].age));
        rows.push(
            DeploymentTableRow {
                name: d.name.clone(),
                namespace: d.namespace.clone(),
                ready: d.ready.clone(),
                up_to_date: d.up_to_date,
                available: d.available,
                age: format_age_from_option(d.age, now),
            },
        );
        k += 1;
    }
    let cols = match format {
        OutputFormat::TableEmoji => columns(2, 0, 0, 1),
        _ => columns(0, 0, 0, 0),
    };
    assert(rows@.len() == deployments@.len());
    assert(forall|i: int| 0 <= i < rows@.len() ==> deployment_row_of(#[trigger] rows@[i], deployments@[i], now));
    assert(!is_document(format));
    assert(style == match format {
        OutputFormat::TableEmoji => TableStyle::DefaultEmoji,
        OutputFormat::Kubectl => TableStyle::Kubectl,
        _ => TableStyle::Default,
    });
    assert(cols@ == if format == OutputFormat::TableEmoji {
        seq![2usize]
    } else {
        Seq::<usize>::empty()
    });
    let r = Listing::Table(rows, style, cols);
    assert(deployments_listing(r, deployments@, format, now));
    r
}

/// Where a listing looks for objects: in every namespace, or in one.
#[derive(Debug, PartialEq, Eq)]
pub enum ListScope {
    All,
    Namespaced(String),
}

/// Lists across all namespaces when asked to or when no namespace is
/// given, else in the given namespace.
pub fn list_scope(namespace: &Option<String>, all_namespaces: bool) -> (r: ListScope)
    ensures
        match r {
            ListScope::All => all_namespaces || namespace is None,
            ListScope::Namespaced(ns) => !all_namespaces && opt_view(*namespace) == Some(ns@),
        },
{
    if all_namespaces {
        return ListScope::All;
    }
    match namespace {
        Some(ns) => ListScope::Namespaced(ns.clone()),
        None => ListScope::All,
    }
}

/// The label selector of the objects that belong to a gateway, or, when
/// none is named, to the product.
pub fn gateway_label_selector(gateway: &Option<String>) -> (r: String)
    ensures
        r@ == match gateway {
            Some(g) => "gateway.networking.k8s.io/gateway="@ + g@,
            None => "app.kubernetes.io/part-of=vale-gateway"@,
        },
{
    match gateway {
        Some(g) => {
            let mut r = String::from_str("gateway.networking.k8s.io/gateway=");
            push_str(&mut r, g.as_str());
            r
        },
        None => String::from_str("app.kubernetes.io/part-of=vale-gateway"),
    }
}

/// Whether an object is kept by a name filter: every object when no name
/// is given, else those of that name.
pub open spec fn name_kept(meta: ObjectMeta, name: Option<Seq<char>>) -> bool {
    match name {
        Some(n) => opt_view(meta.name) == Some(n),
        None => true,
    }
}

/// The objects kept by a name filter, in order.
pub open spec fn named<T>(items: Seq<KubeObject<T>>, name: Option<Seq<char>>) -> Seq<KubeObject<T>>
    decreases items.len(),
{
    if items.len() == 0 {
        Seq::empty()
    } else {
        (if name_kept(items[0].metadata, name) {
            seq![items[0]]
        } else {
            Seq::empty()
        }) + named(items.drop_first(), name)
    }
}

fn keeps(meta: &ObjectMeta, name: &Option<String>) -> (b: bool)
    ensures
        b == name_kept(*meta, opt_view(*name)),
{
    match name {
        None => true,
        Some(n) => match &meta.name {
            Some(m) => m.eq(n),
            None => false,
        },
    }
}

/// The objects of the given name, in order; all of them when no name is
/// given.
pub fn filter_by_name<T>(items: Vec<KubeObject<T>>, name: &Option<String>) -> (r: Vec<KubeObject<T>>)
    ensures
        r@ == named(items@, opt_view(*name)),
{
    let ghost all = items@;
    let mut rest = items;
    let mut out: Vec<KubeObject<T>> = Vec::new();
    while rest.len() > 0
        invariant
            out@ + named(rest@, opt_view(*name)) == named(all, opt_view(*name)),
        decreases rest.len(),
    {
        let ghost before = rest@;
        let o = rest.remove(0);
        assert(rest@ =~= before.drop_first());
        if keeps(&o.metadata, name) {
            let ghost out_before = out@;
            out.push(o);
            assert(out@ + named(rest@, opt_view(*name)) =~= out_before + named(before, opt_view(*name)));
        } else {
            assert(out@ + named(rest@, opt_view(*name)) =~= out@ + named(before, opt_view(*name)));
        }
    }
    assert(out@ + named(rest@, opt_view(*name)) =~= out@);
    out
}

} // verus!
