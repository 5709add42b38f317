//! HTTP routes as the Gateway API describes them, and the views of them that
//! the control plane derives: the routes of active gateways, the routes of
//! each gateway, and the services they send traffic to.
use crate::backends::{HttpRouteBackend, HttpRouteBackendView};
use crate::kinds::{gateway_kind, kind_view, service_kind};
use crate::object_ref::{KubeObject, ObjectRef, ObjectRefView};
use crate::objects::{arc_clone, fold_by_ref, fold_by_uid, items_view, iter_items, ObjectItem, Objects};
use crate::ref_map::RefMap;
use crate::text::{clone_opt_string, opt_view, str_equals};
use std::sync::Arc;
use vstd::prelude::*;
use vstd::string::*;

verus! {

/// A header name and value.
#[derive(Debug, PartialEq, Eq)]
pub struct HttpHeader {
    pub name: String,
    pub value: String,
}

impl Clone for HttpHeader {
    fn clone(&self) -> (r: Self)
        ensures
            r == *self,
    {
        HttpHeader { name: self.name.clone(), value: self.value.clone() }
    }
}

/// A header modifier filter: headers to add, to remove and to set.
pub struct HeaderModifierSpec {
    pub add: Option<Vec<HttpHeader>>,
    pub remove: Option<Vec<String>>,
    pub set: Option<Vec<HttpHeader>>,
}

/// How a path is rewritten.
#[derive(Debug, Clone, Copy, PartialEq, Eq)]
pub enum PathModifierType {
    ReplaceFullPath,
    ReplacePrefixMatch,
}

/// A path rewrite of a redirect or a URL rewrite filter.
pub struct PathModifierSpec {
    pub type_: PathModifierType,
    pub replace_full_path: Option<String>,
    pub replace_prefix_match: Option<String>,
}

/// The scheme of a redirect.
#[derive(Debug, Clone, Copy, PartialEq, Eq)]
pub enum RedirectScheme {
    Http,
    Https,
}

/// A request redirect filter.
pub struct RequestRedirectSpec {
    pub hostname: Option<String>,
    pub path: Option<PathModifierSpec>,
    pub port: Option<i32>,
    pub scheme: Option<RedirectScheme>,
    pub status_code: Option<i64>,
}

/// A URL rewrite filter.
pub struct UrlRewriteSpec {
    pub hostname: Option<String>,
    pub path: Option<PathModifierSpec>,
}

/// A reference to a filter defined by an extension.
pub struct ExtensionRefSpec {
    pub group: String,
    pub kind: String,
    pub name: String,
}

/// A filter of a route rule; each part that is present applies.
pub struct RouteFilterSpec {
    pub request_header_modifier: Option<HeaderModifierSpec>,
    pub response_header_modifier: Option<HeaderModifierSpec>,
    pub request_redirect: Option<RequestRedirectSpec>,
    pub url_rewrite: Option<UrlRewriteSpec>,
    pub extension_ref: Option<ExtensionRefSpec>,
}

/// An HTTP method that a rule matches.
#[derive(Debug, Clone, Copy, PartialEq, Eq)]
pub enum HttpMethod {
    Get,
    Head,
    Post,
    Put,
    Delete,
    Connect,
    Options,
    Trace,
    Patch,
}

/// How a path is matched.
#[derive(Debug, Clone, Copy, PartialEq, Eq)]
pub enum PathMatchType {
    Exact,
    PathPrefix,
    RegularExpression,
}

/// A path match of a rule.
pub struct PathMatchSpec {
    pub type_: Option<PathMatchType>,
    pub value: Option<String>,
}

/// How a header or a query parameter is matched.
#[derive(Debug, Clone, Copy, PartialEq, Eq)]
pub enum ValueMatchType {
    Exact,
    RegularExpression,
}

/// A header or query parameter match of a rule.
pub struct NameValueMatchSpec {
    pub name: String,
    pub type_: Option<ValueMatchType>,
    pub value: String,
}

/// A match of a rule: all present parts must hold.
pub struct RouteMatchSpec {
    pub headers: Option<Vec<NameValueMatchSpec>>,
    pub method: Option<HttpMethod>,
    pub path: Option<PathMatchSpec>,
    pub query_params: Option<Vec<NameValueMatchSpec>>,
}

/// A backend that a rule sends traffic to.
pub struct BackendRefSpec {
    pub kind: Option<String>,
    pub name: String,
    pub namespace: Option<String>,
    pub port: Option<i32>,
    pub weight: Option<i32>,
}

/// A rule of a route.
pub struct RouteRuleSpec {
    pub backend_refs: Option<Vec<BackendRefSpec>>,
    pub filters: Option<Vec<RouteFilterSpec>>,
    pub matches: Option<Vec<RouteMatchSpec>>,
}

/// A gateway that a route attaches to.
pub struct ParentRefSpec {
    pub name: String,
    pub namespace: Option<String>,
}

/// The specification of an HTTP route.
pub struct HttpRouteSpec {
    pub hostnames: Option<Vec<String>>,
    pub parent_refs: Option<Vec<ParentRefSpec>>,
    pub rules: Option<Vec<RouteRuleSpec>>,
}

/// An HTTP route object.
pub type HttpRoute = KubeObject<HttpRouteSpec>;

/// The elements of an optional list; none for an absent one.
pub open spec fn flat<T>(o: Option<Vec<T>>) -> Seq<T> {
    match o {
        Some(v) => v@,
        None => Seq::empty(),
    }
}

/// The parent references of a route.
pub open spec fn parents_of(r: Arc<HttpRoute>) -> Seq<ParentRefSpec> {
    flat(r.data.parent_refs)
}

/// The rules of a route.
pub open spec fn rules_of(r: Arc<HttpRoute>) -> Seq<RouteRuleSpec> {
    flat(r.data.rules)
}

/// The reference to the gateway that a parent reference names: its namespace
/// defaults to the given one.
pub open spec fn parent_gateway_ref(p: ParentRefSpec, default_namespace: Option<Seq<char>>) -> ObjectRefView {
    ObjectRefView {
        kind: "Gateway"@,
        version: "v1"@,
        group: Some("gateway.networking.k8s.io"@),
        namespace: match p.namespace {
            Some(n) => Some(n@),
            None => default_namespace,
        },
        name: p.name@,
    }
}

/// The reference to the gateway that a parent reference of a route names.
pub fn parent_gateway(p: &ParentRefSpec, default_namespace: &Option<String>) -> (r: ObjectRef)
    ensures
        r@ == parent_gateway_ref(*p, opt_view(*default_namespace)),
{
    let namespace = match &p.namespace {
        Some(n) => Some(n.clone()),
        None => clone_opt_string(default_namespace),
    };
    let r = ObjectRef::for_kind(&gateway_kind(), namespace, p.name.clone());
    proof {
        reveal_strlit("gateway.networking.k8s.io");
    }
    r
}

/// Whether some parent reference of the route names a gateway among the
/// given ones; parent references without a namespace name one in the route's
/// namespace.
pub open spec fn attached_to_any(
    route_namespace: Option<Seq<char>>,
    parents: Seq<ParentRefSpec>,
    gateways: Set<ObjectRefView>,
) -> bool {
    exists|i: int|
        0 <= i < parents.len() && gateways.contains(
            #[trigger] parent_gateway_ref(parents[i], route_namespace),
        )
}

/// The items of the routes that attach to some given gateway, in order.
pub open spec fn routes_of_gateways(
    items: Seq<(ObjectRefView, Seq<char>, Arc<HttpRoute>)>,
    gateways: Set<ObjectRefView>,
) -> Seq<(ObjectRefView, Seq<char>, Arc<HttpRoute>)>
    decreases items.len(),
{
    if items.len() == 0 {
        Seq::empty()
    } else {
        let rest = routes_of_gateways(items.drop_last(), gateways);
        let (r, u, route) = items.last();
        if attached_to_any(r.namespace, flat(route.data.parent_refs), gateways) {
            rest.push((r, u, route))
        } else {
            rest
        }
    }
}

/// The routes that attach to an active gateway.
pub fn filter_http_routes<G>(gateways: &Objects<G>, http_routes: &Objects<HttpRouteSpec>) -> (r: Objects<HttpRouteSpec>)
    requires
        gateways.wf(),
        http_routes.wf(),
    ensures
        r.wf(),
        r.by_ref_map() == fold_by_ref(
            routes_of_gateways(iter_items(http_routes.ref_order()), gateways.by_ref_map().dom()),
        ),
        r.by_uid_map() == fold_by_uid(
            routes_of_gateways(iter_items(http_routes.ref_order()), gateways.by_ref_map().dom()),
        ),
{
    let items = http_routes.iter();
    let ghost all = iter_items(http_routes.ref_order());
    let ghost active = gateways.by_ref_map().dom();
    let mut kept: Vec<ObjectItem<HttpRouteSpec>> = Vec::new();
    let mut i: usize = 0;
    while i < items.len()
        invariant
            i <= items.len(),
            gateways.wf(),
            active == gateways.by_ref_map().dom(),
            items_view(items@) == all,
            items_view(kept@) == routes_of_gateways(all.take(i as int), active),
        decreases items.len() - i,
    {
        assert(all.take(i + 1).drop_last() =~= all.take(i as int));
        let (route_ref, unique_id, route) = &items[i];
        assert(all[i as int] == (route_ref@, unique_id@, *route));
        let mut matched = false;
        let ghost parents = parents_of(*route);
        match &route.data.parent_refs {
            Some(parent_refs) => {
                let mut j: usize = 0;
                while j < parent_refs.len()
                    invariant
                        j <= parent_refs.len(),
                        gateways.wf(),
                        active == gateways.by_ref_map().dom(),
                        parents == parent_refs@,
                        matched == exists|k: int|
                            0 <= k < j && active.contains(
                                #[trigger] parent_gateway_ref(parents[k], route_ref@.namespace),
                            ),
                    decreases parent_refs.len() - j,
                {
                    let gateway_ref = parent_gateway(&parent_refs[j], route_ref.namespace());
                    if gateways.contains_by_ref(&gateway_ref) {
                        matched = true;
                    }
                    assert(gateway_ref@ == parent_gateway_ref(parents[j as int], route_ref@.namespace));
                    j += 1;
                }
            },
            None => {},
        }
        if matched {
            let ghost before = kept@;
            kept.push((route_ref.clone(), unique_id.clone(), arc_clone(route)));
            assert(items_view(kept@) =~= items_view(before).push(all[i as int]));
        }
        i += 1;
    }
    assert(all.take(items.len() as int) =~= all);
    Objects::from_items(kept)
}

/// The routes of each gateway, found by going through the routes in order
/// and, for each, through its parent references.
pub open spec fn routes_by_gateway(items: Seq<(ObjectRefView, Seq<char>, Arc<HttpRoute>)>) -> Map<
    ObjectRefView,
    Seq<Arc<HttpRoute>>,
>
    decreases items.len(),
{
    if items.len() == 0 {
        Map::empty()
    } else {
        let (r, u, route) = items.last();
        add_route_to_parents(
            routes_by_gateway(items.drop_last()),
            flat(route.data.parent_refs),
            r.namespace,
            route,
        )
    }
}

/// Appends a route to the list of each gateway that a parent reference names.
pub open spec fn add_route_to_parents(
    m: Map<ObjectRefView, Seq<Arc<HttpRoute>>>,
    parents: Seq<ParentRefSpec>,
    namespace: Option<Seq<char>>,
    route: Arc<HttpRoute>,
) -> Map<ObjectRefView, Seq<Arc<HttpRoute>>>
    decreases parents.len(),
{
    if parents.len() == 0 {
        m
    } else {
        let before = add_route_to_parents(m, parents.drop_last(), namespace, route);
        let g = parent_gateway_ref(parents.last(), namespace);
        let list = if before.dom().contains(g) {
            before[g]
        } else {
            Seq::empty()
        };
        before.insert(g, list.push(route))
    }
}

/// The views of the lists held in a map of route lists.
pub open spec fn route_lists(m: Map<ObjectRefView, Vec<Arc<HttpRoute>>>) -> Map<ObjectRefView, Seq<Arc<HttpRoute>>> {
    m.map_values(|v: Vec<Arc<HttpRoute>>| v@)
}

/// The routes that name each gateway as a parent, each listed once per
/// parent reference that names it.
pub fn collect_http_routes_by_gateway(http_routes: &Objects<HttpRouteSpec>) -> (r: RefMap<Vec<Arc<HttpRoute>>>)
    requires
        http_routes.wf(),
    ensures
        r.wf(),
        route_lists(r.map()) == routes_by_gateway(iter_items(http_routes.ref_order())),
{
    let items = http_routes.iter();
    let ghost all = iter_items(http_routes.ref_order());
    let mut r: RefMap<Vec<Arc<HttpRoute>>> = RefMap::new();
    let mut i: usize = 0;
    assert(route_lists(r.map()) =~= Map::empty());
    while i < items.len()
        invariant
            i <= items.len(),
            r.wf(),
            items_view(items@) == all,
            route_lists(r.map()) == routes_by_gateway(all.take(i as int)),
        decreases items.len() - i,
    {
        assert(all.take(i + 1).drop_last() =~= all.take(i as int));
        let (route_ref, _, route) = &items[i];
        let ghost start = route_lists(r.map());
        let ghost parents = parents_of(*route);
        match &route.data.parent_refs {
            Some(parent_refs) => {
                let mut j: usize = 0;
                while j < parent_refs.len()
                    invariant
                        j <= parent_refs.len(),
                        r.wf(),
                        parents == parent_refs@,
                        route_lists(r.map()) == add_route_to_parents(
                            start,
                            parents.take(j as int),
                            route_ref@.namespace,
                            *route,
                        ),
                    decreases parent_refs.len() - j,
                {
                    assert(parents.take(j + 1).drop_last() =~= parents.take(j as int));
                    let gateway_ref = parent_gateway(&parent_refs[j], route_ref.namespace());
                    let mut list: Vec<Arc<HttpRoute>> = match r.get(&gateway_ref) {
                        Some(existing) => {
                            let mut copy: Vec<Arc<HttpRoute>> = Vec::new();
                            let mut k: usize = 0;
                            while k < existing.len()
                                invariant
                                    k <= existing.len(),
                                    copy@ == existing@.take(k as int),
                                decreases existing.len() - k,
                            {
                                copy.push(arc_clone(&existing[k]));
                                k += 1;
                                assert(copy@ =~= existing@.take(k as int));
                            }
                            assert(existing@.take(existing.len() as int) =~= existing@);
                            copy
                        },
                        None => Vec::new(),
                    };
                    list.push(arc_clone(route));
                    let ghost k = gateway_ref@;
                    r.insert(gateway_ref, list);
                    assert(route_lists(r.map()) =~= add_route_to_parents(
                        start,
                        parents.take(j + 1),
                        route_ref@.namespace,
                        *route,
                    ));
                    j += 1;
                }
                assert(parents.take(parent_refs.len() as int) =~= parents);
            },
            None => {
                assert(parents.take(0) =~= parents);
            },
        }
        assert(all[i as int].2 == *route);
        i += 1;
    }
    assert(all.take(items.len() as int) =~= all);
    r
}

/// The reference to the service that a backend reference of a route names:
/// its namespace defaults to the route's.
pub open spec fn backend_service_ref(b: BackendRefSpec, route_namespace: Option<Seq<char>>) -> ObjectRefView {
    ObjectRefView {
        kind: "Service"@,
        version: "v1"@,
        group: None,
        namespace: match b.namespace {
            Some(n) => Some(n@),
            None => route_namespace,
        },
        name: b.name@,
    }
}

/// Whether a backend reference names a `Service`.
pub open spec fn names_service(b: BackendRefSpec) -> bool {
    b.kind is Some && b.kind->0@ == "Service"@
}

/// The port of a backend reference as a port number; the caller ensures
/// that it fits in sixteen bits.
pub open spec fn backend_port(b: BackendRefSpec) -> Option<u16> {
    match b.port {
        Some(p) => Some(p as u16),
        None => None,
    }
}

/// Every port that a `Service` backend reference gives fits in sixteen bits.
pub open spec fn refs_ports_fit(refs: Seq<BackendRefSpec>) -> bool {
    forall|k: int|
        0 <= k < refs.len() && names_service(#[trigger] refs[k]) && refs[k].port is Some ==> 0
            <= refs[k].port->0 <= 65535
}

/// Every port that a `Service` backend reference of the rules gives fits in
/// sixteen bits.
pub open spec fn rules_ports_fit(rules: Seq<RouteRuleSpec>) -> bool {
    forall|j: int| 0 <= j < rules.len() ==> refs_ports_fit(flat(#[trigger] rules[j].backend_refs))
}

/// Every port that a `Service` backend reference of the routes gives fits in
/// sixteen bits.
pub open spec fn service_ports_fit(items: Seq<(ObjectRefView, Seq<char>, Arc<HttpRoute>)>) -> bool {
    forall|i: int| 0 <= i < items.len() ==> rules_ports_fit(rules_of(#[trigger] items[i].2))
}

/// Records the service backends of a list of backend references.
pub open spec fn add_backend_refs(
    m: Map<ObjectRefView, HttpRouteBackendView>,
    refs: Seq<BackendRefSpec>,
    namespace: Option<Seq<char>>,
) -> Map<ObjectRefView, HttpRouteBackendView>
    decreases refs.len(),
{
    if refs.len() == 0 {
        m
    } else {
        let before = add_backend_refs(m, refs.drop_last(), namespace);
        let b = refs.last();
        if names_service(b) {
            let s = backend_service_ref(b, namespace);
            before.insert(s, HttpRouteBackendView { object_ref: s, port: backend_port(b), weight: b.weight })
        } else {
            before
        }
    }
}

/// Records the service backends of a list of rules.
pub open spec fn add_rules_backends(
    m: Map<ObjectRefView, HttpRouteBackendView>,
    rules: Seq<RouteRuleSpec>,
    namespace: Option<Seq<char>>,
) -> Map<ObjectRefView, HttpRouteBackendView>
    decreases rules.len(),
{
    if rules.len() == 0 {
        m
    } else {
        add_backend_refs(
            add_rules_backends(m, rules.drop_last(), namespace),
            flat(rules.last().backend_refs),
            namespace,
        )
    }
}

/// The service backends that the routes name, found by going through the
/// routes, their rules and their backend references in order; a later
/// reference to the same service replaces an earlier one.
pub open spec fn route_backends(items: Seq<(ObjectRefView, Seq<char>, Arc<HttpRoute>)>) -> Map<
    ObjectRefView,
    HttpRouteBackendView,
>
    decreases items.len(),
{
    if items.len() == 0 {
        Map::empty()
    } else {
        let route = items.last().2;
        add_rules_backends(
            route_backends(items.drop_last()),
            flat(route.data.rules),
            opt_view(route.metadata.namespace),
        )
    }
}

/// The views of a map of route backends.
pub open spec fn route_backend_views(m: Map<ObjectRefView, HttpRouteBackend>) -> Map<ObjectRefView, HttpRouteBackendView> {
    m.map_values(|b: HttpRouteBackend| b@)
}

fn add_backends_of_rule(
    r: &mut RefMap<HttpRouteBackend>,
    refs: &Vec<BackendRefSpec>,
    namespace: &Option<String>,
)
    requires
        old(r).wf(),
        refs_ports_fit(refs@),
    ensures
        final(r).wf(),
        route_backend_views(final(r).map()) == add_backend_refs(
            route_backend_views(old(r).map()),
            refs@,
            opt_view(*namespace),
        ),
{
    let service = service_kind();
    let mut k: usize = 0;
    while k < refs.len()
        invariant
            k <= refs.len(),
            r.wf(),
            kind_view(service) == ("Service"@, "v1"@, ""@),
            refs_ports_fit(refs@),
            route_backend_views(r.map()) == add_backend_refs(
                route_backend_views(old(r).map()),
                refs@.take(k as int),
                opt_view(*namespace),
            ),
        decreases refs.len() - k,
    {
        assert(refs@.take(k + 1).drop_last() =~= refs@.take(k as int));
        let b = &refs[k];
        let is_service = match &b.kind {
            Some(kind) => str_equals(kind, "Service"),
            None => false,
        };
        if is_service {
            let ns = match &b.namespace {
                Some(n) => Some(n.clone()),
                None => clone_opt_string(namespace),
            };
            let service_ref = ObjectRef::for_kind(&service, ns, b.name.clone());
            proof {
                reveal_strlit("");
            }
            assert(service_ref@ == backend_service_ref(*b, opt_view(*namespace)));
            let port: Option<u16> = match b.port {
                Some(p) => Some(p as u16),
                None => None,
            };
            let backend = HttpRouteBackend::new(service_ref.clone(), port, b.weight);
            r.insert(service_ref, backend);
            assert(route_backend_views(r.map()) =~= add_backend_refs(
                route_backend_views(old(r).map()),
                refs@.take(k + 1),
                opt_view(*namespace),
            ));
        }
        k += 1;
    }
    assert(refs@.take(refs.len() as int) =~= refs@);
}

/// Tests whether the ports of a route's `Service` backend references fit
/// in sixteen bits.
fn route_ports_fit(route: &HttpRoute) -> (b: bool)
    ensures
        b == rules_ports_fit(flat(route.data.rules)),
{
    let empty: Vec<RouteRuleSpec> = Vec::new();
    let rules = match &route.data.rules {
        Some(rs) => rs,
        None => &empty,
    };
    assert(rules@ == flat(route.data.rules));
    let mut j: usize = 0;
    while j < rules.len()
        invariant
            j <= rules.len(),
            rules@ == flat(route.data.rules),
            forall|m: int| 0 <= m < j ==> refs_ports_fit(flat(#[trigger] rules@[m].backend_refs)),
        decreases rules.len() - j,
    {
        let no_refs: Vec<BackendRefSpec> = Vec::new();
        let refs = match &rules[j].backend_refs {
            Some(r) => r,
            None => &no_refs,
        };
        assert(refs@ == flat(rules@[j as int].backend_refs));
        let mut k: usize = 0;
        while k < refs.len()
            invariant
                k <= refs.len(),
                j < rules.len(),
                rules@ == flat(route.data.rules),
                refs@ == flat(rules@[j as int].backend_refs),
                forall|m: int|
                    0 <= m < k && names_service(#[trigger] refs@[m]) && refs@[m].port is Some ==> 0
                        <= refs@[m].port->0 <= 65535,
            decreases refs.len() - k,
        {
            let b = &refs[k];
            let is_service = match &b.kind {
                Some(kind) => str_equals(kind, "Service"),
                None => false,
            };
            if is_service {
                if let Some(p) = b.port {
                    if p < 0 || p > 65535 {
                        assert(names_service(refs@[k as int]));
                        assert(!refs_ports_fit(refs@));
                        assert(!rules_ports_fit(rules@)) by {
                            assert(!refs_ports_fit(flat(rules@[j as int].backend_refs)));
                        }
                        return false;
                    }
                }
            }
            k += 1;
        }
        j += 1;
    }
    true
}

/// Tests whether the ports of the routes' `Service` backend references fit
/// in sixteen bits, so that a caller can check the precondition of
/// [`collect_http_route_backends`].
pub fn service_ports_fit_in(http_routes: &Objects<HttpRouteSpec>) -> (b: bool)
    requires
        http_routes.wf(),
    ensures
        b == service_ports_fit(iter_items(http_routes.ref_order())),
{
    let items = http_routes.iter();
    let ghost all = iter_items(http_routes.ref_order());
    let mut i: usize = 0;
    while i < items.len()
        invariant
            i <= items.len(),
            items_view(items@) == all,
            all == iter_items(http_routes.ref_order()),
            forall|k: int| 0 <= k < i ==> rules_ports_fit(rules_of(#[trigger] all[k].2)),
        decreases items.len() - i,
    {
        let route = &items[i].2;
        assert(all[i as int].2 == *route);
        if !route_ports_fit(route) {
            assert(!rules_ports_fit(rules_of(all[i as int].2)));
            return false;
        }
        i += 1;
    }
    true
}

/// The service backends that the routes send traffic to, with the port and
/// the weight of the last reference to each; references to other kinds, or
/// without a kind, are skipped.
pub fn collect_http_route_backends(http_routes: &Objects<HttpRouteSpec>) -> (r: RefMap<HttpRouteBackend>)
    requires
        http_routes.wf(),
        service_ports_fit(iter_items(http_routes.ref_order())),
    ensures
        r.wf(),
        route_backend_views(r.map()) == route_backends(iter_items(http_routes.ref_order())),
{
    let items = http_routes.iter();
    let ghost all = iter_items(http_routes.ref_order());
    let mut r: RefMap<HttpRouteBackend> = RefMap::new();
    assert(route_backend_views(r.map()) =~= Map::empty());
    let mut i: usize = 0;
    while i < items.len()
        invariant
            i <= items.len(),
            r.wf(),
            items_view(items@) == all,
            service_ports_fit(all),
            route_backend_views(r.map()) == route_backends(all.take(i as int)),
        decreases items.len() - i,
    {
        assert(all.take(i + 1).drop_last() =~= all.take(i as int));
        let route = &items[i].2;
        assert(all[i as int].2 == *route);
        let ghost start = route_backend_views(r.map());
        let ghost rules = rules_of(*route);
        match &route.data.rules {
            Some(rules_vec) => {
                let mut j: usize = 0;
                while j < rules_vec.len()
                    invariant
                        j <= rules_vec.len(),
                        r.wf(),
                        rules == rules_vec@,
                        rules == rules_of(*route),
                        service_ports_fit(all),
                        0 <= i < all.len(),
                        all[i as int].2 == *route,
                        route_backend_views(r.map()) == add_rules_backends(
                            start,
                            rules.take(j as int),
                            opt_view(route.metadata.namespace),
                        ),
                    decreases rules_vec.len() - j,
                {
                    assert(rules.take(j + 1).drop_last() =~= rules.take(j as int));
                    match &rules_vec[j].backend_refs {
                        Some(refs) => {
                            assert(rules_ports_fit(rules_of(all[i as int].2)));
                            assert(rules_of(all[i as int].2) == rules);
                            assert(rules[j as int] == rules_vec@[j as int]);
                            assert(rules[j as int].backend_refs == Some(*refs));
                            assert(refs_ports_fit(flat(rules[j as int].backend_refs)));
                            add_backends_of_rule(&mut r, refs, &route.metadata.namespace);
                        },
                        None => {},
                    }
                    j += 1;
                }
                assert(rules.take(rules_vec.len() as int) =~= rules);
            },
            None => {
                assert(rules.take(0) =~= rules);
            },
        }
        i += 1;
    }
    assert(all.take(items.len() as int) =~= all);
    r
}

/// The gateway a parent reference names has the parent reference's name and,
/// when the parent reference gives a namespace, that namespace, whatever the
/// route's; only a parent reference without one takes the route's namespace.
pub proof fn law_parent_gateway_namespace(
    p: ParentRefSpec,
    default_namespace: Option<Seq<char>>,
    other_namespace: Option<Seq<char>>,
)
    ensures
        parent_gateway_ref(p, default_namespace).name == p.name@,
        parent_gateway_ref(p, default_namespace).kind == "Gateway"@,
        p.namespace matches Some(n) ==> parent_gateway_ref(p, default_namespace).namespace == Some(n@),
        p.namespace is Some ==> parent_gateway_ref(p, default_namespace) == parent_gateway_ref(
            p,
            other_namespace,
        ),
        p.namespace is None ==> parent_gateway_ref(p, default_namespace).namespace == default_namespace,
{
}

/// A route is kept when one of its parent references names an active gateway:
/// by the namespace it gives, or else by the route's.
pub proof fn law_route_of_active_gateway_kept(
    items: Seq<(ObjectRefView, Seq<char>, Arc<HttpRoute>)>,
    gateways: Set<ObjectRefView>,
    k: int,
    i: int,
)
    requires
        0 <= k < items.len(),
        0 <= i < parents_of(items[k].2).len(),
        gateways.contains(
            ObjectRefView {
                kind: "Gateway"@,
                version: "v1"@,
                group: Some("gateway.networking.k8s.io"@),
                namespace: match parents_of(items[k].2)[i].namespace {
                    Some(n) => Some(n@),
                    None => items[k].0.namespace,
                },
                name: parents_of(items[k].2)[i].name@,
            },
        ),
    ensures
        routes_of_gateways(items, gateways).contains(items[k]),
    decreases items.len(),
{
    let rest = items.drop_last();
    let after = routes_of_gateways(items, gateways);
    if k < items.len() - 1 {
        assert(rest[k] == items[k]);
        law_route_of_active_gateway_kept(rest, gateways, k, i);
        let before = routes_of_gateways(rest, gateways);
        let j = choose|j: int| 0 <= j < before.len() && before[j] == rest[k];
        assert(after[j] == before[j]);
    } else {
        let parents = parents_of(items[k].2);
        assert(gateways.contains(parent_gateway_ref(parents[i], items[k].0.namespace)));
        assert(attached_to_any(items[k].0.namespace, parents, gateways));
        assert(after[after.len() - 1] == items[k]);
    }
}

} // verus!
