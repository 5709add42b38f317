//! Service backends: the ready endpoints of the services that routes send
//! traffic to.
use crate::kinds::{kind_view, service_kind};
use crate::object_ref::{KubeObject, ObjectRef, ObjectRefView};
use crate::objects::{iter_items, Objects};
use crate::ref_map::RefMap;
use crate::text::{clone_opt_string, first_value, lookup_first, opt_view, str_equals};
use std::sync::Arc;
use vstd::prelude::*;
use vstd::string::*;

verus! {

/// An IP address: four octets of version 4 or sixteen of version 6, each
/// read as one big-endian number.
#[derive(Debug, Clone, Copy, PartialEq, Eq, Hash)]
pub enum IpAddress {
    V4(u32),
    V6(u128),
}

/// An endpoint address as a slice lists it, with what the standard
/// library's parsers of version 4 and version 6 addresses make of its text
/// (`std::net` is read outside this library).
#[derive(Debug, Clone, PartialEq, Eq)]
pub struct AddressText {
    pub text: String,
    pub as_v4: Option<u32>,
    pub as_v6: Option<u128>,
}

/// The address a text stands for under an endpoint slice's address type:
/// `IPv4` and `IPv6` texts are read as such, other types give none.
pub open spec fn address_of(address_type: Seq<char>, text: AddressText) -> Option<IpAddress> {
    if address_type == "IPv4"@ {
        match text.as_v4 {
            Some(v) => Some(IpAddress::V4(v)),
            None => None,
        }
    } else if address_type == "IPv6"@ {
        match text.as_v6 {
            Some(v) => Some(IpAddress::V6(v)),
            None => None,
        }
    } else {
        None
    }
}

/// Reads an endpoint address under the slice's address type.
pub fn parse_address(address_type: &String, text: &AddressText) -> (r: Option<IpAddress>)
    ensures
        r == address_of(address_type@, *text),
{
    if str_equals(address_type, "IPv4") {
        match text.as_v4 {
            Some(v) => Some(IpAddress::V4(v)),
            None => None,
        }
    } else if str_equals(address_type, "IPv6") {
        match text.as_v6 {
            Some(v) => Some(IpAddress::V6(v)),
            None => None,
        }
    } else {
        None
    }
}

/// The model of a [`TopologyLocation`].
pub struct TopologyLocationView {
    pub node: Option<Seq<char>>,
    pub zone: Option<Seq<char>>,
}

/// Where an endpoint runs: its node and its zone.
#[derive(Debug, PartialEq, Eq, Hash, PartialOrd, Ord)]
pub struct TopologyLocation {
    node: Option<String>,
    zone: Option<String>,
}

impl View for TopologyLocation {
    type V = TopologyLocationView;

    closed spec fn view(&self) -> TopologyLocationView {
        TopologyLocationView { node: opt_view(self.node), zone: opt_view(self.zone) }
    }
}

impl Clone for TopologyLocation {
    fn clone(&self) -> (r: Self)
        ensures
            r@ == self@,
    {
        TopologyLocation { node: clone_opt_string(&self.node), zone: clone_opt_string(&self.zone) }
    }
}

impl TopologyLocation {
    /// A builder with no field set.
    pub fn new_builder() -> (b: TopologyLocationBuilder)
        ensures
            b.node is None && b.zone is None,
    {
        TopologyLocationBuilder { node: None, zone: None }
    }

    /// The node of the location.
    pub fn node(&self) -> (r: &Option<String>)
        ensures
            opt_view(*r) == self@.node,
    {
        &self.node
    }

    /// The zone of the location.
    pub fn zone(&self) -> (r: &Option<String>)
        ensures
            opt_view(*r) == self@.zone,
    {
        &self.zone
    }
}

/// The field of a [`TopologyLocation`] that a builder never set.
#[derive(Debug, Clone, Copy, PartialEq, Eq)]
pub enum TopologyLocationBuilderError {
    UninitializedNode,
    UninitializedZone,
}

/// A builder of [`TopologyLocation`]s.
pub struct TopologyLocationBuilder {
    pub node: Option<Option<String>>,
    pub zone: Option<Option<String>>,
}

impl TopologyLocationBuilder {
    /// Sets the node.
    pub fn node(&mut self, node: Option<String>) -> (r: &mut Self)
        ensures
            r.node == Some(node),
            r.zone == old(self).zone,
            *final(self) == *final(r),
    {
        self.node = Some(node);
        self
    }

    /// Sets the zone.
    pub fn zone(&mut self, zone: Option<String>) -> (r: &mut Self)
        ensures
            r.zone == Some(zone),
            r.node == old(self).node,
            *final(self) == *final(r),
    {
        self.zone = Some(zone);
        self
    }

    /// The location made of the fields, or the first field never set.
    pub fn build(&self) -> (r: Result<TopologyLocation, TopologyLocationBuilderError>)
        ensures
            match self.node {
                None => r == Err::<TopologyLocation, _>(
                    TopologyLocationBuilderError::UninitializedNode,
                ),
                Some(n) => match self.zone {
                    None => r == Err::<TopologyLocation, _>(
                        TopologyLocationBuilderError::UninitializedZone,
                    ),
                    Some(z) => r is Ok && r->Ok_0@ == (TopologyLocationView {
                        node: opt_view(n),
                        zone: opt_view(z),
                    }),
                },
            },
    {
        let node = match &self.node {
            Some(n) => clone_opt_string(n),
            None => return Err(TopologyLocationBuilderError::UninitializedNode),
        };
        let zone = match &self.zone {
            Some(z) => clone_opt_string(z),
            None => return Err(TopologyLocationBuilderError::UninitializedZone),
        };
        Ok(TopologyLocation { node, zone })
    }
}

/// The model of [`Endpoints`].
pub struct EndpointsView {
    pub location: TopologyLocationView,
    pub addresses: Seq<IpAddress>,
}

/// The addresses of a ready endpoint and where it runs.
#[derive(Debug, PartialEq, Eq, Hash)]
pub struct Endpoints {
    location: TopologyLocation,
    addresses: Vec<IpAddress>,
}

impl View for Endpoints {
    type V = EndpointsView;

    closed spec fn view(&self) -> EndpointsView {
        EndpointsView { location: self.location@, addresses: self.addresses@ }
    }
}

impl Clone for Endpoints {
    fn clone(&self) -> (r: Self)
        ensures
            r@ == self@,
    {
        Endpoints { location: self.location.clone(), addresses: self.addresses.clone() }
    }
}

impl Endpoints {
    /// Endpoints at a location with the given addresses.
    pub fn new(location: TopologyLocation, addresses: Vec<IpAddress>) -> (r: Endpoints)
        ensures
            r@ == (EndpointsView { location: location@, addresses: addresses@ }),
    {
        Endpoints { location, addresses }
    }

    /// The location of the endpoints.
    pub fn location(&self) -> (r: &TopologyLocation)
        ensures
            r@ == self@.location,
    {
        &self.location
    }

    /// The addresses of the endpoints.
    pub fn addresses(&self) -> (r: &Vec<IpAddress>)
        ensures
            r@ == self@.addresses,
    {
        &self.addresses
    }
}

/// The model of an [`HttpRouteBackend`].
pub struct HttpRouteBackendView {
    pub object_ref: ObjectRefView,
    pub port: Option<u16>,
    pub weight: Option<i32>,
}

/// A service that some route sends traffic to, with the port and the weight
/// the route gives it.
#[derive(Debug, PartialEq, Eq, Hash)]
pub struct HttpRouteBackend {
    object_ref: ObjectRef,
    port: Option<u16>,
    weight: Option<i32>,
}

impl View for HttpRouteBackend {
    type V = HttpRouteBackendView;

    closed spec fn view(&self) -> HttpRouteBackendView {
        HttpRouteBackendView { object_ref: self.object_ref@, port: self.port, weight: self.weight }
    }
}

impl Clone for HttpRouteBackend {
    fn clone(&self) -> (r: Self)
        ensures
            r@ == self@,
    {
        HttpRouteBackend { object_ref: self.object_ref.clone(), port: self.port, weight: self.weight }
    }
}

impl HttpRouteBackend {
    /// A route backend for the service with the given port and weight.
    pub fn new(object_ref: ObjectRef, port: Option<u16>, weight: Option<i32>) -> (r: HttpRouteBackend)
        ensures
            r@ == (HttpRouteBackendView { object_ref: object_ref@, port, weight }),
    {
        HttpRouteBackend { object_ref, port, weight }
    }

    /// The service of the backend.
    pub fn object_ref(&self) -> (r: &ObjectRef)
        ensures
            r@ == self@.object_ref,
    {
        &self.object_ref
    }

    /// The port of the backend.
    pub fn port(&self) -> (r: Option<u16>)
        ensures
            r == self@.port,
    {
        self.port
    }

    /// The weight of the backend.
    pub fn weight(&self) -> (r: Option<i32>)
        ensures
            r == self@.weight,
    {
        self.weight
    }
}

/// The model of a [`Backend`].
pub struct BackendView {
    pub weight: Option<i32>,
    pub port: Option<u16>,
    pub object_ref: ObjectRefView,
    pub endpoints: Seq<EndpointsView>,
}

/// A service backend: the service, the port and weight that routes give it,
/// and its ready endpoints.
#[derive(Debug, PartialEq, Eq, Hash)]
pub struct Backend {
    weight: Option<i32>,
    port: Option<u16>,
    object_ref: ObjectRef,
    endpoints: Vec<Endpoints>,
}

/// The views of a list of endpoints.
pub open spec fn endpoints_views(s: Seq<Endpoints>) -> Seq<EndpointsView> {
    s.map_values(|e: Endpoints| e@)
}

impl View for Backend {
    type V = BackendView;

    closed spec fn view(&self) -> BackendView {
        BackendView {
            weight: self.weight,
            port: self.port,
            object_ref: self.object_ref@,
            endpoints: endpoints_views(self.endpoints@),
        }
    }
}

fn clone_endpoints(v: &Vec<Endpoints>) -> (r: Vec<Endpoints>)
    ensures
        endpoints_views(r@) == endpoints_views(v@),
{
    let mut r: Vec<Endpoints> = Vec::new();
    let mut i: usize = 0;
    while i < v.len()
        invariant
            i <= v.len(),
            endpoints_views(r@) == endpoints_views(v@.take(i as int)),
        decreases v.len() - i,
    {
        let ghost before = r@;
        let e = v[i].clone();
        r.push(e);
        assert(endpoints_views(r@) =~= endpoints_views(before).push(v@[i as int]@));
        assert(v@.take(i + 1) =~= v@.take(i as int).push(v@[i as int]));
        assert(endpoints_views(v@.take(i + 1)) =~= endpoints_views(v@.take(i as int)).push(
            v@[i as int]@,
        ));
        i += 1;
    }
    assert(v@.take(v.len() as int) =~= v@);
    r
}

impl Clone for Backend {
    fn clone(&self) -> (r: Self)
        ensures
            r@ == self@,
    {
        Backend {
            weight: self.weight,
            port: self.port,
            object_ref: self.object_ref.clone(),
            endpoints: clone_endpoints(&self.endpoints),
        }
    }
}

impl Backend {
    /// A backend for the service with its endpoints, port and weight.
    pub fn new(
        object_ref: ObjectRef,
        endpoints: Vec<Endpoints>,
        port: Option<u16>,
        weight: Option<i32>,
    ) -> (r: Backend)
        ensures
            r@ == (BackendView {
                weight,
                port,
                object_ref: object_ref@,
                endpoints: endpoints_views(endpoints@),
            }),
    {
        Backend { weight, port, object_ref, endpoints }
    }

    /// The weight of the backend.
    pub fn weight(&self) -> (r: Option<i32>)
        ensures
            r == self@.weight,
    {
        self.weight
    }

    /// The port of the backend.
    pub fn port(&self) -> (r: Option<u16>)
        ensures
            r == self@.port,
    {
        self.port
    }

    /// The service of the backend.
    pub fn object_ref(&self) -> (r: &ObjectRef)
        ensures
            r@ == self@.object_ref,
    {
        &self.object_ref
    }

    /// The endpoints of the backend.
    pub fn endpoints(&self) -> (r: &Vec<Endpoints>)
        ensures
            endpoints_views(r@) == self@.endpoints,
    {
        &self.endpoints
    }
}

/// An endpoint of an endpoint slice, as the slice lists it.
pub struct SliceEndpoint {
    pub addresses: Vec<AddressText>,
    /// The `ready` condition, when the endpoint reports one.
    pub ready: Option<bool>,
    pub zone: Option<String>,
    pub node_name: Option<String>,
}

/// An endpoint slice: the type of its addresses, its endpoints and its
/// labels.
pub struct EndpointSliceSpec {
    pub address_type: String,
    pub endpoints: Vec<SliceEndpoint>,
    pub labels: Option<Vec<(String, String)>>,
}

/// The addresses among the texts that parse under the address type, in
/// order.
pub open spec fn addresses_of(address_type: Seq<char>, texts: Seq<AddressText>) -> Seq<IpAddress>
    decreases texts.len(),
{
    if texts.len() == 0 {
        Seq::empty()
    } else {
        let rest = addresses_of(address_type, texts.drop_last());
        match address_of(address_type, texts.last()) {
            Some(a) => rest.push(a),
            None => rest,
        }
    }
}

/// The endpoints of a slice that report themselves ready, with their
/// location and their parsed addresses.
pub open spec fn ready_endpoints(address_type: Seq<char>, endpoints: Seq<SliceEndpoint>) -> Seq<
    EndpointsView,
>
    decreases endpoints.len(),
{
    if endpoints.len() == 0 {
        Seq::empty()
    } else {
        let rest = ready_endpoints(address_type, endpoints.drop_last());
        let e = endpoints.last();
        if e.ready == Some(true) {
            rest.push(
                EndpointsView {
                    location: TopologyLocationView {
                        node: opt_view(e.node_name),
                        zone: opt_view(e.zone),
                    },
                    addresses: addresses_of(address_type, e.addresses@),
                },
            )
        } else {
            rest
        }
    }
}

/// The backend of a service: the port and weight that routes give it, and
/// the ready endpoints of its slice.
pub open spec fn backend_of(
    object_ref: ObjectRefView,
    route_backend: HttpRouteBackendView,
    slice: EndpointSliceSpec,
) -> BackendView {
    BackendView {
        weight: route_backend.weight,
        port: route_backend.port,
        object_ref: object_ref,
        endpoints: ready_endpoints(slice.address_type@, slice.endpoints@),
    }
}

fn parse_addresses(address_type: &String, texts: &Vec<AddressText>) -> (r: Vec<IpAddress>)
    ensures
        r@ == addresses_of(address_type@, texts@),
{
    let mut r: Vec<IpAddress> = Vec::new();
    let mut i: usize = 0;
    while i < texts.len()
        invariant
            i <= texts.len(),
            r@ == addresses_of(address_type@, texts@.take(i as int)),
        decreases texts.len() - i,
    {
        assert(texts@.take(i + 1).drop_last() =~= texts@.take(i as int));
        match parse_address(address_type, &texts[i]) {
            Some(a) => r.push(a),
            None => {},
        }
        i += 1;
    }
    assert(texts@.take(texts.len() as int) =~= texts@);
    r
}

/// The backend of a service from the endpoint slice that serves it: its ready
/// endpoints, each with its location and its addresses.
pub fn extract_backend(
    object_ref: &ObjectRef,
    http_route_backend: &HttpRouteBackend,
    endpoint_slice: &EndpointSliceSpec,
) -> (r: Backend)
    ensures
        r@ == backend_of(object_ref@, http_route_backend@, *endpoint_slice),
{
    let mut endpoints: Vec<Endpoints> = Vec::new();
    let mut i: usize = 0;
    let slice_endpoints = &endpoint_slice.endpoints;
    while i < slice_endpoints.len()
        invariant
            i <= slice_endpoints.len(),
            slice_endpoints == &endpoint_slice.endpoints,
            endpoints_views(endpoints@) == ready_endpoints(
                endpoint_slice.address_type@,
                slice_endpoints@.take(i as int),
            ),
        decreases slice_endpoints.len() - i,
    {
        assert(slice_endpoints@.take(i + 1).drop_last() =~= slice_endpoints@.take(i as int));
        let endpoint = &slice_endpoints[i];
        if endpoint.ready == Some(true) {
            let location = TopologyLocation {
                node: clone_opt_string(&endpoint.node_name),
                zone: clone_opt_string(&endpoint.zone),
            };
            let addresses = parse_addresses(&endpoint_slice.address_type, &endpoint.addresses);
            let ghost before = endpoints@;
            endpoints.push(Endpoints { location, addresses });
            assert(endpoints_views(endpoints@) =~= endpoints_views(before).push(
                endpoints@.last()@,
            ));
        }
        i += 1;
    }
    assert(slice_endpoints@.take(slice_endpoints.len() as int) =~= slice_endpoints@);
    Backend {
        weight: http_route_backend.weight,
        port: http_route_backend.port,
        object_ref: object_ref.clone(),
        endpoints,
    }
}

/// The reference to the service that an endpoint slice serves, named by its
/// `kubernetes.io/service-name` label, in the slice's namespace.
pub open spec fn slice_service_ref(slice: KubeObject<EndpointSliceSpec>) -> Option<ObjectRefView> {
    match slice.data.labels {
        Some(labels) => match first_value(labels@, "kubernetes.io/service-name"@) {
            Some(name) => Some(
                ObjectRefView {
                    kind: "Service"@,
                    version: "v1"@,
                    group: None,
                    namespace: opt_view(slice.metadata.namespace),
                    name: name@,
                },
            ),
            None => None,
        },
        None => None,
    }
}

/// The backends found by going through the slices in order: each slice that
/// serves a service some route sends traffic to gives that service's
/// backend, a later slice replacing an earlier one of the same service.
pub open spec fn service_backends(
    slices: Seq<(ObjectRefView, Seq<char>, Arc<KubeObject<EndpointSliceSpec>>)>,
    route_backends: Map<ObjectRefView, HttpRouteBackend>,
) -> Map<ObjectRefView, BackendView>
    decreases slices.len(),
{
    if slices.len() == 0 {
        Map::empty()
    } else {
        let rest = service_backends(slices.drop_last(), route_backends);
        let slice = *slices.last().2;
        match slice_service_ref(slice) {
            Some(service) => if route_backends.dom().contains(service) {
                rest.insert(service, backend_of(service, route_backends[service]@, slice.data))
            } else {
                rest
            },
            None => rest,
        }
    }
}

/// The backend of each service that some route sends traffic to and that an
/// endpoint slice serves.
pub fn collect_service_backends(
    http_route_backends: &RefMap<HttpRouteBackend>,
    endpoint_slices: &Objects<EndpointSliceSpec>,
) -> (r: RefMap<Backend>)
    requires
        http_route_backends.wf(),
        endpoint_slices.wf(),
    ensures
        r.wf(),
        r.map().dom() == service_backends(
            iter_items(endpoint_slices.ref_order()),
            http_route_backends.map(),
        ).dom(),
        forall|k: ObjectRefView| #[trigger]
            r.map().dom().contains(k) ==> r.map()[k]@ == service_backends(
                iter_items(endpoint_slices.ref_order()),
                http_route_backends.map(),
            )[k],
{
    let items = endpoint_slices.iter();
    let ghost all = iter_items(endpoint_slices.ref_order());
    let mut r: RefMap<Backend> = RefMap::new();
    let mut i: usize = 0;
    let service = service_kind();
    while i < items.len()
        invariant
            i <= items.len(),
            r.wf(),
            http_route_backends.wf(),
            kind_view(service) == ("Service"@, "v1"@, ""@),
            crate::objects::items_view(items@) == all,
            r.map().dom() == service_backends(all.take(i as int), http_route_backends.map()).dom(),
            forall|k: ObjectRefView| #[trigger]
                r.map().dom().contains(k) ==> r.map()[k]@ == service_backends(
                    all.take(i as int),
                    http_route_backends.map(),
                )[k],
        decreases items.len() - i,
    {
        assert(all.take(i + 1).drop_last() =~= all.take(i as int));
        let slice: &Arc<KubeObject<EndpointSliceSpec>> = &items[i].2;
        assert(all[i as int].2 == *slice);
        let name = match &slice.data.labels {
            Some(labels) => lookup_first(labels, "kubernetes.io/service-name"),
            None => None,
        };
        match name {
            Some(name) => {
                let service_ref = ObjectRef::for_kind(
                    &service,
                    clone_opt_string(&slice.metadata.namespace),
                    name.clone(),
                );
                proof {
                    reveal_strlit("");
                }
                assert(slice_service_ref(**slice) == Some(service_ref@));
                match http_route_backends.get(&service_ref) {
                    Some(route_backend) => {
                        let backend = extract_backend(&service_ref, route_backend, &slice.data);
                        let ghost k = service_ref@;
                        r.insert(service_ref, backend);
                        assert(r.map().dom() =~= service_backends(
                            all.take(i + 1),
                            http_route_backends.map(),
                        ).dom());
                    },
                    None => {},
                }
            },
            None => {},
        }
        i += 1;
    }
    assert(all.take(items.len() as int) =~= all);
    r
}

/// An address of an `IPv6` endpoint slice whose text reads as a version 6
/// address is among the endpoint's addresses, as that address.
pub proof fn law_ipv6_address_kept(texts: Seq<AddressText>, k: int, v: u128)
    requires
        0 <= k < texts.len(),
        texts[k].as_v6 == Some(v),
    ensures
        addresses_of("IPv6"@, texts).contains(IpAddress::V6(v)),
    decreases texts.len(),
{
    reveal_strlit("IPv4");
    reveal_strlit("IPv6");
    assert("IPv6"@ != "IPv4"@) by {
        assert("IPv6"@[3] != "IPv4"@[3]);
    }
    let rest = texts.drop_last();
    if k == texts.len() - 1 {
        assert(address_of("IPv6"@, texts.last()) == Some(IpAddress::V6(v)));
        let out = addresses_of("IPv6"@, texts);
        assert(out[out.len() - 1] == IpAddress::V6(v));
    } else {
        assert(rest[k] == texts[k]);
        law_ipv6_address_kept(rest, k, v);
        let before = addresses_of("IPv6"@, rest);
        let j = choose|j: int| 0 <= j < before.len() && before[j] == IpAddress::V6(v);
        let out = addresses_of("IPv6"@, texts);
        assert(out[j] == IpAddress::V6(v));
    }
}

/// An address of an `IPv4` endpoint slice whose text reads as a version 4
/// address is among the endpoint's addresses, as that address.
pub proof fn law_ipv4_address_kept(texts: Seq<AddressText>, k: int, v: u32)
    requires
        0 <= k < texts.len(),
        texts[k].as_v4 == Some(v),
    ensures
        addresses_of("IPv4"@, texts).contains(IpAddress::V4(v)),
    decreases texts.len(),
{
    let rest = texts.drop_last();
    if k == texts.len() - 1 {
        let out = addresses_of("IPv4"@, texts);
        assert(out[out.len() - 1] == IpAddress::V4(v));
    } else {
        assert(rest[k] == texts[k]);
        law_ipv4_address_kept(rest, k, v);
        let before = addresses_of("IPv4"@, rest);
        let j = choose|j: int| 0 <= j < before.len() && before[j] == IpAddress::V4(v);
        let out = addresses_of("IPv4"@, texts);
        assert(out[j] == IpAddress::V4(v));
    }
}

/// The addresses of an `IPv6` endpoint slice are all of version 6, and
/// those of an `IPv4` one all of version 4; a slice of another address type
/// gives none.
pub proof fn law_addresses_follow_slice_type(address_type: Seq<char>, texts: Seq<AddressText>)
    ensures
        address_type == "IPv6"@ ==> forall|i: int|
            0 <= i < addresses_of(address_type, texts).len() ==> #[trigger] addresses_of(address_type, texts)[i] is V6,
        address_type == "IPv4"@ ==> forall|i: int|
            0 <= i < addresses_of(address_type, texts).len() ==> #[trigger] addresses_of(address_type, texts)[i] is V4,
        address_type != "IPv6"@ && address_type != "IPv4"@ ==> addresses_of(address_type, texts).len() == 0,
    decreases texts.len(),
{
    reveal_strlit("IPv4");
    reveal_strlit("IPv6");
    assert("IPv6"@ != "IPv4"@) by {
        assert("IPv6"@[3] != "IPv4"@[3]);
    }
    if texts.len() > 0 {
        law_addresses_follow_slice_type(address_type, texts.drop_last());
    }
}

} // verus!
