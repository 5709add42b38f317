//! The resource kinds that the control plane reads and writes.
use crate::object_ref::ResourceKind;
use vstd::prelude::*;
use vstd::string::*;

verus! {

/// The view of a resource kind: kind, version and group.
pub open spec fn kind_view(r: ResourceKind) -> (Seq<char>, Seq<char>, Seq<char>) {
    (r.kind@, r.version@, r.group@)
}

fn make(kind: &str, version: &str, group: &str) -> (r: ResourceKind)
    ensures
        kind_view(r) == (kind@, version@, group@),
{
    ResourceKind {
        kind: String::from_str(kind),
        version: String::from_str(version),
        group: String::from_str(group),
    }
}

/// The `v1` `Service` kind of the core group.
pub fn service_kind() -> (r: ResourceKind)
    ensures
        kind_view(r) == ("Service"@, "v1"@, ""@),
{
    make("Service", "v1", "")
}

/// The `v1` `ConfigMap` kind of the core group.
pub fn config_map_kind() -> (r: ResourceKind)
    ensures
        kind_view(r) == ("ConfigMap"@, "v1"@, ""@),
{
    make("ConfigMap", "v1", "")
}

/// The `v1` `Pod` kind of the core group.
pub fn pod_kind() -> (r: ResourceKind)
    ensures
        kind_view(r) == ("Pod"@, "v1"@, ""@),
{
    make("Pod", "v1", "")
}

/// The `apps/v1` `Deployment` kind.
pub fn deployment_kind() -> (r: ResourceKind)
    ensures
        kind_view(r) == ("Deployment"@, "v1"@, "apps"@),
{
    make("Deployment", "v1", "apps")
}

/// The Gateway API `Gateway` kind.
pub fn gateway_kind() -> (r: ResourceKind)
    ensures
        kind_view(r) == ("Gateway"@, "v1"@, "gateway.networking.k8s.io"@),
{
    make("Gateway", "v1", "gateway.networking.k8s.io")
}

/// The Gateway API `GatewayClass` kind.
pub fn gateway_class_kind() -> (r: ResourceKind)
    ensures
        kind_view(r) == ("GatewayClass"@, "v1"@, "gateway.networking.k8s.io"@),
{
    make("GatewayClass", "v1", "gateway.networking.k8s.io")
}

/// The Gateway API `HTTPRoute` kind.
pub fn http_route_kind() -> (r: ResourceKind)
    ensures
        kind_view(r) == ("HTTPRoute"@, "v1"@, "gateway.networking.k8s.io"@),
{
    make("HTTPRoute", "v1", "gateway.networking.k8s.io")
}

/// The `StaticResponseFilter` kind of this project's API group.
pub fn static_response_filter_kind() -> (r: ResourceKind)
    ensures
        kind_view(r) == ("StaticResponseFilter"@, "v1alpha1"@, "vale-gateway.whitefamily.in"@),
{
    make("StaticResponseFilter", "v1alpha1", "vale-gateway.whitefamily.in")
}

/// The `AccessControlFilter` kind of this project's API group.
pub fn access_control_filter_kind() -> (r: ResourceKind)
    ensures
        kind_view(r) == ("AccessControlFilter"@, "v1alpha1"@, "vale-gateway.whitefamily.in"@),
{
    make("AccessControlFilter", "v1alpha1", "vale-gateway.whitefamily.in")
}

} // verus!
