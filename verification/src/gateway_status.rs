//! The status that the control plane reports for each gateway.
use crate::api::{condition_views, Condition, ConditionView, Timestamp};
use crate::gateway_classes::{condition, Gateway, Listener};
use vstd::prelude::*;
use vstd::string::*;

verus! {

/// A kind of route that a listener accepts.
#[derive(Debug, PartialEq, Eq)]
pub struct RouteGroupKind {
    pub group: String,
    pub kind: String,
}

/// The status of a gateway's listener.
#[derive(Debug, PartialEq)]
pub struct ListenerStatus {
    pub name: String,
    pub supported_kinds: Vec<RouteGroupKind>,
    pub attached_routes: i32,
    pub conditions: Vec<Condition>,
}

/// An address at which a gateway is reached.
#[derive(Debug, PartialEq, Eq)]
pub struct GatewayStatusAddress {
    pub type_: String,
    pub value: String,
}

/// The status of a gateway.
#[derive(Debug, PartialEq)]
pub struct GatewayStatus {
    pub addresses: Option<Vec<GatewayStatusAddress>>,
    pub conditions: Option<Vec<Condition>>,
    pub listeners: Option<Vec<ListenerStatus>>,
}

/// A condition that is true, without an observed generation.
pub open spec fn true_condition(kind: Seq<char>, message: Seq<char>, now: Timestamp) -> ConditionView {
    ConditionView {
        type_: kind,
        status: "True"@,
        reason: kind,
        message: message,
        last_transition_time: now,
        observed_generation: None,
    }
}

/// Whether a listener status is the one reported for a listener: it
/// accepts HTTP routes of the Gateway API group, counts no attached route,
/// and is accepted.
pub open spec fn is_listener_status(s: ListenerStatus, l: Listener, now: Timestamp) -> bool {
    &&& s.name@ == l.name@
    &&& s.supported_kinds@.len() == 1
    &&& s.supported_kinds@[0].group@ == "gateway.networking.k8s.io"@
    &&& s.supported_kinds@[0].kind@ == "HTTPRoute"@
    &&& s.attached_routes == 0
    &&& condition_views(s.conditions@) == seq![true_condition("Accepted"@, "Listener is accepted"@, now)]
}

/// The conditions reported for every gateway: accepted and programmed.
pub open spec fn gateway_conditions(now: Timestamp) -> Seq<ConditionView> {
    seq![
        true_condition("Accepted"@, "Gateway is accepted"@, now),
        true_condition("Programmed"@, "Gateway is programmed"@, now),
    ]
}

fn listener_status(l: &Listener, now: Timestamp) -> (s: ListenerStatus)
    ensures
        is_listener_status(s, *l, now),
{
    let mut supported_kinds: Vec<RouteGroupKind> = Vec::new();
    supported_kinds.push(
        RouteGroupKind {
            group: String::from_str("gateway.networking.k8s.io"),
            kind: String::from_str("HTTPRoute"),
        },
    );
    let mut conditions: Vec<Condition> = Vec::new();
    conditions.push(condition("Accepted", "True", "Accepted", "Listener is accepted", now));
    assert(condition_views(conditions@) =~= seq![true_condition("Accepted"@, "Listener is accepted"@, now)]);
    ListenerStatus { name: l.name.clone(), supported_kinds, attached_routes: 0, conditions }
}

/// The status of a gateway at the given time: reached at the loopback
/// address, accepted and programmed, with an accepted status for each of
/// its listeners, in order.
pub fn build_gateway_status(gateway: &Gateway, now: Timestamp) -> (s: GatewayStatus)
    ensures
        s.addresses is Some,
        s.addresses->0@.len() == 1,
        s.addresses->0@[0].type_@ == "IPAddress"@,
        s.addresses->0@[0].value@ == "127.0.0.1"@,
        s.conditions is Some,
        condition_views(s.conditions->0@) == gateway_conditions(now),
        s.listeners is Some,
        s.listeners->0@.len() == gateway.data.listeners@.len(),
        forall|i: int|
            0 <= i < gateway.data.listeners@.len() ==> is_listener_status(
                #[trigger] s.listeners->0@[i],
                gateway.data.listeners@[i],
                now,
            ),
{
    let listeners = &gateway.data.listeners;
    let mut statuses: Vec<ListenerStatus> = Vec::new();
    let mut i: usize = 0;
    while i < listeners.len()
        invariant
            i <= listeners.len(),
            statuses@.len() == i,
            forall|j: int|
                0 <= j < i ==> is_listener_status(#[trigger] statuses@[j], listeners@[j], now),
        decreases listeners.len() - i,
    {
        statuses.push(listener_status(&listeners[i], now));
        i += 1;
    }
    let mut addresses: Vec<GatewayStatusAddress> = Vec::new();
    addresses.push(
        GatewayStatusAddress {
            type_: String::from_str("IPAddress"),
            value: String::from_str("127.0.0.1"),
        },
    );
    let mut conditions: Vec<Condition> = Vec::new();
    conditions.push(condition("Accepted", "True", "Accepted", "Gateway is accepted", now));
    conditions.push(condition("Programmed", "True", "Programmed", "Gateway is programmed", now));
    assert(condition_views(conditions@) =~= gateway_conditions(now));
    GatewayStatus {
        addresses: Some(addresses),
        conditions: Some(conditions),
        listeners: Some(statuses),
    }
}

} // verus!
