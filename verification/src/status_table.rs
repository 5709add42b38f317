//! The status tables of the command line tool: which resources a status
//! request covers, how they are fetched, and the row shown for each.
use crate::age::{format_age, representable, status_age};
use crate::api::{Condition, StaticResponseFilterStatus, Timestamp};
use crate::decimal::{decimal, decimal_int, format_i64, format_u64};
use crate::emoji::{lowered, to_lowercase};
use crate::gateway_classes::{GatewayClassSpec, GatewayClassStatus};
use crate::gateway_status::GatewayStatus;
use crate::object_ref::ObjectMeta;
use crate::text::{
    clone_opt_string, first_value, join, joined, lookup_first, opt_view, push_str, str_equals,
    string_views, text_or_empty, unwrap_or_empty,
};
use vstd::prelude::*;
use vstd::string::*;

verus! {

/// The kinds of resources whose status the tool shows.
#[derive(Debug, Clone, Copy, PartialEq, Eq)]
pub enum StatusResourceType {
    Gateway,
    HTTPRoute,
    GatewayClass,
    StaticResponseFilter,
    All,
}

/// The resource type that a name or alias stands for, once lowercased.
pub open spec fn resource_type_of(s: Seq<char>) -> Option<StatusResourceType> {
    if s == "gateway"@ || s == "gw"@ {
        Some(StatusResourceType::Gateway)
    } else if s == "httproute"@ || s == "route"@ {
        Some(StatusResourceType::HTTPRoute)
    } else if s == "gatewayclass"@ || s == "gwc"@ {
        Some(StatusResourceType::GatewayClass)
    } else if s == "staticresponsefilter"@ || s == "srf"@ {
        Some(StatusResourceType::StaticResponseFilter)
    } else if s == "all"@ {
        Some(StatusResourceType::All)
    } else {
        None
    }
}

/// The resource type that a text names, in any case; the error names the
/// text as it was given.
pub fn parse_status_resource_type(s: &str) -> (r: Result<StatusResourceType, String>)
    ensures
        match r {
            Ok(t) => resource_type_of(lowered(s@)) == Some(t),
            Err(m) => resource_type_of(lowered(s@)) is None && m@ == "Invalid resource type: "@
                + s@,
        },
{
    let l = to_lowercase(s);
    if str_equals(&l, "gateway") || str_equals(&l, "gw") {
        Ok(StatusResourceType::Gateway)
    } else if str_equals(&l, "httproute") || str_equals(&l, "route") {
        Ok(StatusResourceType::HTTPRoute)
    } else if str_equals(&l, "gatewayclass") || str_equals(&l, "gwc") {
        Ok(StatusResourceType::GatewayClass)
    } else if str_equals(&l, "staticresponsefilter") || str_equals(&l, "srf") {
        Ok(StatusResourceType::StaticResponseFilter)
    } else if str_equals(&l, "all") {
        Ok(StatusResourceType::All)
    } else {
        let mut m = String::from_str("Invalid resource type: ");
        push_str(&mut m, s);
        Err(m)
    }
}

impl std::str::FromStr for StatusResourceType {
    type Err = String;

    fn from_str(s: &str) -> (r: Result<Self, String>)
        ensures
            match r {
                Ok(t) => resource_type_of(lowered(s@)) == Some(t),
                Err(m) => resource_type_of(lowered(s@)) is None && m@ == "Invalid resource type: "@
                    + s@,
            },
    {
        parse_status_resource_type(s)
    }
}

/// The resource types that a status request shows, in order: all four for
/// `All`, else the one asked for.
pub fn status_sections(t: StatusResourceType) -> (r: Vec<StatusResourceType>)
    ensures
        r@ == if t == StatusResourceType::All {
            seq![
                StatusResourceType::Gateway,
                StatusResourceType::HTTPRoute,
                StatusResourceType::GatewayClass,
                StatusResourceType::StaticResponseFilter,
            ]
        } else {
            seq![t]
        },
{
    let mut r: Vec<StatusResourceType> = Vec::new();
    match t {
        StatusResourceType::All => {
            r.push(StatusResourceType::Gateway);
            r.push(StatusResourceType::HTTPRoute);
            r.push(StatusResourceType::GatewayClass);
            r.push(StatusResourceType::StaticResponseFilter);
        },
        _ => r.push(t),
    }
    assert(r@ =~= if t == StatusResourceType::All {
        seq![
            StatusResourceType::Gateway,
            StatusResourceType::HTTPRoute,
            StatusResourceType::GatewayClass,
            StatusResourceType::StaticResponseFilter,
        ]
    } else {
        seq![t]
    });
    r
}

/// How the objects of a status table are fetched: one object by name, or
/// all of them, in a namespace or across namespaces.
#[derive(Debug, PartialEq, Eq)]
pub enum StatusQuery {
    Get(Option<String>, String),
    List(Option<String>),
}

/// The fetch of a namespaced resource: by name in the namespace, or all in
/// the namespace, or all across namespaces; a name without a namespace is
/// refused.
pub fn namespaced_status_query(namespace: &Option<String>, name: &Option<String>, kind: &str) -> (r:
    Result<StatusQuery, String>)
    ensures
        match r {
            Ok(StatusQuery::Get(ns, n)) => namespace is Some && opt_view(ns) == opt_view(*namespace)
                && opt_view(*name) == Some(n@),
            Ok(StatusQuery::List(ns)) => name is None && opt_view(ns) == opt_view(*namespace),
            Err(m) => namespace is None && name is Some && m@
                == "Specify namespace when getting a specific "@ + kind@,
        },
{
    match (namespace, name) {
        (Some(ns), Some(n)) => Ok(StatusQuery::Get(Some(ns.clone()), n.clone())),
        (Some(ns), None) => Ok(StatusQuery::List(Some(ns.clone()))),
        (None, Some(_)) => {
            let mut m = String::from_str("Specify namespace when getting a specific ");
            push_str(&mut m, kind);
            Err(m)
        },
        (None, None) => Ok(StatusQuery::List(None)),
    }
}

/// The fetch of a cluster-wide resource: by name, or all of them.
pub fn cluster_status_query(name: &Option<String>) -> (r: StatusQuery)
    ensures
        match r {
            StatusQuery::Get(ns, n) => ns is None && opt_view(*name) == Some(n@),
            StatusQuery::List(ns) => ns is None && name is None,
        },
{
    match name {
        Some(n) => StatusQuery::Get(None, n.clone()),
        None => StatusQuery::List(None),
    }
}

/// The columns of a status table that get emoji when asked for: the
/// condition columns, and the status code of static response filters.
pub fn status_emoji_columns(t: StatusResourceType, emoji: bool) -> (r: Vec<usize>)
    ensures
        r@ == if !emoji {
            Seq::<usize>::empty()
        } else {
            match t {
                StatusResourceType::Gateway => seq![2usize, 3usize],
                StatusResourceType::HTTPRoute => seq![3usize, 4usize],
                StatusResourceType::GatewayClass => seq![1usize],
                StatusResourceType::StaticResponseFilter => seq![2usize, 3usize, 4usize, 6usize],
                StatusResourceType::All => Seq::<usize>::empty(),
            }
        },
{
    let mut r: Vec<usize> = Vec::new();
    if emoji {
        match t {
            StatusResourceType::Gateway => {
                r.push(2);
                r.push(3);
            },
            StatusResourceType::HTTPRoute => {
                r.push(3);
                r.push(4);
            },
            StatusResourceType::GatewayClass => {
                r.push(1);
            },
            StatusResourceType::StaticResponseFilter => {
                r.push(2);
                r.push(3);
                r.push(4);
                r.push(6);
            },
            StatusResourceType::All => {},
        }
    }
    assert(r@ =~= if !emoji {
        Seq::<usize>::empty()
    } else {
        match t {
            StatusResourceType::Gateway => seq![2usize, 3usize],
            StatusResourceType::HTTPRoute => seq![3usize, 4usize],
            StatusResourceType::GatewayClass => seq![1usize],
            StatusResourceType::StaticResponseFilter => seq![2usize, 3usize, 4usize, 6usize],
            StatusResourceType::All => Seq::<usize>::empty(),
        }
    });
    r
}

/// The first condition of the given type.
pub open spec fn find_condition(s: Seq<Condition>, t: Seq<char>) -> Option<Condition>
    decreases s.len(),
{
    if s.len() == 0 {
        None
    } else if s[0].type_@ == t {
        Some(s[0])
    } else {
        find_condition(s.drop_first(), t)
    }
}

/// How a condition is shown: `True` when its status is true, `False`
/// otherwise, `Unknown` when there is no such condition.
pub open spec fn flag_of(c: Option<Condition>) -> Seq<char> {
    match c {
        Some(c) => if c.status@ == "True"@ {
            "True"@
        } else {
            "False"@
        },
        None => "Unknown"@,
    }
}

/// How the condition of a type is shown among optional conditions.
pub open spec fn condition_flag(conditions: Option<Vec<Condition>>, t: Seq<char>) -> Seq<char> {
    match conditions {
        Some(v) => flag_of(find_condition(v@, t)),
        None => "Unknown"@,
    }
}

fn find_condition_index(conditions: &Vec<Condition>, t: &str) -> (r: Option<usize>)
    ensures
        match r {
            Some(i) => i < conditions@.len() && find_condition(conditions@, t@) == Some(
                conditions@[i as int],
            ),
            None => find_condition(conditions@, t@) is None,
        },
{
    let mut i: usize = 0;
    assert(conditions@.skip(0) =~= conditions@);
    while i < conditions.len()
        invariant
            i <= conditions.len(),
            find_condition(conditions@, t@) == find_condition(conditions@.skip(i as int), t@),
        decreases conditions.len() - i,
    {
        assert(conditions@.skip(i as int)[0] == conditions@[i as int]);
        if str_equals(&conditions[i].type_, t) {
            return Some(i);
        }
        assert(conditions@.skip(i as int).drop_first() =~= conditions@.skip(i + 1));
        i += 1;
    }
    None
}

fn flag_text(conditions: &Vec<Condition>, t: &str) -> (r: String)
    ensures
        r@ == flag_of(find_condition(conditions@, t@)),
{
    match find_condition_index(conditions, t) {
        Some(i) => if str_equals(&conditions[i].status, "True") {
            String::from_str("True")
        } else {
            String::from_str("False")
        },
        None => String::from_str("Unknown"),
    }
}

fn condition_flag_text(conditions: &Option<Vec<Condition>>, t: &str) -> (r: String)
    ensures
        r@ == condition_flag(*conditions, t@),
{
    match conditions {
        Some(v) => flag_text(v, t),
        None => String::from_str("Unknown"),
    }
}

/// Whether an optional creation time can be shown as an age.
pub open spec fn age_ok(meta: ObjectMeta) -> bool {
    meta.creation_timestamp matches Some(t) ==> representable(t)
}

/// A row of the gateway status table.
#[derive(Debug, PartialEq, Eq)]
pub struct GatewayStatusRow {
    pub name: String,
    pub namespace: String,
    pub accepted: String,
    pub programmed: String,
    pub addresses: String,
    pub listeners: String,
    pub age: String,
}

/// Whether a row shows a gateway's status at `now`: its accepted and
/// programmed conditions, its addresses joined by commas (`None` without
/// them) and the number of its listener statuses.
pub open spec fn gateway_status_row_of(
    r: GatewayStatusRow,
    meta: ObjectMeta,
    status: Option<GatewayStatus>,
    now: Timestamp,
) -> bool {
    &&& r.name@ == text_or_empty(meta.name)
    &&& r.namespace@ == text_or_empty(meta.namespace)
    &&& r.age@ == status_age(meta.creation_timestamp, now)
    &&& match status {
        Some(s) => {
            &&& r.accepted@ == condition_flag(s.conditions, "Accepted"@)
            &&& r.programmed@ == condition_flag(s.conditions, "Programmed"@)
            &&& r.addresses@ == match s.addresses {
                Some(a) => joined(
                    a@.map_values(|x: crate::gateway_status::GatewayStatusAddress| x.value@),
                    ","@,
                ),
                None => "None"@,
            }
            &&& r.listeners@ == match s.listeners {
                Some(l) => decimal(l@.len()),
                None => "0"@,
            }
        },
        None => {
            &&& r.accepted@ == "Unknown"@
            &&& r.programmed@ == "Unknown"@
            &&& r.addresses@ == "None"@
            &&& r.listeners@ == "0"@
        },
    }
}

/// The status row of a gateway.
pub fn gateway_status_row(meta: &ObjectMeta, status: &Option<GatewayStatus>, now: Timestamp) -> (r:
    GatewayStatusRow)
    requires
        representable(now),
        age_ok(*meta),
    ensures
        gateway_status_row_of(r, *meta, *status, now),
{
    let (accepted, programmed, addresses, listeners) = match status {
        Some(s) => {
            let addresses = match &s.addresses {
                Some(a) => {
                    let mut values: Vec<String> = Vec::new();
                    let mut k: usize = 0;
                    while k < a.len()
                        invariant
                            k <= a.len(),
                            string_views(values@) == a@.take(k as int).map_values(
                                |x: crate::gateway_status::GatewayStatusAddress| x.value@,
                            ),
                        decreases a.len() - k,
                    {
                        let ghost before = values@;
                        values.push(a[k].value.clone());
                        assert(string_views(values@) =~= string_views(before).push(a@[k as int].value@));
                        assert(a@.take(k + 1) =~= a@.take(k as int).push(a@[k as int]));
                        k += 1;
                    }
                    assert(a@.take(a.len() as int) =~= a@);
                    join(&values, ",")
                },
                None => String::from_str("None"),
            };
            let listeners = match &s.listeners {
                Some(l) => format_u64(l.len() as u64),
                None => String::from_str("0"),
            };
            (
                condition_flag_text(&s.conditions, "Accepted"),
                condition_flag_text(&s.conditions, "Programmed"),
                addresses,
                listeners,
            )
        },
        None => (
            String::from_str("Unknown"),
            String::from_str("Unknown"),
            String::from_str("None"),
            String::from_str("0"),
        ),
    };
    GatewayStatusRow {
        name: unwrap_or_empty(&meta.name),
        namespace: unwrap_or_empty(&meta.namespace),
        accepted,
        programmed,
        addresses,
        listeners,
        age: format_age(meta.creation_timestamp, now),
    }
}

/// The status that a route has from one of its parents.
pub struct RouteParentStatus {
    pub conditions: Option<Vec<Condition>>,
}

/// The status of a route: one entry per parent.
pub struct RouteStatus {
    pub parents: Vec<RouteParentStatus>,
}

/// A row of the route status table.
#[derive(Debug, PartialEq, Eq)]
pub struct HttpRouteStatusRow {
    pub name: String,
    pub namespace: String,
    pub parents: String,
    pub accepted: String,
    pub resolved_refs: String,
    pub reason: String,
    pub age: String,
}

/// The conditions of a parent status, none when it reports none.
pub open spec fn parent_conditions(p: RouteParentStatus) -> Seq<Condition> {
    match p.conditions {
        Some(c) => c@,
        None => Seq::empty(),
    }
}

/// The reason shown for a route: that of its first parent's accepted
/// condition when that is not true, else `Accepted`.
pub open spec fn route_reason(conditions: Seq<Condition>) -> Seq<char> {
    match find_condition(conditions, "Accepted"@) {
        Some(c) => if c.status@ != "True"@ {
            c.reason@
        } else {
            "Accepted"@
        },
        None => "Accepted"@,
    }
}

/// Whether a row shows a route's status at `now`: the number of its
/// parents, and the accepted and resolved-references conditions and the
/// reason from its first parent.
pub open spec fn route_status_row_of(
    r: HttpRouteStatusRow,
    meta: ObjectMeta,
    status: Option<RouteStatus>,
    now: Timestamp,
) -> bool {
    &&& r.name@ == text_or_empty(meta.name)
    &&& r.namespace@ == text_or_empty(meta.namespace)
    &&& r.age@ == status_age(meta.creation_timestamp, now)
    &&& match status {
        Some(s) => {
            &&& r.parents@ == decimal(s.parents@.len())
            &&& if s.parents@.len() > 0 {
                let c = parent_conditions(s.parents@[0]);
                &&& r.accepted@ == flag_of(find_condition(c, "Accepted"@))
                &&& r.resolved_refs@ == flag_of(find_condition(c, "ResolvedRefs"@))
                &&& r.reason@ == route_reason(c)
            } else {
                &&& r.accepted@ == "Unknown"@
                &&& r.resolved_refs@ == "Unknown"@
                &&& r.reason@ == "No parents"@
            }
        },
        None => {
            &&& r.parents@ == "0"@
            &&& r.accepted@ == "Unknown"@
            &&& r.resolved_refs@ == "Unknown"@
            &&& r.reason@ == "No status"@
        },
    }
}

/// The status row of a route.
pub fn httproute_status_row(meta: &ObjectMeta, status: &Option<RouteStatus>, now: Timestamp) -> (r:
    HttpRouteStatusRow)
    requires
        representable(now),
        age_ok(*meta),
    ensures
        route_status_row_of(r, *meta, *status, now),
{
    let (parents, accepted, resolved_refs, reason) = match status {
        Some(s) => {
            let parents = format_u64(s.parents.len() as u64);
            if s.parents.len() > 0 {
                let empty: Vec<Condition> = Vec::new();
                let conditions = match &s.parents[0].conditions {
                    Some(c) => c,
                    None => &empty,
                };
                assert(conditions@ == parent_conditions(s.parents@[0]));
                let reason = match find_condition_index(conditions, "Accepted") {
                    Some(i) => if str_equals(&conditions[i].status, "True") {
                        String::from_str("Accepted")
                    } else {
                        conditions[i].reason.clone()
                    },
                    None => String::from_str("Accepted"),
                };
                (
                    parents,
                    flag_text(conditions, "Accepted"),
                    flag_text(conditions, "ResolvedRefs"),
                    reason,
                )
            } else {
                (
                    parents,
                    String::from_str("Unknown"),
                    String::from_str("Unknown"),
                    String::from_str("No parents"),
                )
            }
        },
        None => (
            String::from_str("0"),
            String::from_str("Unknown"),
            String::from_str("Unknown"),
            String::from_str("No status"),
        ),
    };
    HttpRouteStatusRow {
        name: unwrap_or_empty(&meta.name),
        namespace: unwrap_or_empty(&meta.namespace),
        parents,
        accepted,
        resolved_refs,
        reason,
        age: format_age(meta.creation_timestamp, now),
    }
}

/// A row of the gateway class status table.
#[derive(Debug, PartialEq, Eq)]
pub struct GatewayClassStatusRow {
    pub name: String,
    pub accepted: String,
    pub controller: String,
    pub description: String,
    pub age: String,
}

/// Whether a row shows a gateway class's status at `now`: its accepted
/// condition, its controller, and its `description` annotation (empty
/// without one).
pub open spec fn class_status_row_of(
    r: GatewayClassStatusRow,
    meta: ObjectMeta,
    spec: GatewayClassSpec,
    annotations: Option<Vec<(String, String)>>,
    status: Option<GatewayClassStatus>,
    now: Timestamp,
) -> bool {
    &&& r.name@ == text_or_empty(meta.name)
    &&& r.accepted@ == match status {
        Some(s) => condition_flag(s.conditions, "Accepted"@),
        None => "Unknown"@,
    }
    &&& r.controller@ == spec.controller_name@
    &&& r.description@ == match annotations {
        Some(a) => match first_value(a@, "description"@) {
            Some(d) => d@,
            None => Seq::empty(),
        },
        None => Seq::empty(),
    }
    &&& r.age@ == status_age(meta.creation_timestamp, now)
}

/// The status row of a gateway class.
pub fn gatewayclass_status_row(
    meta: &ObjectMeta,
    spec: &GatewayClassSpec,
    annotations: &Option<Vec<(String, String)>>,
    status: &Option<GatewayClassStatus>,
    now: Timestamp,
) -> (r: GatewayClassStatusRow)
    requires
        representable(now),
        age_ok(*meta),
    ensures
        class_status_row_of(r, *meta, *spec, *annotations, *status, now),
{
    let accepted = match status {
        Some(s) => condition_flag_text(&s.conditions, "Accepted"),
        None => String::from_str("Unknown"),
    };
    let description = match annotations {
        Some(a) => match lookup_first(a, "description") {
            Some(d) => d.clone(),
            None => String::new(),
        },
        None => String::new(),
    };
    GatewayClassStatusRow {
        name: unwrap_or_empty(&meta.name),
        accepted,
        controller: spec.controller_name.clone(),
        description,
        age: format_age(meta.creation_timestamp, now),
    }
}

/// A row of the static response filter status table.
#[derive(Debug, PartialEq, Eq)]
pub struct StaticResponseFilterStatusRow {
    pub name: String,
    pub namespace: String,
    pub accepted: String,
    pub ready: String,
    pub attached: String,
    pub attached_routes: String,
    pub status_code: String,
    pub age: String,
}

/// Whether a row shows a static response filter's status at `now`: its
/// accepted, ready and attached conditions, the number of routes it is
/// attached to, and the status code of its specification.
pub open spec fn filter_status_row_of(
    r: StaticResponseFilterStatusRow,
    meta: ObjectMeta,
    status_code: u16,
    status: Option<StaticResponseFilterStatus>,
    now: Timestamp,
) -> bool {
    &&& r.name@ == text_or_empty(meta.name)
    &&& r.namespace@ == text_or_empty(meta.namespace)
    &&& r.status_code@ == decimal(status_code as nat)
    &&& r.age@ == status_age(meta.creation_timestamp, now)
    &&& match status {
        Some(s) => {
            &&& r.accepted@ == condition_flag(s.conditions, "Accepted"@)
            &&& r.ready@ == condition_flag(s.conditions, "Ready"@)
            &&& r.attached@ == condition_flag(s.conditions, "Attached"@)
            &&& r.attached_routes@ == decimal_int(s.attached_routes as int)
        },
        None => {
            &&& r.accepted@ == "Unknown"@
            &&& r.ready@ == "Unknown"@
            &&& r.attached@ == "Unknown"@
            &&& r.attached_routes@ == "0"@
        },
    }
}

/// The status row of a static response filter.
pub fn staticresponsefilter_status_row(
    meta: &ObjectMeta,
    status_code: u16,
    status: &Option<StaticResponseFilterStatus>,
    now: Timestamp,
) -> (r: StaticResponseFilterStatusRow)
    requires
        representable(now),
        age_ok(*meta),
    ensures
        filter_status_row_of(r, *meta, status_code, *status, now),
{
    let (accepted, ready, attached, attached_routes) = match status {
        Some(s) => (
            condition_flag_text(&s.conditions, "Accepted"),
            condition_flag_text(&s.conditions, "Ready"),
            condition_flag_text(&s.conditions, "Attached"),
            format_i64(s.attached_routes as i64),
        ),
        None => (
            String::from_str("Unknown"),
            String::from_str("Unknown"),
            String::from_str("Unknown"),
            String::from_str("0"),
        ),
    };
    StaticResponseFilterStatusRow {
        name: unwrap_or_empty(&meta.name),
        namespace: unwrap_or_empty(&meta.namespace),
        accepted,
        ready,
        attached,
        attached_routes,
        status_code: format_u64(status_code as u64),
        age: format_age(meta.creation_timestamp, now),
    }
}

} // verus!
