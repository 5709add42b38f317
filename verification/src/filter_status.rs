//! The status of static response filters: whether their configuration is
//! valid, whether they are ready, and how many routes use them.
use crate::api::{
    condition_reason_text, condition_type_text, condition_views, Condition, ConditionView,
    StaticResponseFilterBody, StaticResponseFilterBodyFormat, StaticResponseFilterConditionReason,
    StaticResponseFilterConditionType, StaticResponseFilterSpec, StaticResponseFilterStatus,
    Timestamp,
};
use crate::decimal::{decimal_int, format_i64};
use crate::routes::{flat, HttpRoute};
use crate::text::{push_str, str_equals};
use std::sync::Arc;
use vstd::prelude::*;
use vstd::string::*;

verus! {

/// Whether a status code lies in the range of valid HTTP status codes.
pub fn is_valid_status_code(status_code: u16) -> (valid: bool)
    ensures
        valid == (100 <= status_code && status_code <= 599),
{
    100 <= status_code && status_code <= 599
}

/// Whether a body is valid: no body is; a text body needs its text, a binary
/// body its binary content.
pub open spec fn body_valid(body: Option<StaticResponseFilterBody>) -> bool {
    match body {
        Some(b) => match b.format {
            StaticResponseFilterBodyFormat::Text => b.text is Some,
            StaticResponseFilterBodyFormat::Binary => b.binary is Some,
        },
        None => true,
    }
}

/// Whether a body configuration is valid.
pub fn is_valid_body_config(body: Option<&StaticResponseFilterBody>) -> (valid: bool)
    ensures
        valid == body_valid(
            match body {
                Some(b) => Some(*b),
                None => None,
            },
        ),
{
    match body {
        Some(b) => match b.format {
            StaticResponseFilterBodyFormat::Text => b.text.is_some(),
            StaticResponseFilterBodyFormat::Binary => b.binary.is_some(),
        },
        None => true,
    }
}

/// Whether a route uses the static response filter of the given name in the
/// given namespace: some filter of some rule refers to it by this project's
/// group and the `StaticResponseFilter` kind, and the route lives in that
/// namespace.
pub open spec fn filter_attached(name: Seq<char>, namespace: Seq<char>, route: HttpRoute) -> bool {
    let rules = flat(route.data.rules);
    &&& route.metadata.namespace is Some
    &&& route.metadata.namespace->0@ == namespace
    &&& exists|i: int, j: int|
        0 <= i < rules.len() && 0 <= j < flat(rules[i].filters).len() && refers_to_filter(
            #[trigger] flat(rules[i].filters)[j],
            name,
        )
}

/// Whether a route filter refers to the static response filter of the given
/// name.
pub open spec fn refers_to_filter(f: crate::routes::RouteFilterSpec, name: Seq<char>) -> bool {
    match f.extension_ref {
        Some(e) => e.group@ == "vale-gateway.whitefamily.in"@ && e.kind@ == "StaticResponseFilter"@
            && e.name@ == name,
        None => false,
    }
}

/// Whether the static response filter of the given name and namespace is
/// attached to a route.
pub fn is_filter_attached_to_route(filter_name: &String, filter_namespace: &String, route: &HttpRoute) -> (b: bool)
    ensures
        b == filter_attached(filter_name@, filter_namespace@, *route),
{
    let same_namespace = match &route.metadata.namespace {
        Some(n) => n.eq(filter_namespace),
        None => false,
    };
    let rules = match &route.data.rules {
        Some(r) => r,
        None => return false,
    };
    let mut i: usize = 0;
    while i < rules.len()
        invariant
            i <= rules.len(),
            flat(route.data.rules) == rules@,
            same_namespace == (route.metadata.namespace is Some && route.metadata.namespace->0@
                == filter_namespace@),
            forall|a: int, j: int|
                0 <= a < i && 0 <= j < flat(rules@[a].filters).len() ==> !refers_to_filter(
                    #[trigger] flat(rules@[a].filters)[j],
                    filter_name@,
                ),
        decreases rules.len() - i,
    {
        if let Some(filters) = &rules[i].filters {
            let mut j: usize = 0;
            while j < filters.len()
                invariant
                    j <= filters.len(),
                    i < rules.len(),
                    flat(route.data.rules) == rules@,
                    same_namespace == (route.metadata.namespace is Some && route.metadata.namespace->0@
                        == filter_namespace@),
                    flat(rules@[i as int].filters) == filters@,
                    forall|k: int| 0 <= k < j ==> !refers_to_filter(#[trigger] filters@[k], filter_name@),
                decreases filters.len() - j,
            {
                if let Some(e) = &filters[j].extension_ref {
                    if str_equals(&e.group, "vale-gateway.whitefamily.in") && str_equals(
                        &e.kind,
                        "StaticResponseFilter",
                    ) && e.name.eq(filter_name) {
                        assert(refers_to_filter(flat(rules@[i as int].filters)[j as int], filter_name@));
                        return same_namespace;
                    }
                }
                j += 1;
            }
        }
        i += 1;
    }
    false
}

/// The number of routes among the given ones that use the filter.
pub open spec fn attached_count(name: Seq<char>, namespace: Seq<char>, routes: Seq<Arc<HttpRoute>>) -> nat
    decreases routes.len(),
{
    if routes.len() == 0 {
        0
    } else {
        attached_count(name, namespace, routes.drop_last()) + if filter_attached(
            name,
            namespace,
            *routes.last(),
        ) {
            1nat
        } else {
            0nat
        }
    }
}

/// At most all routes use a filter.
pub proof fn lemma_attached_count_bounded(name: Seq<char>, namespace: Seq<char>, routes: Seq<Arc<HttpRoute>>)
    ensures
        attached_count(name, namespace, routes) <= routes.len(),
    decreases routes.len(),
{
    if routes.len() > 0 {
        lemma_attached_count_bounded(name, namespace, routes.drop_last());
    }
}

/// The text of an optional string, empty when it is absent.
pub open spec fn or_empty(o: Option<String>) -> Seq<char> {
    match o {
        Some(s) => s@,
        None => Seq::empty(),
    }
}

/// The number of routes that use a static response filter; a filter without
/// a name or a namespace counts as having an empty one.
pub fn count_attached_routes(
    filter_name: &Option<String>,
    filter_namespace: &Option<String>,
    http_routes: &Vec<Arc<HttpRoute>>,
) -> (n: i32)
    requires
        http_routes.len() <= i32::MAX,
    ensures
        n == attached_count(or_empty(*filter_name), or_empty(*filter_namespace), http_routes@),
{
    let name = match filter_name {
        Some(n) => n.clone(),
        None => String::new(),
    };
    let namespace = match filter_namespace {
        Some(n) => n.clone(),
        None => String::new(),
    };
    let mut count: i32 = 0;
    let mut i: usize = 0;
    while i < http_routes.len()
        invariant
            i <= http_routes.len(),
            http_routes.len() <= i32::MAX,
            name@ == or_empty(*filter_name),
            namespace@ == or_empty(*filter_namespace),
            count == attached_count(name@, namespace@, http_routes@.take(i as int)),
        decreases http_routes.len() - i,
    {
        assert(http_routes@.take(i + 1).drop_last() =~= http_routes@.take(i as int));
        proof {
            lemma_attached_count_bounded(name@, namespace@, http_routes@.take(i as int));
        }
        if is_filter_attached_to_route(&name, &namespace, &http_routes[i]) {
            count += 1;
        }
        i += 1;
    }
    assert(http_routes@.take(http_routes.len() as int) =~= http_routes@);
    count
}

/// The condition with the given parts, without an observed generation.
pub open spec fn condition_of(
    t: StaticResponseFilterConditionType,
    status: Seq<char>,
    reason: StaticResponseFilterConditionReason,
    message: Seq<char>,
    now: Timestamp,
) -> ConditionView {
    ConditionView {
        type_: condition_type_text(t),
        status: status,
        reason: condition_reason_text(reason),
        message: message,
        last_transition_time: now,
        observed_generation: None,
    }
}

/// The conditions of a static response filter's status, in order:
/// `Accepted` (true when the status code and the body are valid), `Ready`
/// (true exactly when accepted) and `Attached` (true when some route uses
/// the filter).
pub open spec fn filter_conditions(spec: StaticResponseFilterSpec, attached_routes: i32, now: Timestamp) -> Seq<ConditionView> {
    let valid = 100 <= spec.status_code <= 599 && body_valid(spec.body);
    let accepted = if valid {
        condition_of(
            StaticResponseFilterConditionType::Accepted,
            "True"@,
            StaticResponseFilterConditionReason::Accepted,
            "StaticResponseFilter configuration is valid"@,
            now,
        )
    } else {
        condition_of(
            StaticResponseFilterConditionType::Accepted,
            "False"@,
            StaticResponseFilterConditionReason::InvalidConfiguration,
            "StaticResponseFilter configuration is invalid"@,
            now,
        )
    };
    let ready = if valid {
        condition_of(
            StaticResponseFilterConditionType::Ready,
            "True"@,
            StaticResponseFilterConditionReason::Ready,
            "StaticResponseFilter is ready to serve responses"@,
            now,
        )
    } else {
        condition_of(
            StaticResponseFilterConditionType::Ready,
            "False"@,
            StaticResponseFilterConditionReason::NotReady,
            "StaticResponseFilter is not ready due to invalid configuration"@,
            now,
        )
    };
    let attached = if attached_routes > 0 {
        condition_of(
            StaticResponseFilterConditionType::Attached,
            "True"@,
            StaticResponseFilterConditionReason::AttachedToRoute,
            "StaticResponseFilter is attached to "@ + decimal_int(attached_routes as int)
                + " route(s)"@,
            now,
        )
    } else {
        condition_of(
            StaticResponseFilterConditionType::Attached,
            "False"@,
            StaticResponseFilterConditionReason::NotAttached,
            "StaticResponseFilter is not attached to any routes"@,
            now,
        )
    };
    seq![accepted, ready, attached]
}

fn make_condition(
    t: StaticResponseFilterConditionType,
    status: &str,
    reason: StaticResponseFilterConditionReason,
    message: String,
    now: Timestamp,
) -> (c: Condition)
    ensures
        c@ == condition_of(t, status@, reason, message@, now),
{
    Condition {
        type_: String::from_str(t.as_str()),
        status: String::from_str(status),
        reason: String::from_str(reason.as_str()),
        message,
        last_transition_time: now,
        observed_generation: None,
    }
}

/// The status of a static response filter, at the given time, given how many
/// routes use it.
pub fn create_filter_status(spec: &StaticResponseFilterSpec, attached_routes: i32, now: Timestamp) -> (s: StaticResponseFilterStatus)
    ensures
        s.conditions is Some,
        condition_views(s.conditions->0@) == filter_conditions(*spec, attached_routes, now),
        s.attached_routes == attached_routes,
        s.last_updated == Some(now),
{
    proof {
        reveal_strlit("True");
        reveal_strlit("False");
    }
    let valid = is_valid_status_code(spec.status_code) && is_valid_body_config(
        match &spec.body {
            Some(b) => Some(b),
            None => None,
        },
    );
    let accepted = if valid {
        make_condition(
            StaticResponseFilterConditionType::Accepted,
            "True",
            StaticResponseFilterConditionReason::Accepted,
            String::from_str("StaticResponseFilter configuration is valid"),
            now,
        )
    } else {
        make_condition(
            StaticResponseFilterConditionType::Accepted,
            "False",
            StaticResponseFilterConditionReason::InvalidConfiguration,
            String::from_str("StaticResponseFilter configuration is invalid"),
            now,
        )
    };
    let accepted_true = str_equals(&accepted.status, "True");
    assert(accepted_true == valid) by {
        reveal_strlit("True");
        reveal_strlit("False");
        assert("True"@[0] != "False"@[0]);
    }
    let ready = if accepted_true {
        make_condition(
            StaticResponseFilterConditionType::Ready,
            "True",
            StaticResponseFilterConditionReason::Ready,
            String::from_str("StaticResponseFilter is ready to serve responses"),
            now,
        )
    } else {
        make_condition(
            StaticResponseFilterConditionType::Ready,
            "False",
            StaticResponseFilterConditionReason::NotReady,
            String::from_str("StaticResponseFilter is not ready due to invalid configuration"),
            now,
        )
    };
    let attached = if attached_routes > 0 {
        let mut message = String::from_str("StaticResponseFilter is attached to ");
        let count = format_i64(attached_routes as i64);
        push_str(&mut message, count.as_str());
        push_str(&mut message, " route(s)");
        make_condition(
            StaticResponseFilterConditionType::Attached,
            "True",
            StaticResponseFilterConditionReason::AttachedToRoute,
            message,
            now,
        )
    } else {
        make_condition(
            StaticResponseFilterConditionType::Attached,
            "False",
            StaticResponseFilterConditionReason::NotAttached,
            String::from_str("StaticResponseFilter is not attached to any routes"),
            now,
        )
    };
    let mut conditions: Vec<Condition> = Vec::new();
    conditions.push(accepted);
    conditions.push(ready);
    conditions.push(attached);
    let ghost fc = filter_conditions(*spec, attached_routes, now);
    assert(valid == (100 <= spec.status_code <= 599 && body_valid(spec.body)));
    assert(conditions@[0]@ == fc[0]);
    assert(conditions@[1]@ == fc[1]);
    assert(conditions@[2]@ == fc[2]);
    assert(condition_views(conditions@) =~= fc);
    StaticResponseFilterStatus { conditions: Some(conditions), attached_routes, last_updated: Some(now) }
}

/// A filter is ready exactly when it is accepted: the `Ready` condition has
/// the status of the `Accepted` condition, and the conditions come in the
/// order `Accepted`, `Ready`, `Attached`.
pub proof fn law_ready_follows_accepted(spec: StaticResponseFilterSpec, attached_routes: i32, now: Timestamp)
    ensures
        filter_conditions(spec, attached_routes, now).len() == 3,
        filter_conditions(spec, attached_routes, now)[1].status == filter_conditions(
            spec,
            attached_routes,
            now,
        )[0].status,
        filter_conditions(spec, attached_routes, now)[0].type_ == "Accepted"@,
        filter_conditions(spec, attached_routes, now)[1].type_ == "Ready"@,
        filter_conditions(spec, attached_routes, now)[2].type_ == "Attached"@,
{
}

/// A filter is accepted exactly when its status code is a valid HTTP status
/// code and its body is valid.
pub proof fn law_accepted_iff_valid(spec: StaticResponseFilterSpec, attached_routes: i32, now: Timestamp)
    ensures
        (filter_conditions(spec, attached_routes, now)[0].status == "True"@) <==> (100
            <= spec.status_code <= 599 && body_valid(spec.body)),
{
    reveal_strlit("True");
    reveal_strlit("False");
    assert("True"@[0] != "False"@[0]);
}

/// A filter is reported attached exactly when some route uses it.
pub proof fn law_attached_iff_used(spec: StaticResponseFilterSpec, attached_routes: i32, now: Timestamp)
    ensures
        (filter_conditions(spec, attached_routes, now)[2].status == "True"@) <==> attached_routes
            > 0,
{
    reveal_strlit("True");
    reveal_strlit("False");
    assert("True"@[0] != "False"@[0]);
}

/// What makes a body valid is decided by its format: a filter with a
/// valid status code and a binary body is accepted exactly when the body has
/// binary content, whatever its text, and one with a text body exactly when
/// the body has text, whatever its binary content.
pub proof fn law_body_format_decides(
    spec: StaticResponseFilterSpec,
    b: StaticResponseFilterBody,
    attached_routes: i32,
    now: Timestamp,
)
    requires
        spec.body == Some(b),
    ensures
        b.format is Binary ==> ((filter_conditions(spec, attached_routes, now)[0].status == "True"@) <==> (
        100 <= spec.status_code <= 599 && b.binary is Some)),
        b.format is Text ==> ((filter_conditions(spec, attached_routes, now)[0].status == "True"@) <==> (100
            <= spec.status_code <= 599 && b.text is Some)),
{
    law_accepted_iff_valid(spec, attached_routes, now);
}

/// The text of a binary body plays no part in a filter's status: two filters
/// that differ only in the text of their binary bodies get the same
/// conditions.
pub proof fn law_binary_body_text_ignored(
    status_code: u16,
    b1: StaticResponseFilterBody,
    b2: StaticResponseFilterBody,
    attached_routes: i32,
    now: Timestamp,
)
    requires
        b1.format is Binary,
        b2.format is Binary,
        b1.binary is Some <==> b2.binary is Some,
    ensures
        filter_conditions(
            (StaticResponseFilterSpec { status_code, body: Some(b1) }),
            attached_routes,
            now,
        ) == filter_conditions(
            (StaticResponseFilterSpec { status_code, body: Some(b2) }),
            attached_routes,
            now,
        ),
{
}

} // verus!
