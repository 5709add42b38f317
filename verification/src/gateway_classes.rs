//! The gateway class that this control plane implements, its parameters,
//! and the status it reports for it.
use crate::api::{condition_views, Condition, ConditionView, Timestamp};
use crate::object_ref::{KubeObject, ObjectRef, ObjectRefBuilderView, ObjectRefView};
use crate::objects::{arc_clone, items_view, iter_items, Objects};
use crate::text::{clone_opt_string, opt_view, str_equals};
use std::sync::Arc;
use vstd::prelude::*;
use vstd::string::*;

verus! {

/// The name under which this control plane claims gateway classes.
pub open spec fn controller_name() -> Seq<char> {
    "kubera.whitefamily.in/controlplane"@
}

/// A reference from a gateway class to its parameters.
pub struct ParametersReference {
    pub group: String,
    pub kind: String,
    pub name: String,
    pub namespace: Option<String>,
}

/// The specification of a gateway class.
pub struct GatewayClassSpec {
    pub controller_name: String,
    pub parameters_ref: Option<ParametersReference>,
}

/// A gateway class object.
pub type GatewayClass = KubeObject<GatewayClassSpec>;

/// Why no gateway class was selected.
#[derive(Debug, Clone, Copy, PartialEq, Eq)]
pub enum GatewayClassSelectionError {
    /// No gateway class names this control plane as its controller.
    NotFound,
    /// More than one gateway class names this control plane.
    Ambiguous,
    /// The one gateway class that names this control plane has no name.
    InvalidRef,
}

/// The gateway classes among the items that name this control plane as
/// their controller, in order.
pub open spec fn claimed_classes(items: Seq<(ObjectRefView, Seq<char>, Arc<GatewayClass>)>) -> Seq<
    Arc<GatewayClass>,
>
    decreases items.len(),
{
    if items.len() == 0 {
        Seq::empty()
    } else {
        let rest = claimed_classes(items.drop_last());
        let c = items.last().2;
        if c.data.controller_name@ == controller_name() {
            rest.push(c)
        } else {
            rest
        }
    }
}

/// The reference of an object that has a name.
pub open spec fn named_ref<T>(o: KubeObject<T>) -> ObjectRefView {
    crate::objects::object_ref_of(o)
}

/// The gateway class this control plane implements: the only one that names
/// it as controller, with its reference.
pub fn filter_gateway_classes(gateway_classes: &Objects<GatewayClassSpec>) -> (r: Result<
    (ObjectRef, Arc<GatewayClass>),
    GatewayClassSelectionError,
>)
    requires
        gateway_classes.wf(),
    ensures
        ({
            let claimed = claimed_classes(iter_items(gateway_classes.ref_order()));
            match r {
                Ok((class_ref, class)) => claimed.len() == 1 && class == claimed[0]
                    && class.metadata.name is Some && class_ref@ == named_ref(*class),
                Err(GatewayClassSelectionError::NotFound) => claimed.len() == 0,
                Err(GatewayClassSelectionError::Ambiguous) => claimed.len() >= 2,
                Err(GatewayClassSelectionError::InvalidRef) => claimed.len() == 1
                    && claimed[0].metadata.name is None,
            }
        }),
{
    let items = gateway_classes.iter();
    let ghost all = iter_items(gateway_classes.ref_order());
    let mut claimed: Vec<Arc<GatewayClass>> = Vec::new();
    let mut i: usize = 0;
    while i < items.len()
        invariant
            i <= items.len(),
            items_view(items@) == all,
            claimed@ == claimed_classes(all.take(i as int)),
        decreases items.len() - i,
    {
        assert(all.take(i + 1).drop_last() =~= all.take(i as int));
        let c = &items[i].2;
        assert(all[i as int].2 == *c);
        if str_equals(&c.data.controller_name, "kubera.whitefamily.in/controlplane") {
            claimed.push(arc_clone(c));
        }
        i += 1;
    }
    assert(all.take(items.len() as int) =~= all);
    if claimed.len() == 0 {
        return Err(GatewayClassSelectionError::NotFound);
    }
    if claimed.len() >= 2 {
        return Err(GatewayClassSelectionError::Ambiguous);
    }
    let class = arc_clone(&claimed[0]);
    let mut builder = ObjectRef::new_builder();
    builder.for_object(&*class);
    match builder.build() {
        Ok(class_ref) => Ok((class_ref, class)),
        Err(_) => Err(GatewayClassSelectionError::InvalidRef),
    }
}

/// Whether a gateway class's parameters were found.
pub enum GatewayClassParametersReferenceState<P> {
    /// The class names no parameters.
    NoRef,
    /// The class names parameters by a reference that cannot be formed.
    InvalidRef,
    /// The named parameters do not exist.
    NotFound,
    /// The named parameters.
    Linked(Arc<KubeObject<P>>),
}

impl<P> GatewayClassParametersReferenceState<P> {
    /// The state's name.
    pub fn as_str(&self) -> (s: &'static str)
        ensures
            s@ == match self {
                GatewayClassParametersReferenceState::NoRef => "kubera.whitefamily.in/NoRef"@,
                GatewayClassParametersReferenceState::InvalidRef => "kubera.whitefamily.in/NoRef"@,
                GatewayClassParametersReferenceState::NotFound => "kubera.whitefamily.in/NotFound"@,
                GatewayClassParametersReferenceState::Linked(_) => "kubera.whitefamily.in/Linked"@,
            },
    {
        match self {
            GatewayClassParametersReferenceState::NoRef => "kubera.whitefamily.in/NoRef",
            GatewayClassParametersReferenceState::InvalidRef => "kubera.whitefamily.in/NoRef",
            GatewayClassParametersReferenceState::NotFound => "kubera.whitefamily.in/NotFound",
            GatewayClassParametersReferenceState::Linked(_) => "kubera.whitefamily.in/Linked",
        }
    }

    /// The linked parameters, if any.
    pub fn into_parameters(self) -> (r: Option<Arc<KubeObject<P>>>)
        ensures
            match self {
                GatewayClassParametersReferenceState::Linked(p) => r == Some(p),
                _ => r is None,
            },
    {
        match self {
            GatewayClassParametersReferenceState::Linked(p) => Some(p),
            _ => None,
        }
    }
}

/// The reference that a gateway class's parameters reference stands for, at
/// version `v1alpha1`.
pub open spec fn parameters_object_ref(p: ParametersReference) -> ObjectRefView {
    ObjectRefView {
        kind: p.kind@,
        version: "v1alpha1"@,
        group: Some(p.group@),
        namespace: opt_view(p.namespace),
        name: p.name@,
    }
}

/// Finds the parameters that the gateway class names.
pub fn filter_gateway_class_parameters<P>(
    gateway_class: &GatewayClass,
    gateway_class_parameters: &Objects<P>,
) -> (r: GatewayClassParametersReferenceState<P>)
    requires
        gateway_class_parameters.wf(),
    ensures
        match gateway_class.data.parameters_ref {
            None => r is NoRef,
            Some(p) => {
                let k = parameters_object_ref(p);
                if gateway_class_parameters.by_ref_map().dom().contains(k) {
                    r == GatewayClassParametersReferenceState::Linked(
                        gateway_class_parameters.by_ref_map()[k],
                    )
                } else {
                    r is NotFound
                }
            },
        },
{
    match &gateway_class.data.parameters_ref {
        Some(p) => {
            let mut builder = ObjectRef::new_builder();
            builder.group(Some(p.group.clone())).kind(p.kind.clone()).namespace(
                clone_opt_string(&p.namespace),
            ).name(p.name.clone()).version(String::from_str("v1alpha1"));
            match builder.build() {
                Ok(parameters_ref) => {
                    match gateway_class_parameters.get_by_ref(&parameters_ref) {
                        Some(parameters) => GatewayClassParametersReferenceState::Linked(
                            parameters,
                        ),
                        None => GatewayClassParametersReferenceState::NotFound,
                    }
                },
                Err(_) => GatewayClassParametersReferenceState::InvalidRef,
            }
        },
        None => GatewayClassParametersReferenceState::NoRef,
    }
}

/// The status of a gateway class.
pub struct GatewayClassStatus {
    pub conditions: Option<Vec<Condition>>,
}

/// The only condition of a gateway class's status for a parameters state:
/// accepted when the parameters are linked or not asked for, refused with
/// the reason `InvalidParameters` otherwise.
pub open spec fn class_condition<P>(state: GatewayClassParametersReferenceState<P>, now: Timestamp) -> ConditionView {
    match state {
        GatewayClassParametersReferenceState::Linked(_) | GatewayClassParametersReferenceState::NoRef => ConditionView {
            type_: "Accepted"@,
            status: "True"@,
            reason: "Accepted"@,
            message: "Accepted"@,
            last_transition_time: now,
            observed_generation: None,
        },
        GatewayClassParametersReferenceState::InvalidRef => ConditionView {
            type_: "InvalidRef"@,
            status: "False"@,
            reason: "InvalidParameters"@,
            message: "parameters ref is invalid"@,
            last_transition_time: now,
            observed_generation: None,
        },
        GatewayClassParametersReferenceState::NotFound => ConditionView {
            type_: "NotFound"@,
            status: "False"@,
            reason: "InvalidParameters"@,
            message: "GatewayClassParameters not found"@,
            last_transition_time: now,
            observed_generation: None,
        },
    }
}

pub(crate) fn condition(type_: &str, status: &str, reason: &str, message: &str, now: Timestamp) -> (c: Condition)
    ensures
        c@ == (ConditionView {
            type_: type_@,
            status: status@,
            reason: reason@,
            message: message@,
            last_transition_time: now,
            observed_generation: None,
        }),
{
    Condition {
        type_: String::from_str(type_),
        status: String::from_str(status),
        reason: String::from_str(reason),
        message: String::from_str(message),
        last_transition_time: now,
        observed_generation: None,
    }
}

/// The status of the gateway class, at the given time, for the state of its
/// parameters.
pub fn map_to_status<P>(parameters_state: &GatewayClassParametersReferenceState<P>, now: Timestamp) -> (s: GatewayClassStatus)
    ensures
        s.conditions is Some,
        condition_views(s.conditions->0@) == seq![class_condition(*parameters_state, now)],
{
    let c = match parameters_state {
        GatewayClassParametersReferenceState::Linked(_) | GatewayClassParametersReferenceState::NoRef => condition("Accepted", "True", "Accepted", "Accepted", now),
        GatewayClassParametersReferenceState::InvalidRef => condition(
            "InvalidRef",
            "False",
            "InvalidParameters",
            "parameters ref is invalid",
            now,
        ),
        GatewayClassParametersReferenceState::NotFound => condition(
            "NotFound",
            "False",
            "InvalidParameters",
            "GatewayClassParameters not found",
            now,
        ),
    };
    let mut conditions = Vec::new();
    conditions.push(c);
    assert(condition_views(conditions@) =~= seq![class_condition(*parameters_state, now)]);
    GatewayClassStatus { conditions: Some(conditions) }
}

/// The reference to the gateway class a gateway names.
pub open spec fn class_ref_of(class_name: Seq<char>) -> ObjectRefView {
    ObjectRefView {
        kind: "GatewayClass"@,
        version: "v1"@,
        group: Some("gateway.networking.k8s.io"@),
        namespace: None,
        name: class_name,
    }
}

/// The specification of a gateway: the class it belongs to and its
/// listeners.
pub struct GatewaySpec {
    pub gateway_class_name: String,
    pub listeners: Vec<Listener>,
    pub infrastructure: Option<GatewayInfrastructure>,
}

/// The infrastructure settings of a gateway: the parameters object it
/// names, in its own namespace.
pub struct GatewayInfrastructure {
    pub parameters_ref: Option<LocalParametersReference>,
}

/// A reference to an object in the referring object's namespace: its API
/// group, kind and name.
pub struct LocalParametersReference {
    pub group: String,
    pub kind: String,
    pub name: String,
}

/// A listener of a gateway.
pub struct Listener {
    pub name: String,
    pub port: i32,
    pub protocol: String,
    pub hostname: Option<String>,
}

/// A gateway object.
pub type Gateway = KubeObject<GatewaySpec>;

/// The gateways among the items that belong to the class, in order.
pub open spec fn gateways_of_class(
    items: Seq<(ObjectRefView, Seq<char>, Arc<Gateway>)>,
    class_ref: ObjectRefView,
) -> Seq<(ObjectRefView, Seq<char>, Arc<Gateway>)>
    decreases items.len(),
{
    if items.len() == 0 {
        Seq::empty()
    } else {
        let rest = gateways_of_class(items.drop_last(), class_ref);
        let g = items.last();
        if class_ref_of(g.2.data.gateway_class_name@) == class_ref {
            rest.push(g)
        } else {
            rest
        }
    }
}

/// The gateways that belong to the selected gateway class.
pub fn filter_gateways(gateway_class_ref: &ObjectRef, gateways: &Objects<GatewaySpec>) -> (r: Objects<GatewaySpec>)
    requires
        gateways.wf(),
    ensures
        r.wf(),
        r.by_ref_map() == crate::objects::fold_by_ref(
            gateways_of_class(iter_items(gateways.ref_order()), gateway_class_ref@),
        ),
        r.by_uid_map() == crate::objects::fold_by_uid(
            gateways_of_class(iter_items(gateways.ref_order()), gateway_class_ref@),
        ),
{
    let items = gateways.iter();
    let ghost all = iter_items(gateways.ref_order());
    let class_kind = crate::kinds::gateway_class_kind();
    let mut kept: Vec<crate::objects::ObjectItem<GatewaySpec>> = Vec::new();
    let mut i: usize = 0;
    while i < items.len()
        invariant
            i <= items.len(),
            crate::kinds::kind_view(class_kind) == ("GatewayClass"@, "v1"@, "gateway.networking.k8s.io"@),
            items_view(items@) == all,
            items_view(kept@) == gateways_of_class(all.take(i as int), gateway_class_ref@),
        decreases items.len() - i,
    {
        assert(all.take(i + 1).drop_last() =~= all.take(i as int));
        let (g_ref, g_uid, g) = &items[i];
        assert(all[i as int] == (g_ref@, g_uid@, *g));
        let current = ObjectRef::for_kind(&class_kind, None, g.data.gateway_class_name.clone());
        proof {
            reveal_strlit("gateway.networking.k8s.io");
        }
        assert(current@ == class_ref_of(g.data.gateway_class_name@));
        if current.same_as(gateway_class_ref) {
            let ghost before = kept@;
            kept.push((g_ref.clone(), g_uid.clone(), arc_clone(g)));
            assert(items_view(kept@) =~= items_view(before).push(all[i as int]));
        }
        i += 1;
    }
    assert(all.take(items.len() as int) =~= all);
    Objects::from_items(kept)
}

/// Only the gateways of the selected class are managed, and all of them: each
/// kept gateway is one of the given ones and names the selected class, and
/// each given gateway whose class name is that of the selected gateway class
/// is kept.
pub proof fn law_gateways_of_the_class(
    items: Seq<(ObjectRefView, Seq<char>, Arc<Gateway>)>,
    class_ref: ObjectRefView,
)
    ensures
        forall|i: int|
            0 <= i < gateways_of_class(items, class_ref).len() ==> {
                &&& items.contains(#[trigger] gateways_of_class(items, class_ref)[i])
                &&& gateways_of_class(items, class_ref)[i].2.data.gateway_class_name@ == class_ref.name
                &&& class_ref_of(gateways_of_class(items, class_ref)[i].2.data.gateway_class_name@) == class_ref
            },
        forall|k: int|
            0 <= k < items.len() && class_ref == class_ref_of(class_ref.name)
                && (#[trigger] items[k]).2.data.gateway_class_name@ == class_ref.name
                ==> gateways_of_class(items, class_ref).contains(items[k]),
    decreases items.len(),
{
    if items.len() > 0 {
        let rest = items.drop_last();
        law_gateways_of_the_class(rest, class_ref);
        let before = gateways_of_class(rest, class_ref);
        let after = gateways_of_class(items, class_ref);
        assert forall|i: int| 0 <= i < after.len() implies {
            &&& items.contains(#[trigger] after[i])
            &&& after[i].2.data.gateway_class_name@ == class_ref.name
            &&& class_ref_of(after[i].2.data.gateway_class_name@) == class_ref
        } by {
            if i < before.len() {
                assert(after[i] == before[i]);
                let j = choose|j: int| 0 <= j < rest.len() && rest[j] == before[i];
                assert(items[j] == rest[j]);
            } else {
                assert(after[i] == items[items.len() - 1]);
            }
        }
        assert forall|k: int|
            0 <= k < items.len() && class_ref == class_ref_of(class_ref.name)
                && (#[trigger] items[k]).2.data.gateway_class_name@ == class_ref.name
                implies after.contains(items[k]) by {
            if k < items.len() - 1 {
                assert(rest[k] == items[k]);
                let j = choose|j: int| 0 <= j < before.len() && before[j] == rest[k];
                assert(after[j] == before[j]);
            } else {
                assert(after[after.len() - 1] == items[k]);
            }
        }
    }
}

} // verus!
