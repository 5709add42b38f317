//! The objects that the control plane keeps in step with the gateways: a
//! configuration map, a deployment and a service per gateway, and what to
//! delete when a gateway goes away.
use crate::api::image_pull_policy_text;
use crate::gateway_config::GatewayInstanceConfiguration;
use crate::ipc::{GatewayEvent, IpcServices};
use crate::kinds::{config_map_kind, deployment_kind, kind_view, service_kind};
use crate::object_ref::{ObjectRef, ObjectRefView};
use crate::object_ref::KubeObject;
use crate::objects::{arc_clone, insert_effect, object_keys, remove_effect, Objects, ObjectsError};
use crate::ref_map::{ref_entries, RefMap};
use crate::text::{clone_opt_string, push_str};
use std::sync::Arc;
use vstd::prelude::*;
use vstd::string::*;

verus! {

/// What to do to a managed object: create or update it from a template, for
/// a parent object, with overrides; or delete it.
pub enum SyncObjectAction<T, K> {
    Upsert(ObjectRef, ObjectRef, T, Option<K>),
    Delete(ObjectRef),
}

impl<T, K> SyncObjectAction<T, K> {
    /// The reference of the object the action is about.
    pub fn object_ref(&self) -> (r: &ObjectRef)
        ensures
            r@ == match self {
                SyncObjectAction::Upsert(o, _, _, _) => o@,
                SyncObjectAction::Delete(o) => o@,
            },
    {
        match self {
            SyncObjectAction::Upsert(object_ref, _, _, _) | SyncObjectAction::Delete(object_ref) => object_ref,
        }
    }
}

/// The references among the current ones that are not desired, in order.
pub open spec fn stale_refs(current: Seq<ObjectRefView>, desired: Set<ObjectRefView>) -> Seq<ObjectRefView> {
    current.filter(|c: ObjectRefView| !desired.contains(c))
}

/// The views of a list of references.
pub open spec fn ref_views(s: Seq<ObjectRef>) -> Seq<ObjectRefView> {
    s.map_values(|r: ObjectRef| r@)
}

/// The references of the current objects that are no longer desired, in
/// the order of the current ones.
pub fn deleted_refs(current: &Vec<ObjectRef>, desired: &Vec<ObjectRef>) -> (r: Vec<ObjectRef>)
    ensures
        ref_views(r@) == stale_refs(ref_views(current@), ref_views(desired@).to_set()),
{
    let ghost d = ref_views(desired@).to_set();
    let mut r: Vec<ObjectRef> = Vec::new();
    let mut i: usize = 0;
    while i < current.len()
        invariant
            i <= current.len(),
            d == ref_views(desired@).to_set(),
            ref_views(r@) == stale_refs(ref_views(current@).take(i as int), d),
        decreases current.len() - i,
    {
        let c = &current[i];
        let mut found = false;
        let mut j: usize = 0;
        while j < desired.len()
            invariant
                j <= desired.len(),
                found == exists|k: int| 0 <= k < j && #[trigger] desired@[k]@ == c@,
            decreases desired.len() - j,
        {
            if desired[j].same_as(c) {
                found = true;
            }
            j += 1;
        }
        assert(found == d.contains(c@)) by {
            if found {
                let k = choose|k: int| 0 <= k < desired.len() && #[trigger] desired@[k]@ == c@;
                assert(ref_views(desired@)[k] == c@);
            }
            if d.contains(c@) {
                let k = choose|k: int| 0 <= k < ref_views(desired@).len() && ref_views(desired@)[k] == c@;
                assert(desired@[k]@ == c@);
            }
        }
        assert(ref_views(current@).take(i + 1) =~= ref_views(current@).take(i as int).push(c@));
        reveal(Seq::filter);
        assert(ref_views(current@).take(i + 1).drop_last() =~= ref_views(current@).take(i as int));
        if !found {
            let ghost before = r@;
            r.push(c.clone());
            assert(ref_views(r@) =~= ref_views(before).push(c@));
        }
        i += 1;
    }
    assert(ref_views(current@).take(current.len() as int) =~= ref_views(current@));
    r
}

/// The template values of a gateway's configuration map.
pub struct ConfigMapTemplateValues {
    pub gateway_name: String,
    pub config_yaml: String,
}

/// The template values of a gateway's deployment.
pub struct DeploymentTemplateValues {
    pub gateway_name: String,
    pub configmap_name: String,
    pub image_pull_policy: String,
}

/// The template values of a gateway's service.
pub struct ServiceTemplateValues {
    pub gateway_name: String,
}

/// The name of a gateway's configuration map: the gateway's name followed
/// by `-config`.
pub open spec fn configmap_name_of(gateway_name: Seq<char>) -> Seq<char> {
    gateway_name + "-config"@
}

/// The reference to a gateway's configuration map, in its namespace.
pub open spec fn configmap_ref_of(gateway: ObjectRefView) -> ObjectRefView {
    ObjectRefView {
        kind: "ConfigMap"@,
        version: "v1"@,
        group: None,
        namespace: gateway.namespace,
        name: configmap_name_of(gateway.name),
    }
}

/// The reference to a gateway's deployment, of the same name and namespace.
pub open spec fn deployment_ref_of(gateway: ObjectRefView) -> ObjectRefView {
    ObjectRefView {
        kind: "Deployment"@,
        version: "v1"@,
        group: Some("apps"@),
        namespace: gateway.namespace,
        name: gateway.name,
    }
}

/// The reference to a gateway's service, of the same name and namespace.
pub open spec fn service_ref_of(gateway: ObjectRefView) -> ObjectRefView {
    ObjectRefView {
        kind: "Service"@,
        version: "v1"@,
        group: None,
        namespace: gateway.namespace,
        name: gateway.name,
    }
}

fn configmap_name(gateway_name: &String) -> (r: String)
    ensures
        r@ == configmap_name_of(gateway_name@),
{
    let mut s = gateway_name.clone();
    push_str(&mut s, "-config");
    s
}

/// The reference to a gateway's configuration map.
pub fn configmap_ref(gateway_ref: &ObjectRef) -> (r: ObjectRef)
    ensures
        r@ == configmap_ref_of(gateway_ref@),
{
    let r = ObjectRef::for_kind(
        &config_map_kind(),
        clone_opt_string(gateway_ref.namespace()),
        configmap_name(gateway_ref.name()),
    );
    proof {
        reveal_strlit("");
    }
    r
}

/// The reference to a gateway's deployment.
pub fn deployment_ref(gateway_ref: &ObjectRef) -> (r: ObjectRef)
    ensures
        r@ == deployment_ref_of(gateway_ref@),
{
    let r = ObjectRef::for_kind(
        &deployment_kind(),
        clone_opt_string(gateway_ref.namespace()),
        gateway_ref.name().clone(),
    );
    proof {
        reveal_strlit("apps");
    }
    r
}

/// The reference to a gateway's service.
pub fn service_ref(gateway_ref: &ObjectRef) -> (r: ObjectRef)
    ensures
        r@ == service_ref_of(gateway_ref@),
{
    let r = ObjectRef::for_kind(
        &service_kind(),
        clone_opt_string(gateway_ref.namespace()),
        gateway_ref.name().clone(),
    );
    proof {
        reveal_strlit("");
    }
    r
}

/// The desired state of a gateway's configuration map: the gateway, the
/// map's reference, and the template values and configuration when the
/// configuration exists and could be written out.
pub struct GatewayState<C> {
    pub gateway_ref: ObjectRef,
    pub configmap_ref: ObjectRef,
    pub values: Option<(ConfigMapTemplateValues, Arc<C>)>,
}

/// A gateway's configuration, when one was built, with its text when it
/// could be written out.
pub struct GeneratedConfiguration<C> {
    pub configuration: Arc<C>,
    pub yaml: Option<String>,
}

/// Whether a state is the one of the gateway with the generated
/// configuration.
pub open spec fn state_of<C>(s: GatewayState<C>, gateway: ObjectRefView, generated: Option<GeneratedConfiguration<C>>) -> bool {
    &&& s.gateway_ref@ == gateway
    &&& s.configmap_ref@ == configmap_ref_of(gateway)
    &&& match generated {
        Some(g) => match g.yaml {
            Some(y) => match s.values {
                Some((v, c)) => v.gateway_name@ == gateway.name && v.config_yaml@ == y@ && c
                    == g.configuration,
                None => false,
            },
            None => s.values is None,
        },
        None => s.values is None,
    }
}

/// The desired configuration map of each gateway, in order.
pub fn expand<C>(configurations: &RefMap<Option<GeneratedConfiguration<C>>>) -> (r: Vec<GatewayState<C>>)
    ensures
        r@.len() == configurations.order().len(),
        forall|i: int|
            0 <= i < r@.len() ==> state_of(
                #[trigger] r@[i],
                configurations.order()[i].0,
                configurations.order()[i].1,
            ),
{
    let entries = configurations.entries();
    let mut r: Vec<GatewayState<C>> = Vec::new();
    let mut i: usize = 0;
    while i < entries.len()
        invariant
            i <= entries.len(),
            ref_entries(entries@) == configurations.order(),
            r@.len() == i,
            forall|j: int|
                0 <= j < i ==> state_of(
                    #[trigger] r@[j],
                    configurations.order()[j].0,
                    configurations.order()[j].1,
                ),
        decreases entries.len() - i,
    {
        let (gateway_ref, generated) = &entries[i];
        assert(configurations.order()[i as int] == (gateway_ref@, *generated));
        let values = match generated {
            Some(g) => match &g.yaml {
                Some(y) => Some(
                    (
                        ConfigMapTemplateValues {
                            gateway_name: gateway_ref.name().clone(),
                            config_yaml: y.clone(),
                        },
                        arc_clone(&g.configuration),
                    ),
                ),
                None => None,
            },
            None => None,
        };
        r.push(GatewayState { gateway_ref: gateway_ref.clone(), configmap_ref: configmap_ref(gateway_ref), values });
        i += 1;
    }
    r
}

/// Whether an action deletes the given object.
pub open spec fn deletes<T, K>(a: SyncObjectAction<T, K>, r: ObjectRefView) -> bool {
    match a {
        SyncObjectAction::Delete(o) => o@ == r,
        _ => false,
    }
}

/// Whether an action upserts a gateway's deployment with its template values
/// and overrides.
pub open spec fn upserts_deployment<D, S>(
    a: SyncObjectAction<DeploymentTemplateValues, Arc<D>>,
    gateway: ObjectRefView,
    instance: GatewayInstanceConfiguration<D, S>,
) -> bool {
    match a {
        SyncObjectAction::Upsert(o, p, v, k) => {
            &&& o@ == deployment_ref_of(gateway)
            &&& p@ == gateway
            &&& v.gateway_name@ == gateway.name
            &&& v.configmap_name@ == configmap_name_of(gateway.name)
            &&& v.image_pull_policy@ == image_pull_policy_text(instance.image_pull_policy)
            &&& k == Some(instance.deployment_overrides)
        },
        _ => false,
    }
}

/// Whether an action upserts a gateway's service with its template values
/// and overrides.
pub open spec fn upserts_service<D, S>(
    a: SyncObjectAction<ServiceTemplateValues, Arc<S>>,
    gateway: ObjectRefView,
    instance: GatewayInstanceConfiguration<D, S>,
) -> bool {
    match a {
        SyncObjectAction::Upsert(o, p, v, k) => {
            &&& o@ == service_ref_of(gateway)
            &&& p@ == gateway
            &&& v.gateway_name@ == gateway.name
            &&& k == Some(instance.service_overrides)
        },
        _ => false,
    }
}

/// The references that the gateways' objects should have, by the given
/// naming.
pub open spec fn desired_refs<V>(order: Seq<(ObjectRefView, V)>, name: spec_fn(ObjectRefView) -> ObjectRefView) -> Set<ObjectRefView> {
    order.map_values(|e: (ObjectRefView, V)| name(e.0)).to_set()
}

/// The actions that bring the gateways' deployments in step: first delete
/// each current deployment that no gateway wants, in order, then upsert the
/// deployment of each gateway, in order.
pub fn deployment_actions<D, S>(
    current: &Vec<ObjectRef>,
    instances: &RefMap<GatewayInstanceConfiguration<D, S>>,
) -> (r: Vec<SyncObjectAction<DeploymentTemplateValues, Arc<D>>>)
    ensures
        ({
            let stale = stale_refs(
                ref_views(current@),
                desired_refs(instances.order(), |g: ObjectRefView| deployment_ref_of(g)),
            );
            let order = instances.order();
            &&& r@.len() == stale.len() + order.len()
            &&& forall|i: int| 0 <= i < stale.len() ==> deletes(#[trigger] r@[i], stale[i])
            &&& forall|i: int|
                0 <= i < order.len() ==> upserts_deployment(
                    #[trigger] r@[stale.len() + i],
                    order[i].0,
                    order[i].1,
                )
        }),
{
    let entries = instances.entries();
    let ghost order = instances.order();
    let mut desired: Vec<ObjectRef> = Vec::new();
    let mut i: usize = 0;
    while i < entries.len()
        invariant
            i <= entries.len(),
            ref_entries(entries@) == order,
            ref_views(desired@) == order.take(i as int).map_values(
                |e: (ObjectRefView, GatewayInstanceConfiguration<D, S>)| deployment_ref_of(e.0),
            ),
        decreases entries.len() - i,
    {
        let d = deployment_ref(&entries[i].0);
        let ghost before = desired@;
        desired.push(d);
        assert(order[i as int].0 == entries@[i as int].0@);
        assert(ref_views(desired@) =~= ref_views(before).push(d@));
        assert(order.take(i + 1) =~= order.take(i as int).push(order[i as int]));
        assert(ref_views(desired@) =~= order.take(i + 1).map_values(
            |e: (ObjectRefView, GatewayInstanceConfiguration<D, S>)| deployment_ref_of(e.0),
        ));
        i += 1;
    }
    assert(order.take(entries.len() as int) =~= order);
    assert(order.map_values(|e: (ObjectRefView, GatewayInstanceConfiguration<D, S>)| deployment_ref_of(e.0))
        =~= order.map_values(
        |e: (ObjectRefView, GatewayInstanceConfiguration<D, S>)| (|g: ObjectRefView| deployment_ref_of(g))(e.0),
    ));
    let stale = deleted_refs(current, &desired);
    let mut r: Vec<SyncObjectAction<DeploymentTemplateValues, Arc<D>>> = Vec::new();
    let mut k: usize = 0;
    while k < stale.len()
        invariant
            k <= stale.len(),
            r@.len() == k,
            forall|j: int| 0 <= j < k ==> deletes(#[trigger] r@[j], stale@[j]@),
        decreases stale.len() - k,
    {
        r.push(SyncObjectAction::Delete(stale[k].clone()));
        k += 1;
    }
    let n = stale.len();
    let mut i: usize = 0;
    while i < entries.len()
        invariant
            i <= entries.len(),
            n == stale.len(),
            ref_entries(entries@) == order,
            r@.len() == n + i,
            forall|j: int| 0 <= j < n ==> deletes(#[trigger] r@[j], stale@[j]@),
            forall|j: int|
                0 <= j < i ==> upserts_deployment(#[trigger] r@[n + j], order[j].0, order[j].1),
        decreases entries.len() - i,
    {
        let (gateway_ref, instance) = &entries[i];
        assert(order[i as int] == (gateway_ref@, *instance));
        let values = DeploymentTemplateValues {
            gateway_name: gateway_ref.name().clone(),
            configmap_name: configmap_name(gateway_ref.name()),
            image_pull_policy: String::from_str(instance.image_pull_policy.as_str()),
        };
        r.push(
            SyncObjectAction::Upsert(
                deployment_ref(gateway_ref),
                gateway_ref.clone(),
                values,
                Some(arc_clone(&instance.deployment_overrides)),
            ),
        );
        assert(upserts_deployment(r@[n + i as int], order[i as int].0, order[i as int].1));
        i += 1;
    }
    assert forall|j: int| 0 <= j < n implies deletes(#[trigger] r@[j], ref_views(stale@)[j]) by {}
    r
}

/// The actions that bring the gateways' services in step: first delete each
/// current service that no gateway wants, in order, then upsert the service
/// of each gateway, in order.
pub fn service_actions<D, S>(
    current: &Vec<ObjectRef>,
    instances: &RefMap<GatewayInstanceConfiguration<D, S>>,
) -> (r: Vec<SyncObjectAction<ServiceTemplateValues, Arc<S>>>)
    ensures
        ({
            let stale = stale_refs(
                ref_views(current@),
                desired_refs(instances.order(), |g: ObjectRefView| service_ref_of(g)),
            );
            let order = instances.order();
            &&& r@.len() == stale.len() + order.len()
            &&& forall|i: int| 0 <= i < stale.len() ==> deletes(#[trigger] r@[i], stale[i])
            &&& forall|i: int|
                0 <= i < order.len() ==> upserts_service(
                    #[trigger] r@[stale.len() + i],
                    order[i].0,
                    order[i].1,
                )
        }),
{
    let entries = instances.entries();
    let ghost order = instances.order();
    let mut desired: Vec<ObjectRef> = Vec::new();
    let mut i: usize = 0;
    while i < entries.len()
        invariant
            i <= entries.len(),
            ref_entries(entries@) == order,
            ref_views(desired@) == order.take(i as int).map_values(
                |e: (ObjectRefView, GatewayInstanceConfiguration<D, S>)| service_ref_of(e.0),
            ),
        decreases entries.len() - i,
    {
        let d = service_ref(&entries[i].0);
        let ghost before = desired@;
        desired.push(d);
        assert(order[i as int].0 == entries@[i as int].0@);
        assert(ref_views(desired@) =~= ref_views(before).push(d@));
        assert(order.take(i + 1) =~= order.take(i as int).push(order[i as int]));
        assert(ref_views(desired@) =~= order.take(i + 1).map_values(
            |e: (ObjectRefView, GatewayInstanceConfiguration<D, S>)| service_ref_of(e.0),
        ));
        i += 1;
    }
    assert(order.take(entries.len() as int) =~= order);
    assert(order.map_values(|e: (ObjectRefView, GatewayInstanceConfiguration<D, S>)| service_ref_of(e.0))
        =~= order.map_values(
        |e: (ObjectRefView, GatewayInstanceConfiguration<D, S>)| (|g: ObjectRefView| service_ref_of(g))(e.0),
    ));
    let stale = deleted_refs(current, &desired);
    let mut r: Vec<SyncObjectAction<ServiceTemplateValues, Arc<S>>> = Vec::new();
    let mut k: usize = 0;
    while k < stale.len()
        invariant
            k <= stale.len(),
            r@.len() == k,
            forall|j: int| 0 <= j < k ==> deletes(#[trigger] r@[j], stale@[j]@),
        decreases stale.len() - k,
    {
        r.push(SyncObjectAction::Delete(stale[k].clone()));
        k += 1;
    }
    let n = stale.len();
    let mut i: usize = 0;
    while i < entries.len()
        invariant
            i <= entries.len(),
            n == stale.len(),
            ref_entries(entries@) == order,
            r@.len() == n + i,
            forall|j: int| 0 <= j < n ==> deletes(#[trigger] r@[j], stale@[j]@),
            forall|j: int|
                0 <= j < i ==> upserts_service(#[trigger] r@[n + j], order[j].0, order[j].1),
        decreases entries.len() - i,
    {
        let (gateway_ref, instance) = &entries[i];
        assert(order[i as int] == (gateway_ref@, *instance));
        let values = ServiceTemplateValues { gateway_name: gateway_ref.name().clone() };
        r.push(
            SyncObjectAction::Upsert(
                service_ref(gateway_ref),
                gateway_ref.clone(),
                values,
                Some(arc_clone(&instance.service_overrides)),
            ),
        );
        assert(upserts_service(r@[n + i as int], order[i as int].0, order[i as int].1));
        i += 1;
    }
    assert forall|j: int| 0 <= j < n implies deletes(#[trigger] r@[j], ref_views(stale@)[j]) by {}
    r
}

/// Deleting what is stale and keeping what is desired covers the current
/// references exactly: no stale reference is desired, and each current
/// reference is either stale or desired.
pub proof fn law_stale_partition(current: Seq<ObjectRefView>, desired: Set<ObjectRefView>)
    ensures
        forall|i: int|
            0 <= i < stale_refs(current, desired).len() ==> !desired.contains(
                #[trigger] stale_refs(current, desired)[i],
            ),
        forall|c: ObjectRefView|
            #[trigger] current.contains(c) ==> desired.contains(c) || stale_refs(
                current,
                desired,
            ).contains(c),
        forall|c: ObjectRefView| #[trigger]
            stale_refs(current, desired).contains(c) ==> current.contains(c),
{
    let f = |c: ObjectRefView| !desired.contains(c);
    assert forall|i: int|
        0 <= i < stale_refs(current, desired).len() implies !desired.contains(
        #[trigger] stale_refs(current, desired)[i],
    ) by {
        current.lemma_filter_pred(f, i);
    }
    assert forall|c: ObjectRefView|
        #[trigger] current.contains(c) implies desired.contains(c) || stale_refs(
        current,
        desired,
    ).contains(c) by {
        if !desired.contains(c) {
            let i = choose|i: int| 0 <= i < current.len() && current[i] == c;
            current.lemma_filter_contains(f, i);
        }
    }
    assert forall|c: ObjectRefView| #[trigger]
        stale_refs(current, desired).contains(c) implies current.contains(c) by {
        current.lemma_filter_contains_rev(f, c);
    }
}

/// The states whose configuration could be written out, in order.
pub open spec fn upserted_states<C>(states: Seq<GatewayState<C>>) -> Seq<GatewayState<C>> {
    states.filter(|s: GatewayState<C>| s.values is Some)
}

/// Whether an action upserts a gateway's configuration map from its state,
/// without overrides.
pub open spec fn upserts_configmap<C, K>(a: SyncObjectAction<ConfigMapTemplateValues, K>, s: GatewayState<C>) -> bool {
    match a {
        SyncObjectAction::Upsert(o, p, v, k) => {
            &&& o@ == s.configmap_ref@
            &&& p@ == s.gateway_ref@
            &&& v.gateway_name@ == (s.values->0).0.gateway_name@
            &&& v.config_yaml@ == (s.values->0).0.config_yaml@
            &&& k is None
        },
        _ => false,
    }
}

/// The actions that bring the gateways' configuration maps in step: first
/// delete each current map that no gateway wants, in order, then upsert
/// the map of each gateway whose configuration was written out, in order.
pub fn configmap_actions<C, K>(current: &Vec<ObjectRef>, states: &Vec<GatewayState<C>>) -> (r: Vec<
    SyncObjectAction<ConfigMapTemplateValues, K>,
>)
    ensures
        ({
            let stale = stale_refs(
                ref_views(current@),
                states@.map_values(|s: GatewayState<C>| s.configmap_ref@).to_set(),
            );
            let ups = upserted_states(states@);
            &&& r@.len() == stale.len() + ups.len()
            &&& forall|i: int| 0 <= i < stale.len() ==> deletes(#[trigger] r@[i], stale[i])
            &&& forall|i: int|
                0 <= i < ups.len() ==> upserts_configmap(#[trigger] r@[stale.len() + i], ups[i])
        }),
{
    let mut desired: Vec<ObjectRef> = Vec::new();
    let mut i: usize = 0;
    while i < states.len()
        invariant
            i <= states.len(),
            ref_views(desired@) == states@.take(i as int).map_values(
                |s: GatewayState<C>| s.configmap_ref@,
            ),
        decreases states.len() - i,
    {
        let ghost before = desired@;
        let d = states[i].configmap_ref.clone();
        desired.push(d);
        assert(ref_views(desired@) =~= ref_views(before).push(d@));
        assert(states@.take(i + 1) =~= states@.take(i as int).push(states@[i as int]));
        assert(ref_views(desired@) =~= states@.take(i + 1).map_values(
            |s: GatewayState<C>| s.configmap_ref@,
        ));
        i += 1;
    }
    assert(states@.take(states.len() as int) =~= states@);
    let stale = deleted_refs(current, &desired);
    let mut r: Vec<SyncObjectAction<ConfigMapTemplateValues, K>> = Vec::new();
    let mut k: usize = 0;
    while k < stale.len()
        invariant
            k <= stale.len(),
            r@.len() == k,
            forall|j: int| 0 <= j < k ==> deletes(#[trigger] r@[j], stale@[j]@),
        decreases stale.len() - k,
    {
        r.push(SyncObjectAction::Delete(stale[k].clone()));
        k += 1;
    }
    let n = stale.len();
    let ghost f = |s: GatewayState<C>| s.values is Some;
    let mut i: usize = 0;
    while i < states.len()
        invariant
            i <= states.len(),
            n == stale.len(),
            f == (|s: GatewayState<C>| s.values is Some),
            r@.len() == n + states@.take(i as int).filter(f).len(),
            forall|j: int| 0 <= j < n ==> deletes(#[trigger] r@[j], stale@[j]@),
            forall|j: int|
                0 <= j < states@.take(i as int).filter(f).len() ==> upserts_configmap(
                    #[trigger] r@[n + j],
                    states@.take(i as int).filter(f)[j],
                ),
        decreases states.len() - i,
    {
        reveal(Seq::filter);
        assert(states@.take(i + 1).drop_last() =~= states@.take(i as int));
        let s = &states[i];
        if let Some((values, _)) = &s.values {
            r.push(
                SyncObjectAction::Upsert(
                    s.configmap_ref.clone(),
                    s.gateway_ref.clone(),
                    ConfigMapTemplateValues {
                        gateway_name: values.gateway_name.clone(),
                        config_yaml: values.config_yaml.clone(),
                    },
                    None,
                ),
            );
        }
        i += 1;
    }
    assert(states@.take(states.len() as int) =~= states@);
    assert forall|j: int| 0 <= j < n implies deletes(#[trigger] r@[j], ref_views(stale@)[j]) by {}
    r
}

/// What the writer of managed objects does with an action, given whether
/// the object exists.
#[derive(Debug, Clone, Copy, PartialEq, Eq)]
pub enum SyncStep {
    Create,
    Patch,
    Delete,
    Skip,
}

/// The step for an action: an upsert creates a missing object and patches
/// an existing one; a delete deletes an existing object and skips a
/// missing one.
pub fn sync_step<T, K>(action: &SyncObjectAction<T, K>, exists: bool) -> (r: SyncStep)
    ensures
        r == match (action, exists) {
            (SyncObjectAction::Upsert(..), false) => SyncStep::Create,
            (SyncObjectAction::Upsert(..), true) => SyncStep::Patch,
            (SyncObjectAction::Delete(_), true) => SyncStep::Delete,
            (SyncObjectAction::Delete(_), false) => SyncStep::Skip,
        },
{
    match (action, exists) {
        (SyncObjectAction::Upsert(..), false) => SyncStep::Create,
        (SyncObjectAction::Upsert(..), true) => SyncStep::Patch,
        (SyncObjectAction::Delete(_), true) => SyncStep::Delete,
        (SyncObjectAction::Delete(_), false) => SyncStep::Skip,
    }
}

/// Whether the writer acts on the cluster: only the primary instance does.
pub fn writes_objects(role: &crate::instances::InstanceRole) -> (b: bool)
    ensures
        b == role@.primary,
{
    role.is_primary()
}

/// The labels of a managed object: managed by the control plane, part of
/// its parent.
pub fn managed_labels(parent_ref: &ObjectRef) -> (r: Vec<(String, String)>)
    ensures
        r@.len() == 2,
        r@[0].0@ == "app.kubernetes.io/managed-by"@,
        r@[0].1@ == "kubera-controlplane"@,
        r@[1].0@ == "app.kubernetes.io/part-of"@,
        r@[1].1@ == parent_ref@.name,
{
    let mut r: Vec<(String, String)> = Vec::new();
    r.push((String::from_str("app.kubernetes.io/managed-by"), String::from_str("kubera-controlplane")));
    r.push((String::from_str("app.kubernetes.io/part-of"), parent_ref.name().clone()));
    r
}

/// Brings the watched objects in step with one observed object: a deleted
/// one is removed, any other is inserted in place of its earlier state.
pub fn reconcile_watched<T>(objects: &mut Objects<T>, object: Arc<KubeObject<T>>, deleted: bool) -> (r:
    Result<(), ObjectsError>)
    requires
        old(objects).wf(),
    ensures
        final(objects).wf(),
        deleted ==> remove_effect(*old(objects), *object, *final(objects)),
        !deleted ==> insert_effect(*old(objects), object, *final(objects)),
        r is Err <==> object_keys(*object) is None,
{
    if deleted {
        objects.remove(&*object)
    } else {
        objects.insert(object)
    }
}

/// The configurations held for the gateways after a configuration map
/// action went, or failed to go, to the writer: a sent upsert holds the
/// gateway's written configuration, a sent delete drops what is held under
/// its reference, and an action that was not sent changes nothing.
pub open spec fn stored_after<K>(
    held: Map<ObjectRefView, Seq<char>>,
    action: SyncObjectAction<ConfigMapTemplateValues, K>,
    sent: bool,
) -> Map<ObjectRefView, Seq<char>> {
    if !sent {
        held
    } else {
        match action {
            SyncObjectAction::Upsert(_, g, v, _) => held.insert(g@, v.config_yaml@),
            SyncObjectAction::Delete(d) => held.remove(d@),
        }
    }
}

/// Records in the held configurations what a configuration map action did
/// once it went, or failed to go, to the writer, and gives the event that
/// announces it: the update of a gateway whose upsert was sent, or the
/// deletion of a held configuration whose delete was sent, each when the
/// reference names a namespace.
pub fn record_configmap_action<K>(
    services: &mut IpcServices,
    action: &SyncObjectAction<ConfigMapTemplateValues, K>,
    sent: bool,
) -> (r: Option<GatewayEvent>)
    ensures
        final(services).port == old(services).port,
        final(services).gateway_configuration_manager.yamls() == stored_after(
            old(services).gateway_configuration_manager.yamls(),
            *action,
            sent,
        ),
        match r {
            Some(GatewayEvent::ConfigurationUpdate(i)) => sent && (action matches SyncObjectAction::Upsert(
                _,
                g,
                _,
                _,
            ) && g@.namespace == Some(i.namespace@) && i.name@ == g@.name),
            Some(GatewayEvent::Deleted(i)) => sent && (action matches SyncObjectAction::Delete(d)
                && old(services).gateway_configuration_manager.yamls().dom().contains(d@)
                && d@.namespace == Some(i.namespace@) && i.name@ == d@.name),
            None => !sent || (action matches SyncObjectAction::Upsert(_, g, _, _) && g@.namespace is None)
                || (action matches SyncObjectAction::Delete(d) && (
                !old(services).gateway_configuration_manager.yamls().dom().contains(d@)
                    || d@.namespace is None)),
        },
{
    if !sent {
        return None;
    }
    match action {
        SyncObjectAction::Upsert(_, gateway_ref, values, _) => {
            match services.try_insert_gateway_configuration(gateway_ref.clone(), values.config_yaml.clone()) {
                Ok(event) => Some(event),
                Err(_) => None,
            }
        },
        SyncObjectAction::Delete(object_ref) => services.remove_gateway_configuration(object_ref),
    }
}

} // verus!
