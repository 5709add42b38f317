//! The parameters object of each gateway: the one that the gateway's
//! infrastructure settings name, in the gateway's namespace.
use crate::gateway_classes::{Gateway, GatewaySpec, LocalParametersReference};
use crate::object_ref::{KubeObject, ObjectRef, ObjectRefView};
use crate::objects::{items_view, iter_items, ObjectItem, Objects};
use crate::ref_map::RefMap;
use crate::text::{opt_string_eq, opt_view};
use std::sync::Arc;
use vstd::prelude::*;

verus! {

/// Whether a reference is the one that a gateway's local parameters
/// reference names from the given namespace (whatever its version).
pub open spec fn names_parameters(
    r: ObjectRefView,
    p: LocalParametersReference,
    namespace: Option<Seq<char>>,
) -> bool {
    &&& r.group == Some(p.group@)
    &&& r.kind == p.kind@
    &&& r.namespace == namespace
    &&& r.name == p.name@
}

/// The first of the parameters objects that a reference names.
pub open spec fn first_parameters<P>(
    items: Seq<(ObjectRefView, Seq<char>, Arc<KubeObject<P>>)>,
    p: LocalParametersReference,
    namespace: Option<Seq<char>>,
) -> Option<Arc<KubeObject<P>>>
    decreases items.len(),
{
    if items.len() == 0 {
        None
    } else if names_parameters(items[0].0, p, namespace) {
        Some(items[0].2)
    } else {
        first_parameters(items.drop_first(), p, namespace)
    }
}

/// The parameters reference of a gateway, if its infrastructure names one.
pub open spec fn parameters_ref_of(g: Gateway) -> Option<LocalParametersReference> {
    match g.data.infrastructure {
        Some(i) => i.parameters_ref,
        None => None,
    }
}

/// Each gateway whose infrastructure names a parameters object that
/// exists, in order, with that object.
pub open spec fn gateway_parameters_of<P>(
    gateways: Seq<(ObjectRefView, Seq<char>, Arc<Gateway>)>,
    parameters: Seq<(ObjectRefView, Seq<char>, Arc<KubeObject<P>>)>,
) -> Seq<(ObjectRefView, Arc<KubeObject<P>>)>
    decreases gateways.len(),
{
    if gateways.len() == 0 {
        Seq::empty()
    } else {
        let rest = gateway_parameters_of(gateways.drop_last(), parameters);
        let (g_ref, _, g) = gateways.last();
        match parameters_ref_of(*g) {
            Some(p) => match first_parameters(parameters, p, g_ref.namespace) {
                Some(o) => rest.push((g_ref, o)),
                None => rest,
            },
            None => rest,
        }
    }
}

/// The map that inserting the entries in order gives.
pub open spec fn inserted<V>(s: Seq<(ObjectRefView, V)>) -> Map<ObjectRefView, V>
    decreases s.len(),
{
    if s.len() == 0 {
        Map::empty()
    } else {
        inserted(s.drop_last()).insert(s.last().0, s.last().1)
    }
}

fn names(r: &ObjectRef, p: &LocalParametersReference, namespace: &Option<String>) -> (b: bool)
    ensures
        b == names_parameters(r@, *p, opt_view(*namespace)),
{
    let group_matches = match r.group() {
        Some(g) => g.eq(&p.group),
        None => false,
    };
    group_matches && r.kind().eq(&p.kind) && opt_string_eq(r.namespace(), namespace) && r.name().eq(
        &p.name,
    )
}

fn find_parameters<P>(
    items: &Vec<ObjectItem<P>>,
    p: &LocalParametersReference,
    namespace: &Option<String>,
) -> (r: Option<Arc<KubeObject<P>>>)
    ensures
        r == first_parameters(items_view(items@), *p, opt_view(*namespace)),
{
    let ghost all = items_view(items@);
    let mut i: usize = 0;
    assert(all.skip(0) =~= all);
    while i < items.len()
        invariant
            i <= items.len(),
            all == items_view(items@),
            first_parameters(all, *p, opt_view(*namespace)) == first_parameters(
                all.skip(i as int),
                *p,
                opt_view(*namespace),
            ),
        decreases items.len() - i,
    {
        assert(all.skip(i as int)[0] == all[i as int]);
        let (r, _, o) = &items[i];
        if names(r, p, namespace) {
            return Some(crate::objects::arc_clone(o));
        }
        assert(all.skip(i as int).drop_first() =~= all.skip(i + 1));
        i += 1;
    }
    None
}

/// The parameters object of each gateway whose infrastructure names one
/// that exists.
pub fn filter_gateway_parameters<P>(gateways: &Objects<GatewaySpec>, gateway_parameters: &Objects<P>) -> (r:
    RefMap<Arc<KubeObject<P>>>)
    requires
        gateways.wf(),
        gateway_parameters.wf(),
    ensures
        r.wf(),
        r.map() == inserted(
            gateway_parameters_of(
                iter_items(gateways.ref_order()),
                iter_items(gateway_parameters.ref_order()),
            ),
        ),
{
    let gs = gateways.iter();
    let ps = gateway_parameters.iter();
    let ghost all = iter_items(gateways.ref_order());
    let ghost params = iter_items(gateway_parameters.ref_order());
    let mut r: RefMap<Arc<KubeObject<P>>> = RefMap::new();
    let mut i: usize = 0;
    while i < gs.len()
        invariant
            i <= gs.len(),
            items_view(gs@) == all,
            items_view(ps@) == params,
            r.wf(),
            r.map() == inserted(gateway_parameters_of(all.take(i as int), params)),
        decreases gs.len() - i,
    {
        assert(all.take(i + 1).drop_last() =~= all.take(i as int));
        let (g_ref, g_uid, g) = &gs[i];
        assert(all[i as int] == (g_ref@, g_uid@, *g));
        let p = match &g.data.infrastructure {
            Some(infra) => &infra.parameters_ref,
            None => &None,
        };
        assert(*p == parameters_ref_of(**g));
        assert(all.take(i + 1).last() == all[i as int]);
        let ghost before = gateway_parameters_of(all.take(i as int), params);
        if let Some(p) = p {
            if let Some(o) = find_parameters(&ps, p, g_ref.namespace()) {
                r.insert(g_ref.clone(), o);
                assert(gateway_parameters_of(all.take(i + 1), params) == before.push((g_ref@, o)));
                assert(before.push((g_ref@, o)).drop_last() =~= before);
            } else {
                assert(gateway_parameters_of(all.take(i + 1), params) == before);
            }
        } else {
            assert(gateway_parameters_of(all.take(i + 1), params) == before);
        }
        i += 1;
    }
    assert(all.take(gs.len() as int) =~= all);
    r
}

} // verus!
