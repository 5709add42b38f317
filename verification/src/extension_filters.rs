//! The extension filters that the routes of each gateway name: the static
//! response filters and the access control filters of this project's group
//! that exist, each once, in the order in which the routes first name them.
use crate::api::{AccessControlFilterSpec, StaticResponseFilterSpec};
use crate::entries::{entries_map, has_key, lemma_entry_in_map};
use crate::gateway_config::ExtensionFilters;
use crate::kinds::{access_control_filter_kind, kind_view, static_response_filter_kind};
use crate::object_ref::{group_of, KubeObject, ObjectRef, ObjectRefView, ResourceKind};
use crate::objects::Objects;
use crate::ref_map::RefMap;
use crate::routes::{flat, HttpRoute, RouteFilterSpec, RouteRuleSpec};
use crate::text::{clone_opt_string, opt_view};
use std::sync::Arc;
use vstd::prelude::*;

verus! {

/// A resource kind as its kind, version and group.
pub type KindView = (Seq<char>, Seq<char>, Seq<char>);

/// The reference that one filter of a route names to an object of the
/// kind: one when its extension reference has the kind's group and kind,
/// in the route's namespace.
pub open spec fn filter_named(f: RouteFilterSpec, namespace: Option<Seq<char>>, kind: KindView) -> Seq<
    ObjectRefView,
> {
    match f.extension_ref {
        Some(e) => if e.group@ == kind.2 && e.kind@ == kind.0 {
            seq![
                ObjectRefView {
                    kind: kind.0,
                    version: kind.1,
                    group: group_of(kind.2),
                    namespace: namespace,
                    name: e.name@,
                },
            ]
        } else {
            Seq::empty()
        },
        None => Seq::empty(),
    }
}

/// The references that a list of filters names, in order.
pub open spec fn filters_named(fs: Seq<RouteFilterSpec>, namespace: Option<Seq<char>>, kind: KindView) -> Seq<
    ObjectRefView,
>
    decreases fs.len(),
{
    if fs.len() == 0 {
        Seq::empty()
    } else {
        filters_named(fs.drop_last(), namespace, kind) + filter_named(fs.last(), namespace, kind)
    }
}

/// The references that the filters of a list of rules name, in order.
pub open spec fn rules_named(rs: Seq<RouteRuleSpec>, namespace: Option<Seq<char>>, kind: KindView) -> Seq<
    ObjectRefView,
>
    decreases rs.len(),
{
    if rs.len() == 0 {
        Seq::empty()
    } else {
        rules_named(rs.drop_last(), namespace, kind) + filters_named(flat(rs.last().filters), namespace, kind)
    }
}

/// The namespace of a route.
pub open spec fn route_namespace(r: Arc<HttpRoute>) -> Option<Seq<char>> {
    opt_view(r.metadata.namespace)
}

/// The references that a list of routes names, in order, each route's in
/// its own namespace.
pub open spec fn routes_named(routes: Seq<Arc<HttpRoute>>, kind: KindView) -> Seq<ObjectRefView>
    decreases routes.len(),
{
    if routes.len() == 0 {
        Seq::empty()
    } else {
        let r = routes.last();
        routes_named(routes.drop_last(), kind) + rules_named(flat(r.data.rules), route_namespace(r), kind)
    }
}

/// The references of a list that are present, each at its first
/// occurrence.
pub open spec fn first_present(s: Seq<ObjectRefView>, present: Set<ObjectRefView>) -> Seq<ObjectRefView>
    decreases s.len(),
{
    if s.len() == 0 {
        Seq::empty()
    } else {
        let p = first_present(s.drop_last(), present);
        if present.contains(s.last()) && !p.contains(s.last()) {
            p.push(s.last())
        } else {
            p
        }
    }
}

/// The references of a list of filed objects.
pub open spec fn pair_refs<T>(s: Seq<(ObjectRef, Arc<KubeObject<T>>)>) -> Seq<ObjectRefView> {
    s.map_values(|e: (ObjectRef, Arc<KubeObject<T>>)| e.0@)
}

/// Each entry holds the object that is filed under its reference.
pub open spec fn filed_pairs<T>(
    s: Seq<(ObjectRef, Arc<KubeObject<T>>)>,
    m: Map<ObjectRefView, Arc<KubeObject<T>>>,
) -> bool {
    forall|i: int| 0 <= i < s.len() ==> m.dom().contains(#[trigger] s[i].0@) && m[s[i].0@] == s[i].1
}

/// The objects that routes name, as collected: those that exist, each once,
/// in the order in which the routes first name them.
pub open spec fn named_objects<T>(
    collected: Seq<(ObjectRef, Arc<KubeObject<T>>)>,
    routes: Seq<Arc<HttpRoute>>,
    objects: Objects<T>,
    kind: KindView,
) -> bool {
    &&& pair_refs(collected) == first_present(routes_named(routes, kind), objects.by_ref_map().dom())
    &&& filed_pairs(collected, objects.by_ref_map())
}

/// The kind of static response filters.
pub open spec fn static_response_kind() -> KindView {
    ("StaticResponseFilter"@, "v1alpha1"@, "vale-gateway.whitefamily.in"@)
}

/// The kind of access control filters.
pub open spec fn access_control_kind() -> KindView {
    ("AccessControlFilter"@, "v1alpha1"@, "vale-gateway.whitefamily.in"@)
}

/// The extension filters of a gateway whose routes are the given ones.
pub open spec fn filters_of_routes(
    f: ExtensionFilters,
    routes: Seq<Arc<HttpRoute>>,
    static_responses: Objects<StaticResponseFilterSpec>,
    access_controls: Objects<AccessControlFilterSpec>,
) -> bool {
    &&& named_objects(f.static_responses@, routes, static_responses, static_response_kind())
    &&& named_objects(f.access_controls@, routes, access_controls, access_control_kind())
}

/// The filters collected for a gateway hold no filter twice; each of them
/// exists and is named by the gateway's routes; and every existing filter
/// that the routes name is among them.
pub proof fn law_collected_filters_distinct(named: Seq<ObjectRefView>, present: Set<ObjectRefView>)
    ensures
        first_present(named, present).no_duplicates(),
        forall|x: ObjectRefView| #[trigger]
            first_present(named, present).contains(x) ==> present.contains(x) && named.contains(x),
        forall|x: ObjectRefView|
            named.contains(x) && present.contains(x) ==> #[trigger] first_present(named, present).contains(x),
    decreases named.len(),
{
    if named.len() > 0 {
        let rest = named.drop_last();
        let last = named.last();
        law_collected_filters_distinct(rest, present);
        let p = first_present(rest, present);
        assert forall|x: ObjectRefView| rest.contains(x) implies named.contains(x) by {
            let j = choose|j: int| 0 <= j < rest.len() && rest[j] == x;
            assert(named[j] == x);
        }
        assert(named.contains(last)) by {
            assert(named[named.len() - 1] == last);
        }
        if present.contains(last) && !p.contains(last) {
            let q = p.push(last);
            assert forall|i: int, j: int| 0 <= i < j < q.len() implies q[i] != q[j] by {
                if j == q.len() - 1 {
                    assert(q[i] == p[i]);
                }
            }
            assert forall|x: ObjectRefView| q.contains(x) implies present.contains(x) && named.contains(x) by {
                let j = choose|j: int| 0 <= j < q.len() && q[j] == x;
                if j < p.len() {
                    assert(p[j] == x);
                    assert(p.contains(x));
                }
            }
            assert forall|x: ObjectRefView| named.contains(x) && present.contains(x) implies q.contains(x) by {
                let j = choose|j: int| 0 <= j < named.len() && named[j] == x;
                if j < named.len() - 1 {
                    assert(rest[j] == x);
                    assert(rest.contains(x));
                    assert(p.contains(x));
                    let k = choose|k: int| 0 <= k < p.len() && p[k] == x;
                    assert(q[k] == x);
                } else {
                    assert(q[q.len() - 1] == x);
                }
            }
        } else {
            assert forall|x: ObjectRefView| named.contains(x) && present.contains(x) implies p.contains(x) by {
                let j = choose|j: int| 0 <= j < named.len() && named[j] == x;
                if j < named.len() - 1 {
                    assert(rest[j] == x);
                    assert(rest.contains(x));
                }
            }
        }
    }
}

proof fn lemma_first_present_step(s: Seq<ObjectRefView>, x: Seq<ObjectRefView>, present: Set<ObjectRefView>)
    requires
        x.len() <= 1,
    ensures
        first_present(s + x, present) == if x.len() == 0 {
            first_present(s, present)
        } else {
            let p = first_present(s, present);
            if present.contains(x[0]) && !p.contains(x[0]) {
                p.push(x[0])
            } else {
                p
            }
        },
{
    if x.len() == 0 {
        assert(s + x =~= s);
    } else {
        assert((s + x).drop_last() =~= s);
        assert((s + x).last() == x[0]);
    }
}

/// Adds the object filed under a reference, unless it is missing or was
/// added before.
fn add_named<T>(out: &mut Vec<(ObjectRef, Arc<KubeObject<T>>)>, objects: &Objects<T>, r: ObjectRef)
    requires
        objects.wf(),
        filed_pairs(old(out)@, objects.by_ref_map()),
    ensures
        filed_pairs(final(out)@, objects.by_ref_map()),
        pair_refs(final(out)@) == ({
            let p = pair_refs(old(out)@);
            if objects.by_ref_map().dom().contains(r@) && !p.contains(r@) {
                p.push(r@)
            } else {
                p
            }
        }),
{
    let mut i: usize = 0;
    while i < out.len()
        invariant
            i <= out.len(),
            out@ == old(out)@,
            filed_pairs(out@, objects.by_ref_map()),
            forall|j: int| 0 <= j < i ==> pair_refs(out@)[j] != r@,
        decreases out.len() - i,
    {
        if out[i].0.same_as(&r) {
            assert(pair_refs(out@)[i as int] == r@);
            return;
        }
        i += 1;
    }
    assert(!pair_refs(out@).contains(r@));
    match objects.get_by_ref(&r) {
        Some(o) => {
            out.push((r, o));
            assert(pair_refs(out@) =~= pair_refs(old(out)@).push(r@));
        },
        None => {},
    }
}

/// The objects of a kind that a list of routes names: those that exist,
/// each once, in the order in which the routes first name them.
fn collect_named<T>(routes: &Vec<Arc<HttpRoute>>, objects: &Objects<T>, kind: &ResourceKind) -> (r: Vec<
    (ObjectRef, Arc<KubeObject<T>>),
>)
    requires
        objects.wf(),
    ensures
        named_objects(r@, routes@, *objects, kind_view(*kind)),
{
    let ghost kv = kind_view(*kind);
    let ghost present = objects.by_ref_map().dom();
    let mut out: Vec<(ObjectRef, Arc<KubeObject<T>>)> = Vec::new();
    let ghost mut seen: Seq<ObjectRefView> = Seq::empty();
    assert(routes@.take(0) =~= Seq::<Arc<HttpRoute>>::empty());
    let mut i: usize = 0;
    while i < routes.len()
        invariant
            objects.wf(),
            kv == kind_view(*kind),
            present == objects.by_ref_map().dom(),
            i <= routes.len(),
            seen == routes_named(routes@.take(i as int), kv),
            filed_pairs(out@, objects.by_ref_map()),
            pair_refs(out@) == first_present(seen, present),
        decreases routes.len() - i,
    {
        let route = &routes[i];
        let ghost ns = route_namespace(routes@[i as int]);
        let ghost seen_route = seen;
        let empty_rules: Vec<RouteRuleSpec> = Vec::new();
        let rules = match &route.data.rules {
            Some(rs) => rs,
            None => &empty_rules,
        };
        assert(rules@ == flat(route.data.rules));
        assert(rules@.take(0) =~= Seq::<RouteRuleSpec>::empty());
        assert(seen_route + rules_named(rules@.take(0), ns, kv) =~= seen_route);
        let mut j: usize = 0;
        while j < rules.len()
            invariant
                objects.wf(),
                kv == kind_view(*kind),
                present == objects.by_ref_map().dom(),
                j <= rules.len(),
                ns == route_namespace(*route),
                seen == seen_route + rules_named(rules@.take(j as int), ns, kv),
                filed_pairs(out@, objects.by_ref_map()),
                pair_refs(out@) == first_present(seen, present),
            decreases rules.len() - j,
        {
            let rule = &rules[j];
            let ghost seen_rule = seen;
            let empty_filters: Vec<RouteFilterSpec> = Vec::new();
            let filters = match &rule.filters {
                Some(fs) => fs,
                None => &empty_filters,
            };
            assert(filters@ == flat(rule.filters));
            assert(filters@.take(0) =~= Seq::<RouteFilterSpec>::empty());
            assert(seen_rule + filters_named(filters@.take(0), ns, kv) =~= seen_rule);
            let mut k: usize = 0;
            while k < filters.len()
                invariant
                    objects.wf(),
                    kv == kind_view(*kind),
                    present == objects.by_ref_map().dom(),
                    k <= filters.len(),
                    ns == route_namespace(*route),
                    seen == seen_rule + filters_named(filters@.take(k as int), ns, kv),
                    filed_pairs(out@, objects.by_ref_map()),
                    pair_refs(out@) == first_present(seen, present),
                decreases filters.len() - k,
            {
                let f = &filters[k];
                let ghost step = filter_named(*f, ns, kv);
                proof {
                    lemma_first_present_step(seen, step, present);
                }
                if let Some(e) = &f.extension_ref {
                    if e.group.eq(&kind.group) && e.kind.eq(&kind.kind) {
                        let r = ObjectRef::for_kind(
                            kind,
                            clone_opt_string(&route.metadata.namespace),
                            e.name.clone(),
                        );
                        assert(step =~= seq![r@]);
                        add_named(&mut out, objects, r);
                    }
                }
                proof {
                    assert(filters@.take(k + 1).drop_last() =~= filters@.take(k as int));
                    assert(filters@.take(k + 1).last() == *f);
                    assert(seen_rule + filters_named(filters@.take(k + 1), ns, kv) =~= seen + step);
                    seen = seen + step;
                }
                k += 1;
            }
            proof {
                assert(filters@.take(filters.len() as int) =~= filters@);
                assert(rules@.take(j + 1).drop_last() =~= rules@.take(j as int));
                assert(rules@.take(j + 1).last() == *rule);
                assert(seen_route + rules_named(rules@.take(j + 1), ns, kv) =~= seen_rule
                    + filters_named(filters@, ns, kv));
            }
            j += 1;
        }
        proof {
            assert(rules@.take(rules.len() as int) =~= rules@);
            assert(routes@.take(i + 1).drop_last() =~= routes@.take(i as int));
            assert(routes@.take(i + 1).last() == *route);
        }
        i += 1;
    }
    assert(routes@.take(routes.len() as int) =~= routes@);
    out
}

/// The extension filters that each gateway's routes name: for each
/// gateway, the static response filters and the access control filters of
/// this project's group that exist, each once, in the order in which its
/// routes first name them, in the routes' own namespaces.
pub fn collect_extension_filters(
    routes_by_gateway: &RefMap<Vec<Arc<HttpRoute>>>,
    static_responses: &Objects<StaticResponseFilterSpec>,
    access_controls: &Objects<AccessControlFilterSpec>,
) -> (r: RefMap<ExtensionFilters>)
    requires
        routes_by_gateway.wf(),
        static_responses.wf(),
        access_controls.wf(),
    ensures
        r.wf(),
        r.map().dom() == routes_by_gateway.map().dom(),
        forall|g: ObjectRefView| #[trigger]
            r.map().dom().contains(g) ==> filters_of_routes(
                r.map()[g],
                routes_by_gateway.map()[g]@,
                *static_responses,
                *access_controls,
            ),
{
    let static_kind = static_response_filter_kind();
    let access_kind = access_control_filter_kind();
    let entries = routes_by_gateway.entries();
    let ghost order = routes_by_gateway.order();
    proof {
        routes_by_gateway.lemma_order();
    }
    let mut r: RefMap<ExtensionFilters> = RefMap::new();
    let mut i: usize = 0;
    while i < entries.len()
        invariant
            static_responses.wf(),
            access_controls.wf(),
            kind_view(static_kind) == static_response_kind(),
            kind_view(access_kind) == access_control_kind(),
            order == routes_by_gateway.order(),
            crate::ref_map::ref_entries(entries@) == order,
            crate::entries::keys_unique(order),
            entries_map(order) == routes_by_gateway.map(),
            i <= entries.len(),
            r.wf(),
            forall|g: ObjectRefView| r.map().dom().contains(g) <==> has_key(order.take(i as int), g),
            forall|g: ObjectRefView| #[trigger]
                r.map().dom().contains(g) ==> filters_of_routes(
                    r.map()[g],
                    routes_by_gateway.map()[g]@,
                    *static_responses,
                    *access_controls,
                ),
        decreases entries.len() - i,
    {
        let (gateway_ref, routes) = &entries[i];
        proof {
            lemma_entry_in_map(order, i as int);
            assert(order[i as int].0 == gateway_ref@);
            assert(order[i as int].1 == *routes);
        }
        let filters = ExtensionFilters {
            static_responses: collect_named(routes, static_responses, &static_kind),
            access_controls: collect_named(routes, access_controls, &access_kind),
        };
        assert(filters_of_routes(filters, routes@, *static_responses, *access_controls));
        let ghost before = r.map();
        r.insert(gateway_ref.clone(), filters);
        proof {
            assert forall|g: ObjectRefView|
                r.map().dom().contains(g) <==> has_key(order.take(i + 1), g) by {
                if has_key(order.take(i + 1), g) {
                    let j = choose|j: int| 0 <= j < order.take(i + 1).len() && #[trigger] order.take(i + 1)[j].0 == g;
                    if j < i {
                        assert(order.take(i as int)[j].0 == g);
                    }
                }
                if has_key(order.take(i as int), g) {
                    let j = choose|j: int| 0 <= j < order.take(i as int).len() && #[trigger] order.take(i as int)[j].0 == g;
                    assert(order.take(i + 1)[j].0 == g);
                }
                if g == gateway_ref@ {
                    assert(order.take(i + 1)[i as int].0 == g);
                }
            }
        }
        i += 1;
    }
    proof {
        assert(order.take(entries.len() as int) =~= order);
        assert(r.map().dom() =~= routes_by_gateway.map().dom());
    }
    r
}

} // verus!
