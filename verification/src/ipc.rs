//! What the control plane serves to the gateways: the written-out
//! configuration of each gateway, the events that tell a gateway to fetch
//! it again, and the answers of the endpoints that hand them out.
use crate::kinds::gateway_kind;
use crate::object_ref::{display_spec, ObjectRef, ObjectRefView, ObjectUniqueId};
use crate::ref_map::RefMap;
use crate::text::push_str;
use vstd::prelude::*;
use vstd::string::*;

verus! {

/// A gateway as the gateways' side names it: a namespace and a name.
#[derive(Debug)]
pub struct IpcRef {
    pub namespace: String,
    pub name: String,
}

/// Why an object reference does not name a gateway.
#[derive(Debug, PartialEq, Eq)]
pub enum TryFromObjectRefError {
    MissingNamespace,
}

impl IpcRef {
    /// The gateway that an object reference names; only a namespaced
    /// reference names one.
    pub fn try_from_object_ref(object_ref: &ObjectRef) -> (r: Result<IpcRef, TryFromObjectRefError>)
        ensures
            match r {
                Ok(i) => object_ref@.namespace == Some(i.namespace@) && i.name@ == object_ref@.name,
                Err(e) => object_ref@.namespace is None && e == TryFromObjectRefError::MissingNamespace,
            },
    {
        match object_ref.namespace() {
            Some(namespace) => Ok(IpcRef { namespace: namespace.clone(), name: object_ref.name().clone() }),
            None => Err(TryFromObjectRefError::MissingNamespace),
        }
    }
}

/// What happened to a gateway's configuration.
#[derive(Debug)]
pub enum GatewayEvent {
    ConfigurationUpdate(IpcRef),
    Deleted(IpcRef),
}

impl GatewayEvent {
    /// The gateway the event is about.
    pub fn gateway_ref(&self) -> (r: &IpcRef)
        ensures
            *r == match self {
                GatewayEvent::ConfigurationUpdate(g) => *g,
                GatewayEvent::Deleted(g) => *g,
            },
    {
        match self {
            GatewayEvent::ConfigurationUpdate(g) | GatewayEvent::Deleted(g) => g,
        }
    }
}

/// An event that the control plane sends to the gateways.
#[derive(Debug)]
pub enum Event {
    Gateway(GatewayEvent),
}

/// A subscriber fell behind and lost events.
#[derive(Debug, PartialEq, Eq)]
pub struct RecvError;

/// The gateway event that a received event carries, or the error of a
/// subscriber that fell behind.
pub fn gateway_event(event: Result<Event, RecvError>) -> (r: Option<Result<GatewayEvent, RecvError>>)
    ensures
        match event {
            Ok(Event::Gateway(g)) => r == Some(Ok::<GatewayEvent, RecvError>(g)),
            Err(_) => r matches Some(Err(_)),
        },
{
    match event {
        Ok(Event::Gateway(g)) => Some(Ok(g)),
        Err(_) => Some(Err(RecvError)),
    }
}

/// Whether an event tells the named gateway that its configuration changed.
pub open spec fn is_update_of(event: Result<GatewayEvent, RecvError>, gateway: ObjectRefView) -> bool {
    match event {
        Ok(GatewayEvent::ConfigurationUpdate(r)) => r.name@ == gateway.name && Some(r.namespace@)
            == gateway.namespace,
        _ => false,
    }
}

/// Whether a subscriber of one gateway's events receives an event: only
/// the configuration updates of that gateway pass.
pub fn is_named_gateway_event(event: &Result<GatewayEvent, RecvError>, gateway_ref: &ObjectRef) -> (b: bool)
    ensures
        b == is_update_of(*event, gateway_ref@),
{
    match event {
        Ok(GatewayEvent::ConfigurationUpdate(r)) => {
            let same_name = r.name.eq(gateway_ref.name());
            let same_namespace = match gateway_ref.namespace() {
                Some(ns) => r.namespace.eq(ns),
                None => false,
            };
            same_name && same_namespace
        },
        _ => false,
    }
}

/// The written-out configuration of each gateway, by the gateway's
/// reference.
pub struct GatewayConfigurationManager {
    configurations: RefMap<String>,
}

impl GatewayConfigurationManager {
    #[verifier::type_invariant]
    spec fn inv(self) -> bool {
        self.configurations.wf()
    }

    /// The configurations held, by gateway.
    pub closed spec fn yamls(&self) -> Map<ObjectRefView, Seq<char>> {
        self.configurations.map().map_values(|s: String| s@)
    }

    /// A store that holds no configuration.
    pub fn new() -> (r: GatewayConfigurationManager)
        ensures
            r.yamls() == Map::<ObjectRefView, Seq<char>>::empty(),
    {
        let r = GatewayConfigurationManager { configurations: RefMap::new() };
        assert(r.yamls() =~= Map::<ObjectRefView, Seq<char>>::empty());
        r
    }

    /// Whether a configuration is held for the gateway.
    pub fn contains(&self, gateway_ref: &ObjectRef) -> (b: bool)
        ensures
            b == self.yamls().dom().contains(gateway_ref@),
    {
        proof {
            use_type_invariant(self);
        }
        self.configurations.contains_key(gateway_ref)
    }

    /// The configuration held for the gateway.
    pub fn get_configuration_yaml(&self, gateway_ref: &ObjectRef) -> (r: Option<&String>)
        ensures
            match r {
                Some(y) => self.yamls().dom().contains(gateway_ref@) && self.yamls()[gateway_ref@]
                    == y@,
                None => !self.yamls().dom().contains(gateway_ref@),
            },
    {
        proof {
            use_type_invariant(self);
        }
        self.configurations.get(gateway_ref)
    }

    /// Holds the configuration for the gateway, in place of any earlier one.
    pub fn insert(&mut self, gateway_ref: ObjectRef, yaml: String)
        ensures
            final(self).yamls() == old(self).yamls().insert(gateway_ref@, yaml@),
    {
        proof {
            use_type_invariant(&*self);
        }
        let ghost k = gateway_ref@;
        let ghost y = yaml@;
        let mut configurations = RefMap::new();
        std::mem::swap(&mut configurations, &mut self.configurations);
        configurations.insert(gateway_ref, yaml);
        self.configurations = configurations;
        assert(self.yamls() =~= old(self).yamls().insert(k, y));
    }

    /// Drops the configuration of the gateway; whether one was held.
    pub fn remove(&mut self, gateway_ref: &ObjectRef) -> (b: bool)
        ensures
            b == old(self).yamls().dom().contains(gateway_ref@),
            final(self).yamls() == old(self).yamls().remove(gateway_ref@),
    {
        proof {
            use_type_invariant(&*self);
        }
        let b = self.configurations.contains_key(gateway_ref);
        let mut configurations = RefMap::new();
        std::mem::swap(&mut configurations, &mut self.configurations);
        configurations.remove(gateway_ref);
        self.configurations = configurations;
        assert(self.yamls() =~= old(self).yamls().remove(gateway_ref@));
        b
    }
}

/// Why a configuration could not be handed out.
#[derive(Debug, PartialEq, Eq)]
pub enum IpcInsertGatewayConfigurationError {
    InvalidGatewayRef(TryFromObjectRefError),
}

/// The configurations handed out to the gateways and the port at which
/// they are served.
pub struct IpcServices {
    pub gateway_configuration_manager: GatewayConfigurationManager,
    pub port: u16,
}

impl IpcServices {
    /// The port at which the gateways reach the control plane.
    pub fn port(&self) -> (p: u16)
        ensures
            p == self.port,
    {
        self.port
    }

    /// Holds a gateway's configuration and gives the event that announces
    /// it; the configuration is held even when the reference names no
    /// namespace, and the error then says so.
    pub fn try_insert_gateway_configuration(&mut self, gateway_ref: ObjectRef, yaml: String) -> (r:
        Result<GatewayEvent, IpcInsertGatewayConfigurationError>)
        ensures
            final(self).port == old(self).port,
            final(self).gateway_configuration_manager.yamls() == old(
                self,
            ).gateway_configuration_manager.yamls().insert(gateway_ref@, yaml@),
            match r {
                Ok(GatewayEvent::ConfigurationUpdate(i)) => gateway_ref@.namespace == Some(
                    i.namespace@,
                ) && i.name@ == gateway_ref@.name,
                Ok(GatewayEvent::Deleted(_)) => false,
                Err(e) => gateway_ref@.namespace is None && e
                    == IpcInsertGatewayConfigurationError::InvalidGatewayRef(
                    TryFromObjectRefError::MissingNamespace,
                ),
            },
    {
        let ipc_ref = IpcRef::try_from_object_ref(&gateway_ref);
        self.gateway_configuration_manager.insert(gateway_ref, yaml);
        match ipc_ref {
            Ok(i) => Ok(GatewayEvent::ConfigurationUpdate(i)),
            Err(e) => Err(IpcInsertGatewayConfigurationError::InvalidGatewayRef(e)),
        }
    }

    /// Drops a gateway's configuration and gives the event that announces
    /// it: one only when a configuration was held and the reference names
    /// a namespace.
    pub fn remove_gateway_configuration(&mut self, gateway_ref: &ObjectRef) -> (r: Option<GatewayEvent>)
        ensures
            final(self).port == old(self).port,
            final(self).gateway_configuration_manager.yamls() == old(
                self,
            ).gateway_configuration_manager.yamls().remove(gateway_ref@),
            match r {
                Some(GatewayEvent::Deleted(i)) => old(
                    self,
                ).gateway_configuration_manager.yamls().dom().contains(gateway_ref@)
                    && gateway_ref@.namespace == Some(i.namespace@) && i.name@ == gateway_ref@.name,
                Some(GatewayEvent::ConfigurationUpdate(_)) => false,
                None => !old(self).gateway_configuration_manager.yamls().dom().contains(
                    gateway_ref@,
                ) || gateway_ref@.namespace is None,
            },
    {
        if self.gateway_configuration_manager.remove(gateway_ref) {
            match IpcRef::try_from_object_ref(gateway_ref) {
                Ok(i) => Some(GatewayEvent::Deleted(i)),
                Err(_) => None,
            }
        } else {
            None
        }
    }
}

/// A refusal of a request, in the shape of a problem detail: the response's
/// status, the status that the body states, a title and a detail.
#[derive(Debug, PartialEq, Eq)]
pub struct Problem {
    pub status: u16,
    pub status_value: u16,
    pub title: String,
    pub detail: String,
}

/// The model of a [`Problem`].
pub struct ProblemView {
    pub status: u16,
    pub status_value: u16,
    pub title: Seq<char>,
    pub detail: Seq<char>,
}

impl View for Problem {
    type V = ProblemView;

    open spec fn view(&self) -> ProblemView {
        ProblemView {
            status: self.status,
            status_value: self.status_value,
            title: self.title@,
            detail: self.detail@,
        }
    }
}

/// The reference to the gateway of the given namespace and name.
pub open spec fn gateway_ref_of(namespace: Seq<char>, name: Seq<char>) -> ObjectRefView {
    ObjectRefView {
        kind: "Gateway"@,
        version: "v1"@,
        group: Some("gateway.networking.k8s.io"@),
        namespace: Some(namespace),
        name: name,
    }
}

/// The refusal of a request whose gateway namespace is empty: a bad
/// request whose body states the status of a bad gateway.
pub open spec fn empty_namespace_problem() -> ProblemView {
    ProblemView {
        status: 400,
        status_value: 502,
        title: "Invalid Namespace"@,
        detail: "Gateway namespace cannot be empty"@,
    }
}

/// The refusal of a request whose gateway name is empty.
pub open spec fn empty_name_problem() -> ProblemView {
    ProblemView {
        status: 400,
        status_value: 400,
        title: "Invalid Name"@,
        detail: "Gateway name cannot be empty"@,
    }
}

/// The gateway that a request's path names, or why the path is refused:
/// the namespace is checked first, then the name.
pub open spec fn path_gateway(namespace: Seq<char>, name: Seq<char>) -> Result<ObjectRefView, ProblemView> {
    if namespace.len() == 0 {
        Err(empty_namespace_problem())
    } else if name.len() == 0 {
        Err(empty_name_problem())
    } else {
        Ok(gateway_ref_of(namespace, name))
    }
}

fn problem(status: u16, status_value: u16, title: &str, detail: String) -> (p: Problem)
    ensures
        p@ == (ProblemView { status, status_value, title: title@, detail: detail@ }),
{
    Problem { status, status_value, title: String::from_str(title), detail }
}

/// The gateway that a request's path names.
pub fn gateway_ref_from_path(namespace: &String, name: &String) -> (r: Result<ObjectRef, Problem>)
    ensures
        match r {
            Ok(g) => path_gateway(namespace@, name@) == Ok::<ObjectRefView, ProblemView>(g@),
            Err(p) => path_gateway(namespace@, name@) == Err::<ObjectRefView, ProblemView>(p@),
        },
{
    if namespace.as_str().unicode_len() == 0 {
        return Err(problem(400, 502, "Invalid Namespace", String::from_str("Gateway namespace cannot be empty")));
    }
    if name.as_str().unicode_len() == 0 {
        return Err(problem(400, 400, "Invalid Name", String::from_str("Gateway name cannot be empty")));
    }
    let r = ObjectRef::for_kind(&gateway_kind(), Some(namespace.clone()), name.clone());
    proof {
        reveal_strlit("gateway.networking.k8s.io");
    }
    Ok(r)
}

/// The answer to a request for a gateway's configuration: the configuration
/// held for the gateway, or a refusal of the path, or not found.
pub open spec fn configuration_answer(
    yamls: Map<ObjectRefView, Seq<char>>,
    namespace: Seq<char>,
    name: Seq<char>,
) -> Result<Seq<char>, ProblemView> {
    match path_gateway(namespace, name) {
        Err(p) => Err(p),
        Ok(g) => if yamls.dom().contains(g) {
            Ok(yamls[g])
        } else {
            Err(
                ProblemView {
                    status: 404,
                    status_value: 404,
                    title: "Gateway Configuration Not Found"@,
                    detail: "Configuration for object "@ + display_spec(g) + " not found"@,
                },
            )
        },
    }
}

/// Answers a gateway's request for its configuration.
pub fn get_gateway_configuration(
    gateways: &GatewayConfigurationManager,
    gateway_namespace: &String,
    gateway_name: &String,
) -> (r: Result<String, Problem>)
    ensures
        match r {
            Ok(y) => configuration_answer(gateways.yamls(), gateway_namespace@, gateway_name@) == Ok::<
                Seq<char>,
                ProblemView,
            >(y@),
            Err(p) => configuration_answer(gateways.yamls(), gateway_namespace@, gateway_name@)
                == Err::<Seq<char>, ProblemView>(p@),
        },
{
    let gateway_ref = match gateway_ref_from_path(gateway_namespace, gateway_name) {
        Ok(g) => g,
        Err(p) => return Err(p),
    };
    match gateways.get_configuration_yaml(&gateway_ref) {
        Some(y) => Ok(y.clone()),
        None => {
            let mut detail = String::from_str("Configuration for object ");
            push_str(&mut detail, gateway_ref.display().as_str());
            push_str(&mut detail, " not found");
            Err(problem(404, 404, "Gateway Configuration Not Found", detail))
        },
    }
}

/// The refusal of a request for an unknown gateway.
pub open spec fn gateway_not_found(detail_prefix: Seq<char>, g: ObjectRefView) -> ProblemView {
    ProblemView {
        status: 404,
        status_value: 404,
        title: "Gateway Not Found"@,
        detail: detail_prefix + display_spec(g) + " not found"@,
    }
}

/// The answer to a request for a gateway's events: the gateway whose
/// events to stream, or a refusal of the path, or not found.
pub open spec fn events_answer(
    yamls: Map<ObjectRefView, Seq<char>>,
    namespace: Seq<char>,
    name: Seq<char>,
) -> Result<ObjectRefView, ProblemView> {
    match path_gateway(namespace, name) {
        Err(p) => Err(p),
        Ok(g) => if yamls.dom().contains(g) {
            Ok(g)
        } else {
            Err(gateway_not_found("Object "@, g))
        },
    }
}

fn not_found(prefix: &str, gateway_ref: &ObjectRef) -> (p: Problem)
    ensures
        p@ == gateway_not_found(prefix@, gateway_ref@),
{
    let mut detail = String::from_str(prefix);
    push_str(&mut detail, gateway_ref.display().as_str());
    push_str(&mut detail, " not found");
    problem(404, 404, "Gateway Not Found", detail)
}

/// Answers a gateway's request for its events: the gateway whose
/// configuration updates to stream.
pub fn get_gateway_events(
    gateways: &GatewayConfigurationManager,
    gateway_namespace: &String,
    gateway_name: &String,
) -> (r: Result<ObjectRef, Problem>)
    ensures
        match r {
            Ok(g) => events_answer(gateways.yamls(), gateway_namespace@, gateway_name@) == Ok::<
                ObjectRefView,
                ProblemView,
            >(g@),
            Err(p) => events_answer(gateways.yamls(), gateway_namespace@, gateway_name@) == Err::<
                ObjectRefView,
                ProblemView,
            >(p@),
        },
{
    let gateway_ref = match gateway_ref_from_path(gateway_namespace, gateway_name) {
        Ok(g) => g,
        Err(p) => return Err(p),
    };
    if !gateways.contains(&gateway_ref) {
        return Err(not_found("Object ", &gateway_ref));
    }
    Ok(gateway_ref)
}

/// The answer to a request for a static response, before the response is
/// looked up: the identifier to look up, or a refusal of the path (the
/// identifier is checked after the namespace and the name), or an unknown
/// gateway.
pub open spec fn static_response_request(
    yamls: Map<ObjectRefView, Seq<char>>,
    namespace: Seq<char>,
    name: Seq<char>,
    filter_id: Seq<char>,
) -> Result<Seq<char>, ProblemView> {
    match path_gateway(namespace, name) {
        Err(p) => Err(p),
        Ok(g) => if filter_id.len() == 0 {
            Err(
                ProblemView {
                    status: 400,
                    status_value: 400,
                    title: "Invalid Static Response Filter ID"@,
                    detail: "Static response filter ID cannot be empty"@,
                },
            )
        } else if !yamls.dom().contains(g) {
            Err(gateway_not_found("Gateway "@, g))
        } else {
            Ok(filter_id)
        },
    }
}

/// Answers a gateway's request for a static response up to the lookup: the
/// identifier of the response to look up.
pub fn get_static_response(
    gateways: &GatewayConfigurationManager,
    gateway_namespace: &String,
    gateway_name: &String,
    static_response_filter_id: &String,
) -> (r: Result<ObjectUniqueId, Problem>)
    ensures
        match r {
            Ok(id) => static_response_request(
                gateways.yamls(),
                gateway_namespace@,
                gateway_name@,
                static_response_filter_id@,
            ) == Ok::<Seq<char>, ProblemView>(id@),
            Err(p) => static_response_request(
                gateways.yamls(),
                gateway_namespace@,
                gateway_name@,
                static_response_filter_id@,
            ) == Err::<Seq<char>, ProblemView>(p@),
        },
{
    let gateway_ref = match gateway_ref_from_path(gateway_namespace, gateway_name) {
        Ok(g) => g,
        Err(p) => return Err(p),
    };
    if static_response_filter_id.as_str().unicode_len() == 0 {
        return Err(
            problem(
                400,
                400,
                "Invalid Static Response Filter ID",
                String::from_str("Static response filter ID cannot be empty"),
            ),
        );
    }
    if !gateways.contains(&gateway_ref) {
        return Err(not_found("Gateway ", &gateway_ref));
    }
    Ok(ObjectUniqueId::new(static_response_filter_id.clone()))
}

/// The refusal of a request for a static response that is not held.
pub fn static_response_not_found(static_response_filter_id: &String) -> (p: Problem)
    ensures
        p@ == (ProblemView {
            status: 404,
            status_value: 404,
            title: "Static Response Filter Not Found"@,
            detail: "Static response filter "@ + static_response_filter_id@ + " not found"@,
        }),
{
    let mut detail = String::from_str("Static response filter ");
    push_str(&mut detail, static_response_filter_id.as_str());
    push_str(&mut detail, " not found");
    problem(404, 404, "Static Response Filter Not Found", detail)
}

/// The answer to a request for a static response once its identifier was
/// looked up: the response held under the identifier, or the refusal that
/// says it is not found.
pub fn static_response_answer<B>(static_response_filter_id: &String, found: Option<B>) -> (r: Result<
    B,
    Problem,
>)
    ensures
        match found {
            Some(b) => r == Ok::<B, Problem>(b),
            None => r matches Err(p) && p@ == (ProblemView {
                status: 404,
                status_value: 404,
                title: "Static Response Filter Not Found"@,
                detail: "Static response filter "@ + static_response_filter_id@ + " not found"@,
            }),
        },
{
    match found {
        Some(b) => Ok(b),
        None => Err(static_response_not_found(static_response_filter_id)),
    }
}

/// What is read back after a configuration is held is that configuration,
/// whatever was held before.
pub proof fn law_read_after_insert(
    before: Map<ObjectRefView, Seq<char>>,
    gateway: ObjectRefView,
    yaml: Seq<char>,
    namespace: Seq<char>,
    name: Seq<char>,
)
    requires
        gateway == gateway_ref_of(namespace, name),
        namespace.len() > 0,
        name.len() > 0,
    ensures
        configuration_answer(before.insert(gateway, yaml), namespace, name) == Ok::<
            Seq<char>,
            ProblemView,
        >(yaml),
{
}

/// Once a configuration is dropped, a request for it is answered not found.
pub proof fn law_not_found_after_remove(
    before: Map<ObjectRefView, Seq<char>>,
    gateway: ObjectRefView,
    namespace: Seq<char>,
    name: Seq<char>,
)
    requires
        gateway == gateway_ref_of(namespace, name),
        namespace.len() > 0,
        name.len() > 0,
    ensures
        configuration_answer(before.remove(gateway), namespace, name) matches Err(p) && p.status
            == 404,
        events_answer(before.remove(gateway), namespace, name) matches Err(p) && p.status == 404,
{
}

/// A request with an empty namespace or name is refused as a bad request
/// by every endpoint, before anything is looked up.
pub proof fn law_empty_path_refused(
    yamls: Map<ObjectRefView, Seq<char>>,
    namespace: Seq<char>,
    name: Seq<char>,
    filter_id: Seq<char>,
)
    requires
        namespace.len() == 0 || name.len() == 0,
    ensures
        configuration_answer(yamls, namespace, name) matches Err(p) && p.status == 400,
        events_answer(yamls, namespace, name) matches Err(p) && p.status == 400,
        static_response_request(yamls, namespace, name, filter_id) matches Err(p) && p.status
            == 400,
{
}

} // verus!
