//! The state that the gateway class controller keeps: the class it watches
//! and the parameters it names, and what each state asks to be watched.
use crate::api::Ref;
use crate::gateway_classes::ParametersReference;
use crate::text::{push_str, str_equals};
use vstd::prelude::*;
use vstd::string::*;

verus! {

/// The gateways that a deployment or service resource applies to: several
/// by name, or one.
#[derive(Debug, PartialEq)]
pub struct GatewayRefs {
    pub refs: Option<Vec<String>>,
    pub ref_: Option<String>,
}

/// The gateway class being watched and the parameters object it names.
#[derive(Debug, PartialEq)]
pub struct GatewayClassState {
    name: String,
    parameter_ref: Option<Ref>,
}

/// The state of the gateway class parameters: that they were found.
#[derive(Debug, Clone, Copy, PartialEq, Eq)]
pub struct GatewayClassParametersState;

impl GatewayClassState {
    /// The name of the class.
    pub fn name(&self) -> (r: &String)
        ensures
            r@ == self.name_view(),
    {
        &self.name
    }

    /// The parameters object the class names.
    pub fn parameter_ref(&self) -> (r: &Option<Ref>)
        ensures
            *r == self.parameter_ref_view(),
    {
        &self.parameter_ref
    }

    /// The spec name of the class.
    pub closed spec fn name_view(&self) -> Seq<char> {
        self.name@
    }

    /// The parameters object that the class names.
    pub closed spec fn parameter_ref_view(&self) -> Option<Ref> {
        self.parameter_ref
    }

    /// The spec name of the parameters object, if the class names one.
    pub open spec fn parameters_name(&self) -> Option<Seq<char>> {
        match self.parameter_ref_view() {
            Some(r) => Some(r.name@),
            None => None,
        }
    }
}

/// Whether a class's parameters reference names a gateway class
/// parameters object of the controller's group.
pub open spec fn names_class_parameters(p: ParametersReference) -> bool {
    p.kind@ == "GatewayClassParameters"@ && p.group@ == "kubera.whitefamily.in"@
}

/// The state of a gateway class of the given name: the parameters object
/// it names, without a namespace, when the reference is to gateway class
/// parameters of the controller's group.
pub fn gateway_class_state(name: &String, parameters_ref: &Option<ParametersReference>) -> (r:
    GatewayClassState)
    ensures
        r.name_view() == name@,
        r.parameters_name() == match parameters_ref {
            Some(p) => if names_class_parameters(*p) {
                Some(p.name@)
            } else {
                None
            },
            None => None,
        },
        r.parameter_ref_view() matches Some(p) ==> p.namespace is None,
{
    let parameter_ref = match parameters_ref {
        Some(p) => if str_equals(&p.kind, "GatewayClassParameters") && str_equals(
            &p.group,
            "kubera.whitefamily.in",
        ) {
            Some(Ref { name: p.name.clone(), namespace: None })
        } else {
            None
        },
        None => None,
    };
    GatewayClassState { name: name.clone(), parameter_ref }
}

/// What the parameters controller watches in a state: nothing without a
/// class or without parameters, else the parameters object by name.
#[derive(Debug, PartialEq, Eq)]
pub enum ParametersWatch {
    Idle,
    Watch(String),
}

/// The watch that a gateway class state asks of the parameters controller;
/// a watch goes by the field selector of the parameters object's name.
pub fn parameters_watch(state: &Option<GatewayClassState>) -> (r: ParametersWatch)
    ensures
        match r {
            ParametersWatch::Idle => state matches Some(s) ==> s.parameters_name() is None,
            ParametersWatch::Watch(selector) => state matches Some(s) && s.parameters_name()
                matches Some(n) && selector@ == "metadata.name="@ + n,
        },
{
    match state {
        Some(s) => match &s.parameter_ref {
            Some(p) => {
                let mut selector = String::from_str("metadata.name=");
                push_str(&mut selector, p.name.as_str());
                ParametersWatch::Watch(selector)
            },
            None => ParametersWatch::Idle,
        },
        None => ParametersWatch::Idle,
    }
}

/// The field selector of the gateways of the watched class, when a class
/// is watched.
pub fn gateways_watch(state: &Option<GatewayClassState>) -> (r: Option<String>)
    ensures
        match r {
            Some(selector) => state matches Some(s) && selector@ == "spec.gatewayClassName="@
                + s.name_view(),
            None => state is None,
        },
{
    match state {
        Some(s) => {
            let mut selector = String::from_str("spec.gatewayClassName=");
            push_str(&mut selector, s.name.as_str());
            Some(selector)
        },
        None => None,
    }
}

} // verus!
