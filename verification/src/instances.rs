//! Which instance of the control plane is the primary one: the holder of a
//! lease, decided on each attempt to take or renew it.
use crate::kinds::pod_kind;
use crate::object_ref::{ObjectRef, ObjectRefView};
use crate::text::push_str;
use vstd::prelude::*;
use vstd::string::*;

verus! {

/// The role of this instance, with the reference to the primary's pod.
#[derive(Debug)]
pub enum InstanceRole {
    Primary(ObjectRef),
    Redundant(ObjectRef),
}

/// The model of an [`InstanceRole`]: whether this instance is the primary
/// one, and the primary's pod.
pub struct InstanceRoleView {
    pub primary: bool,
    pub pod: ObjectRefView,
}

impl View for InstanceRole {
    type V = InstanceRoleView;

    open spec fn view(&self) -> InstanceRoleView {
        match self {
            InstanceRole::Primary(p) => InstanceRoleView { primary: true, pod: p@ },
            InstanceRole::Redundant(p) => InstanceRoleView { primary: false, pod: p@ },
        }
    }
}

impl InstanceRole {
    /// The reference to the primary instance's pod, whichever role this
    /// instance has.
    pub fn primary_pod_ref(&self) -> (r: ObjectRef)
        ensures
            r@ == self@.pod,
    {
        match self {
            InstanceRole::Primary(pod_ref) | InstanceRole::Redundant(pod_ref) => pod_ref.clone(),
        }
    }

    /// Whether this instance is the primary one.
    pub fn is_primary(&self) -> (b: bool)
        ensures
            b == self@.primary,
    {
        match self {
            InstanceRole::Primary(_) => true,
            InstanceRole::Redundant(_) => false,
        }
    }
}

/// The part of a lease's specification that names its holder.
pub struct LeaseSpec {
    pub holder_identity: Option<String>,
}

/// A lease as the election reads it.
pub struct Lease {
    pub spec: Option<LeaseSpec>,
}

/// The outcome of an attempt to take or renew the lease.
pub enum LeaseLockResult {
    Acquired(Lease),
    NotAcquired(Lease),
}

/// Whether a lease names its holder.
pub open spec fn has_holder(lease: Lease) -> bool {
    lease.spec matches Some(s) && s.holder_identity is Some
}

/// The holder a lease names.
pub open spec fn holder_of(lease: Lease) -> Seq<char>
    recommends
        has_holder(lease),
{
    lease.spec->0.holder_identity->0@
}

/// Tests whether a lease names its holder, so that a caller can check the
/// precondition of [`next_instance_role`].
pub fn names_holder(lease: &Lease) -> (b: bool)
    ensures
        b == has_holder(*lease),
{
    match &lease.spec {
        Some(spec) => spec.holder_identity.is_some(),
        None => false,
    }
}

/// The reference to a pod of the given namespace and name.
pub open spec fn pod_ref_of(namespace: Seq<char>, name: Seq<char>) -> ObjectRefView {
    ObjectRefView {
        kind: "Pod"@,
        version: "v1"@,
        group: None,
        namespace: Some(namespace),
        name: name,
    }
}

/// The reference to the pod that holds the lease, in the given namespace.
pub fn get_pod_ref(namespace: &str, lease: &Lease) -> (r: ObjectRef)
    requires
        has_holder(*lease),
    ensures
        r@ == pod_ref_of(namespace@, holder_of(*lease)),
{
    let holder = match &lease.spec {
        Some(spec) => match &spec.holder_identity {
            Some(h) => h.clone(),
            None => String::new(),
        },
        None => String::new(),
    };
    let r = ObjectRef::for_kind(&pod_kind(), Some(String::from_str(namespace)), holder);
    proof {
        reveal_strlit("");
    }
    r
}

/// Whether the lease in an outcome names its holder.
pub open spec fn result_has_holder(result: LeaseLockResult) -> bool {
    match result {
        LeaseLockResult::Acquired(l) => has_holder(l),
        LeaseLockResult::NotAcquired(l) => has_holder(l),
    }
}

/// The role that an outcome of the election gives this instance: primary
/// when it took or kept the lease, redundant otherwise, and either way the
/// lease's holder as the primary's pod.
pub open spec fn role_of(namespace: Seq<char>, result: LeaseLockResult) -> InstanceRoleView {
    match result {
        LeaseLockResult::Acquired(l) => InstanceRoleView {
            primary: true,
            pod: pod_ref_of(namespace, holder_of(l)),
        },
        LeaseLockResult::NotAcquired(l) => InstanceRoleView {
            primary: false,
            pod: pod_ref_of(namespace, holder_of(l)),
        },
    }
}

/// The role of this instance after an attempt to take or renew the lease;
/// none when the attempt failed, in which case the role stays as it was.
pub fn next_instance_role<E>(namespace: &str, result: &Result<LeaseLockResult, E>) -> (r: Option<
    InstanceRole,
>)
    requires
        result matches Ok(o) ==> result_has_holder(*o),
    ensures
        match result {
            Ok(o) => r matches Some(role) && role@ == role_of(namespace@, *o),
            Err(_) => r is None,
        },
{
    match result {
        Ok(LeaseLockResult::Acquired(lease)) => Some(InstanceRole::Primary(get_pod_ref(namespace, lease))),
        Ok(LeaseLockResult::NotAcquired(lease)) => Some(
            InstanceRole::Redundant(get_pod_ref(namespace, lease)),
        ),
        Err(_) => None,
    }
}

/// The name of the lease that the instances of a deployment compete for:
/// the instance name followed by `-primary`.
pub fn lease_name(instance_name: &str) -> (r: String)
    ensures
        r@ == instance_name@ + "-primary"@,
{
    let mut r = String::from_str(instance_name);
    push_str(&mut r, "-primary");
    r
}

/// The field selector that watches only the primary's pod.
pub fn primary_pod_field_selector(primary_pod_ref: &ObjectRef) -> (r: String)
    ensures
        r@ == "metadata.name="@ + primary_pod_ref@.name,
{
    let mut r = String::from_str("metadata.name=");
    push_str(&mut r, primary_pod_ref.name().as_str());
    r
}

} // verus!
