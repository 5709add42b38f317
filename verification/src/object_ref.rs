//! References to Kubernetes objects: kind, version, group, namespace and name.
use crate::text::{clone_opt_string, opt_string_eq, opt_view, push_str};
use crate::api::Timestamp;
use vstd::prelude::*;
use vstd::std_specs::cmp::PartialEqSpecImpl;
use vstd::string::*;

verus! {

/// The static identity of a kind of Kubernetes resource, as the resource
/// type reports it: its kind, its version and its API group (empty for the
/// core group).
pub struct ResourceKind {
    pub kind: String,
    pub version: String,
    pub group: String,
}

/// The part of an object's metadata that identifies it.
pub struct ObjectMeta {
    pub namespace: Option<String>,
    pub name: Option<String>,
    pub uid: Option<String>,
    pub resource_version: Option<String>,
    pub generation: Option<i64>,
    pub creation_timestamp: Option<Timestamp>,
}

/// A Kubernetes object of some resource kind with its identifying metadata
/// and its payload.
pub struct KubeObject<T> {
    pub resource: ResourceKind,
    pub metadata: ObjectMeta,
    pub data: T,
}

/// The mathematical model of an [`ObjectRef`].
pub struct ObjectRefView {
    pub kind: Seq<char>,
    pub version: Seq<char>,
    pub group: Option<Seq<char>>,
    pub namespace: Option<Seq<char>>,
    pub name: Seq<char>,
}

/// A reference to a Kubernetes object.
#[derive(Debug, Eq, Hash, PartialOrd, Ord)]
pub struct ObjectRef {
    kind: String,
    version: String,
    group: Option<String>,
    namespace: Option<String>,
    name: String,
}

impl View for ObjectRef {
    type V = ObjectRefView;

    closed spec fn view(&self) -> ObjectRefView {
        ObjectRefView {
            kind: self.kind@,
            version: self.version@,
            group: opt_view(self.group),
            namespace: opt_view(self.namespace),
            name: self.name@,
        }
    }
}

impl Clone for ObjectRef {
    fn clone(&self) -> (r: Self)
        ensures
            r@ == self@,
    {
        ObjectRef {
            kind: self.kind.clone(),
            version: self.version.clone(),
            group: clone_opt_string(&self.group),
            namespace: clone_opt_string(&self.namespace),
            name: self.name.clone(),
        }
    }
}

impl PartialEq for ObjectRef {
    fn eq(&self, other: &Self) -> (r: bool) {
        self.same_as(other)
    }
}

impl PartialEqSpecImpl for ObjectRef {
    open spec fn obeys_eq_spec() -> bool {
        true
    }

    open spec fn eq_spec(&self, other: &ObjectRef) -> bool {
        self@ == other@
    }
}

impl ObjectRef {
    /// An object reference made of the given parts.
    pub(crate) fn from_parts(
        kind: String,
        version: String,
        group: Option<String>,
        namespace: Option<String>,
        name: String,
    ) -> (r: ObjectRef)
        ensures
            r@ == (ObjectRefView {
                kind: kind@,
                version: version@,
                group: opt_view(group),
                namespace: opt_view(namespace),
                name: name@,
            }),
    {
        ObjectRef { kind, version, group, namespace, name }
    }

    /// The reference to the object of the given kind, namespace and name.
    pub fn for_kind(resource: &ResourceKind, namespace: Option<String>, name: String) -> (r: ObjectRef)
        ensures
            r@ == (ObjectRefView {
                kind: resource.kind@,
                version: resource.version@,
                group: group_of(resource.group@),
                namespace: opt_view(namespace),
                name: name@,
            }),
    {
        let group = if resource.group.as_str().unicode_len() == 0 {
            None
        } else {
            Some(resource.group.clone())
        };
        ObjectRef { kind: resource.kind.clone(), version: resource.version.clone(), group, namespace, name }
    }

    /// Whether two references name the same object of the same kind.
    pub fn same_as(&self, other: &ObjectRef) -> (r: bool)
        ensures
            r == (self@ == other@),
    {
        self.kind == other.kind && self.version == other.version && opt_string_eq(
            &self.group,
            &other.group,
        ) && opt_string_eq(&self.namespace, &other.namespace) && self.name == other.name
    }

    /// A builder with no field set.
    pub fn new_builder() -> (b: ObjectRefBuilder)
        ensures
            b@ == ObjectRefBuilderView::empty(),
    {
        ObjectRefBuilder { kind: None, version: None, group: None, namespace: None, name: None }
    }

    /// The kind of the object.
    pub fn kind(&self) -> (r: &String)
        ensures
            r@ == self@.kind,
    {
        &self.kind
    }

    /// The version of the object's API.
    pub fn version(&self) -> (r: &String)
        ensures
            r@ == self@.version,
    {
        &self.version
    }

    /// The API group of the object; none for the core group.
    pub fn group(&self) -> (r: &Option<String>)
        ensures
            opt_view(*r) == self@.group,
    {
        &self.group
    }

    /// The namespace of the object; none for a cluster-wide one.
    pub fn namespace(&self) -> (r: &Option<String>)
        ensures
            opt_view(*r) == self@.namespace,
    {
        &self.namespace
    }

    /// The name of the object.
    pub fn name(&self) -> (r: &String)
        ensures
            r@ == self@.name,
    {
        &self.name
    }

    /// The textual form of the reference: the kind, a dot, the version, the
    /// group when there is one, a slash and the name, followed by a dot and the
    /// namespace when there is one.
    pub fn display(&self) -> (s: String)
        ensures
            s@ == display_spec(self@),
    {
        let mut s = self.kind.clone();
        push_str(&mut s, ".");
        push_str(&mut s, self.version.as_str());
        if let Some(group) = &self.group {
            push_str(&mut s, group.as_str());
        }
        push_str(&mut s, "/");
        push_str(&mut s, self.name.as_str());
        if let Some(namespace) = &self.namespace {
            push_str(&mut s, ".");
            push_str(&mut s, namespace.as_str());
        }
        proof {
            reveal_strlit(".");
            reveal_strlit("/");
        }
        assert(s@ =~= display_spec(self@));
        s
    }
}

/// The textual form of an object reference.
pub open spec fn display_spec(r: ObjectRefView) -> Seq<char> {
    let group = match r.group {
        Some(g) => g,
        None => Seq::empty(),
    };
    let namespace = match r.namespace {
        Some(n) => seq!['.'] + n,
        None => Seq::empty(),
    };
    r.kind + seq!['.'] + r.version + group + seq!['/'] + r.name + namespace
}

/// A field of an [`ObjectRef`].
#[derive(Debug, Clone, Copy, PartialEq, Eq)]
pub enum ObjectRefField {
    Kind,
    Version,
    Group,
    Namespace,
    Name,
}

/// The error of building an [`ObjectRef`] from a builder where a field was
/// never set.
#[derive(Debug, Clone, Copy, PartialEq, Eq)]
pub enum ObjectRefBuilderError {
    UninitializedField(ObjectRefField),
}

/// The mathematical model of an [`ObjectRefBuilder`]: for each field, the
/// value it was set to, if it was set.
pub struct ObjectRefBuilderView {
    pub kind: Option<Seq<char>>,
    pub version: Option<Seq<char>>,
    pub group: Option<Option<Seq<char>>>,
    pub namespace: Option<Option<Seq<char>>>,
    pub name: Option<Seq<char>>,
}

impl ObjectRefBuilderView {
    /// The builder with no field set.
    pub open spec fn empty() -> ObjectRefBuilderView {
        ObjectRefBuilderView { kind: None, version: None, group: None, namespace: None, name: None }
    }

    /// What `build` gives for a builder in this state: the first field, in
    /// declaration order, that was never set, or the reference made of the
    /// fields.
    pub open spec fn build_result(self) -> Result<ObjectRefView, ObjectRefField> {
        if self.kind is None {
            Err(ObjectRefField::Kind)
        } else if self.version is None {
            Err(ObjectRefField::Version)
        } else if self.group is None {
            Err(ObjectRefField::Group)
        } else if self.namespace is None {
            Err(ObjectRefField::Namespace)
        } else if self.name is None {
            Err(ObjectRefField::Name)
        } else {
            Ok(
                ObjectRefView {
                    kind: self.kind->0,
                    version: self.version->0,
                    group: self.group->0,
                    namespace: self.namespace->0,
                    name: self.name->0,
                },
            )
        }
    }
}

/// The group of a resource kind as an object reference holds it: none for
/// the core group, whose name is empty.
pub open spec fn group_of(group: Seq<char>) -> Option<Seq<char>> {
    if group.len() == 0 {
        None
    } else {
        Some(group)
    }
}

/// A builder of [`ObjectRef`]s whose fields are set one by one.
#[derive(Debug)]
pub struct ObjectRefBuilder {
    kind: Option<String>,
    version: Option<String>,
    group: Option<Option<String>>,
    namespace: Option<Option<String>>,
    name: Option<String>,
}

/// The character view of an optional optional string.
pub open spec fn opt_opt_view(o: Option<Option<String>>) -> Option<Option<Seq<char>>> {
    match o {
        Some(x) => Some(opt_view(x)),
        None => None,
    }
}

impl View for ObjectRefBuilder {
    type V = ObjectRefBuilderView;

    closed spec fn view(&self) -> ObjectRefBuilderView {
        ObjectRefBuilderView {
            kind: opt_view(self.kind),
            version: opt_view(self.version),
            group: opt_opt_view(self.group),
            namespace: opt_opt_view(self.namespace),
            name: opt_view(self.name),
        }
    }
}

impl ObjectRefBuilder {
    /// Sets the kind.
    pub fn kind(&mut self, kind: String) -> (r: &mut Self)
        ensures
            r@ == (ObjectRefBuilderView { kind: Some(kind@), ..old(self)@ }),
            final(self)@ == final(r)@,
    {
        self.kind = Some(kind);
        self
    }

    /// Sets the version.
    pub fn version(&mut self, version: String) -> (r: &mut Self)
        ensures
            r@ == (ObjectRefBuilderView { version: Some(version@), ..old(self)@ }),
            final(self)@ == final(r)@,
    {
        self.version = Some(version);
        self
    }

    /// Sets the group.
    pub fn group(&mut self, group: Option<String>) -> (r: &mut Self)
        ensures
            r@ == (ObjectRefBuilderView { group: Some(opt_view(group)), ..old(self)@ }),
            final(self)@ == final(r)@,
    {
        self.group = Some(group);
        self
    }

    /// Sets the namespace.
    pub fn namespace(&mut self, namespace: Option<String>) -> (r: &mut Self)
        ensures
            r@ == (ObjectRefBuilderView { namespace: Some(opt_view(namespace)), ..old(self)@ }),
            final(self)@ == final(r)@,
    {
        self.namespace = Some(namespace);
        self
    }

    /// Sets the name.
    pub fn name(&mut self, name: String) -> (r: &mut Self)
        ensures
            r@ == (ObjectRefBuilderView { name: Some(name@), ..old(self)@ }),
            final(self)@ == final(r)@,
    {
        self.name = Some(name);
        self
    }

    /// Sets the kind, the version and the group of the given resource kind;
    /// an empty group is recorded as none.
    pub fn of_kind(&mut self, resource: &ResourceKind) -> (r: &mut Self)
        ensures
            r@ == (ObjectRefBuilderView {
                kind: Some(resource.kind@),
                version: Some(resource.version@),
                group: Some(group_of(resource.group@)),
                ..old(self)@
            }),
            final(self)@ == final(r)@,
    {
        self.kind = Some(resource.kind.clone());
        self.version = Some(resource.version.clone());
        if resource.group.as_str().unicode_len() == 0 {
            self.group = Some(None);
        } else {
            self.group = Some(Some(resource.group.clone()));
        }
        self
    }

    /// Sets the kind, the version and the group of the object's resource kind,
    /// and its namespace and name as its metadata holds them; a missing name
    /// leaves the name unset.
    pub fn for_object<T>(&mut self, object: &KubeObject<T>) -> (r: &mut Self)
        ensures
            r@ == (ObjectRefBuilderView {
                kind: Some(object.resource.kind@),
                version: Some(object.resource.version@),
                group: Some(group_of(object.resource.group@)),
                namespace: Some(opt_view(object.metadata.namespace)),
                name: opt_view(object.metadata.name),
            }),
            final(self)@ == final(r)@,
    {
        self.of_kind(&object.resource);
        self.namespace = Some(clone_opt_string(&object.metadata.namespace));
        self.name = clone_opt_string(&object.metadata.name);
        self
    }

    /// The reference made of the fields, or the first field that was never
    /// set.
    pub fn build(&self) -> (r: Result<ObjectRef, ObjectRefBuilderError>)
        ensures
            match (r, self@.build_result()) {
                (Ok(o), Ok(v)) => o@ == v,
                (Err(ObjectRefBuilderError::UninitializedField(f)), Err(g)) => f == g,
                _ => false,
            },
    {
        let kind = match &self.kind {
            Some(k) => k.clone(),
            None => return Err(ObjectRefBuilderError::UninitializedField(ObjectRefField::Kind)),
        };
        let version = match &self.version {
            Some(v) => v.clone(),
            None => return Err(ObjectRefBuilderError::UninitializedField(ObjectRefField::Version)),
        };
        let group = match &self.group {
            Some(g) => clone_opt_string(g),
            None => return Err(ObjectRefBuilderError::UninitializedField(ObjectRefField::Group)),
        };
        let namespace = match &self.namespace {
            Some(n) => clone_opt_string(n),
            None => return Err(
                ObjectRefBuilderError::UninitializedField(ObjectRefField::Namespace),
            ),
        };
        let name = match &self.name {
            Some(n) => n.clone(),
            None => return Err(ObjectRefBuilderError::UninitializedField(ObjectRefField::Name)),
        };
        Ok(ObjectRef { kind, version, group, namespace, name })
    }
}

/// The view of an object's unique identifier.
pub struct ObjectUniqueIdView {
    pub id: Seq<char>,
}

/// The unique identifier (UID) of a Kubernetes object.
#[derive(Debug, Eq, Hash)]
pub struct ObjectUniqueId(String);

impl View for ObjectUniqueId {
    type V = Seq<char>;

    closed spec fn view(&self) -> Seq<char> {
        self.0@
    }
}

impl Clone for ObjectUniqueId {
    fn clone(&self) -> (r: Self)
        ensures
            r@ == self@,
    {
        ObjectUniqueId(self.0.clone())
    }
}

impl PartialEq for ObjectUniqueId {
    fn eq(&self, other: &Self) -> (r: bool) {
        self.0 == other.0
    }
}

impl PartialEqSpecImpl for ObjectUniqueId {
    open spec fn obeys_eq_spec() -> bool {
        true
    }

    open spec fn eq_spec(&self, other: &ObjectUniqueId) -> bool {
        self@ == other@
    }
}

impl ObjectUniqueId {
    /// The identifier with the given text.
    pub fn new(id: String) -> (r: ObjectUniqueId)
        ensures
            r@ == id@,
    {
        ObjectUniqueId(id)
    }

    /// The identifier's text.
    pub fn id(&self) -> (r: &String)
        ensures
            r@ == self@,
    {
        &self.0
    }

    /// The identifier's text, as it is displayed.
    pub fn display(&self) -> (s: String)
        ensures
            s@ == self@,
    {
        self.0.clone()
    }
}

} // verus!
