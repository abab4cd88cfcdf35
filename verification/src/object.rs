//! Names and references of Kubernetes objects.

use vstd::prelude::*;

verus! {

/// The part of an object's metadata that the controller reads.
#[derive(Debug, PartialEq, Eq)]
pub struct ObjectMeta {
    pub name: Option<String>,
    pub namespace: Option<String>,
    pub uid: Option<String>,
    pub resource_version: Option<String>,
}

/// The model of an [`ObjectMeta`].
pub struct ObjectMetaView {
    pub name: Option<Seq<char>>,
    pub namespace: Option<Seq<char>>,
    pub uid: Option<Seq<char>>,
    pub resource_version: Option<Seq<char>>,
}

impl View for ObjectMeta {
    type V = ObjectMetaView;

    open spec fn view(&self) -> ObjectMetaView {
        ObjectMetaView {
            name: self.name.deep_view(),
            namespace: self.namespace.deep_view(),
            uid: self.uid.deep_view(),
            resource_version: self.resource_version.deep_view(),
        }
    }
}

impl Clone for ObjectMeta {
    fn clone(&self) -> (res: Self)
        ensures
            res == *self,
    {
        ObjectMeta {
            name: self.name.clone(),
            namespace: self.namespace.clone(),
            uid: self.uid.clone(),
            resource_version: self.resource_version.clone(),
        }
    }
}

/// The kinds of objects that the controller refers to.
#[derive(Clone, Copy, Debug, PartialEq, Eq, Hash, Structural)]
pub enum ObjectKind {
    ConfigMap,
    Job,
    TrinoConnection,
}

impl ObjectKind {
    /// The name of the kind.
    pub open spec fn spec_kind(self) -> Seq<char> {
        match self {
            ObjectKind::ConfigMap => "ConfigMap"@,
            ObjectKind::Job => "Job"@,
            ObjectKind::TrinoConnection => "TrinoConnection"@,
        }
    }

    /// The API group, which is empty for the core group.
    pub open spec fn spec_group(self) -> Seq<char> {
        match self {
            ObjectKind::ConfigMap => ""@,
            ObjectKind::Job => "batch"@,
            ObjectKind::TrinoConnection => "superset.stackable.tech"@,
        }
    }

    /// The version within the API group.
    pub open spec fn spec_version(self) -> Seq<char> {
        match self {
            ObjectKind::ConfigMap => "v1"@,
            ObjectKind::Job => "v1"@,
            ObjectKind::TrinoConnection => "v1alpha1"@,
        }
    }

    /// The `apiVersion` of an object: the version, after the group and a slash where there is a
    /// group.
    pub open spec fn spec_api_version(self) -> Seq<char> {
        if self.spec_group().len() == 0 {
            self.spec_version()
        } else {
            self.spec_group() + "/"@ + self.spec_version()
        }
    }

    /// The name of the kind.
    pub fn kind(self) -> (res: &'static str)
        ensures
            res@ == self.spec_kind(),
    {
        match self {
            ObjectKind::ConfigMap => "ConfigMap",
            ObjectKind::Job => "Job",
            ObjectKind::TrinoConnection => "TrinoConnection",
        }
    }

    /// The API group, which is empty for the core group.
    pub fn group(self) -> (res: &'static str)
        ensures
            res@ == self.spec_group(),
    {
        match self {
            ObjectKind::ConfigMap => "",
            ObjectKind::Job => "batch",
            ObjectKind::TrinoConnection => "superset.stackable.tech",
        }
    }

    /// The version within the API group.
    pub fn version(self) -> (res: &'static str)
        ensures
            res@ == self.spec_version(),
    {
        match self {
            ObjectKind::ConfigMap => "v1",
            ObjectKind::Job => "v1",
            ObjectKind::TrinoConnection => "v1alpha1",
        }
    }

    /// The `apiVersion` of an object of this kind.
    pub fn api_version(self) -> (res: String)
        ensures
            res@ == self.spec_api_version(),
    {
        let group = self.group();
        if group.is_empty() {
            self.version().to_owned()
        } else {
            group.to_owned().concat("/").concat(self.version())
        }
    }
}

/// A reference to an object in the cluster.
#[derive(Debug)]
pub struct ObjectRef {
    pub kind: ObjectKind,
    pub name: String,
    pub namespace: Option<String>,
    /// The version of the object when it was referred to, where it is known.
    pub resource_version: Option<String>,
    /// The unique id of the object, where it is known.
    pub uid: Option<String>,
}

/// The model of an [`ObjectRef`].
pub struct ObjectRefView {
    pub kind: ObjectKind,
    pub name: Seq<char>,
    pub namespace: Option<Seq<char>>,
    pub resource_version: Option<Seq<char>>,
    pub uid: Option<Seq<char>>,
}

impl View for ObjectRef {
    type V = ObjectRefView;

    open spec fn view(&self) -> ObjectRefView {
        ObjectRefView {
            kind: self.kind,
            name: self.name@,
            namespace: self.namespace.deep_view(),
            resource_version: self.resource_version.deep_view(),
            uid: self.uid.deep_view(),
        }
    }
}

impl ObjectRefView {
    /// The reference to the object of a kind that has this name, in no namespace.
    pub open spec fn named(kind: ObjectKind, name: Seq<char>) -> ObjectRefView {
        ObjectRefView { kind, name, namespace: None, resource_version: None, uid: None }
    }

    /// The same reference, in a namespace.
    pub open spec fn within(self, namespace: Seq<char>) -> ObjectRefView {
        ObjectRefView { namespace: Some(namespace), ..self }
    }

    /// The reference to the object that has this metadata.
    pub open spec fn from_obj(kind: ObjectKind, metadata: ObjectMetaView) -> ObjectRefView {
        ObjectRefView {
            kind,
            name: metadata.name->0,
            namespace: metadata.namespace,
            resource_version: metadata.resource_version,
            uid: metadata.uid,
        }
    }

    /// The text of a reference: `kind.version.group/name`, then `.namespace` where there is one.
    pub open spec fn text(self) -> Seq<char> {
        let object = self.kind.spec_kind() + "."@ + self.kind.spec_version() + "."@
            + self.kind.spec_group() + "/"@ + self.name;
        match self.namespace {
            Some(namespace) => object + "."@ + namespace,
            None => object,
        }
    }
}

impl Clone for ObjectRef {
    fn clone(&self) -> (res: Self)
        ensures
            res == *self,
    {
        ObjectRef {
            kind: self.kind,
            name: self.name.clone(),
            namespace: self.namespace.clone(),
            resource_version: self.resource_version.clone(),
            uid: self.uid.clone(),
        }
    }
}

impl ObjectRef {
    /// Refers to the object of a kind that has this name, in no namespace.
    pub fn new(kind: ObjectKind, name: &str) -> (res: Self)
        ensures
            res@ == ObjectRefView::named(kind, name@),
    {
        ObjectRef { kind, name: name.to_owned(), namespace: None, resource_version: None, uid: None }
    }

    /// Places the reference in a namespace.
    pub fn within(self, namespace: &str) -> (res: Self)
        ensures
            res@ == self@.within(namespace@),
    {
        ObjectRef { namespace: Some(namespace.to_owned()), ..self }
    }

    /// Refers to the object that has this metadata.
    pub fn from_obj(kind: ObjectKind, metadata: &ObjectMeta) -> (res: Self)
        requires
            metadata.name is Some,
        ensures
            res@ == ObjectRefView::from_obj(kind, metadata@),
    {
        let metadata = metadata.clone();
        ObjectRef {
            kind,
            name: metadata.name.unwrap(),
            namespace: metadata.namespace,
            resource_version: metadata.resource_version,
            uid: metadata.uid,
        }
    }

    /// The text of the reference, as error messages show it.
    pub fn text(&self) -> (res: String)
        ensures
            res@ == self@.text(),
    {
        let object = self.kind.kind().to_owned().concat(".").concat(self.kind.version()).concat(
            ".",
        ).concat(self.kind.group()).concat("/").concat(self.name.as_str());
        match &self.namespace {
            Some(namespace) => object.concat(".").concat(namespace.as_str()),
            None => object,
        }
    }
}

/// The reference by which an object names the object that owns it.
#[derive(Debug, PartialEq, Eq)]
pub struct OwnerReference {
    pub api_version: String,
    pub kind: String,
    pub name: String,
    pub uid: String,
    pub controller: Option<bool>,
    pub block_owner_deletion: Option<bool>,
}

/// The model of an [`OwnerReference`].
pub struct OwnerReferenceView {
    pub api_version: Seq<char>,
    pub kind: Seq<char>,
    pub name: Seq<char>,
    pub uid: Seq<char>,
    pub controller: Option<bool>,
    pub block_owner_deletion: Option<bool>,
}

impl View for OwnerReference {
    type V = OwnerReferenceView;

    open spec fn view(&self) -> OwnerReferenceView {
        OwnerReferenceView {
            api_version: self.api_version@,
            kind: self.kind@,
            name: self.name@,
            uid: self.uid@,
            controller: self.controller,
            block_owner_deletion: self.block_owner_deletion,
        }
    }
}

/// A piece of metadata that an object lacks.
#[derive(Debug, PartialEq, Eq)]
pub struct MissingObjectKey {
    /// The key under which the metadata holds the piece.
    pub key: String,
}

impl OwnerReferenceView {
    /// The reference that names the object with this metadata as the controlling owner.
    pub open spec fn controlled_by(
        kind: ObjectKind,
        metadata: ObjectMetaView,
    ) -> OwnerReferenceView {
        OwnerReferenceView {
            api_version: kind.spec_api_version(),
            kind: kind.spec_kind(),
            name: metadata.name->0,
            uid: metadata.uid->0,
            controller: Some(true),
            block_owner_deletion: None,
        }
    }
}

impl OwnerReference {
    /// Names the object with this metadata as the controlling owner. An object that the API server
    /// has not given a uid yet cannot own another.
    pub fn controlled_by(kind: ObjectKind, metadata: &ObjectMeta) -> (res: Result<
        Self,
        MissingObjectKey,
    >)
        requires
            metadata.name is Some,
        ensures
            match res {
                Ok(owner) => metadata@.uid is Some && owner@ == OwnerReferenceView::controlled_by(
                    kind,
                    metadata@,
                ),
                Err(missing) => metadata@.uid is None && missing.key@ == "uid"@,
            },
    {
        let metadata = metadata.clone();
        match metadata.uid {
            Some(uid) => Ok(
                OwnerReference {
                    api_version: kind.api_version(),
                    kind: kind.kind().to_owned(),
                    name: metadata.name.unwrap(),
                    uid,
                    controller: Some(true),
                    block_owner_deletion: None,
                },
            ),
            None => Err(MissingObjectKey { key: "uid".to_owned() }),
        }
    }
}

} // verus!
