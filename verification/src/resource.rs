//! What every kind of object has: a group, a version, a kind and metadata.

use vstd::prelude::*;

use crate::k8s::meta::{ObjectMeta, ObjectMetaView, OwnerReference, OwnerReferenceView};
use crate::k8s::pod::{ObjectReference, ObjectReferenceView};
use crate::model::Model;
use crate::text;

verus! {

/// A kind of object that the API server knows.
pub trait Resource: DeepView + Sized {
    /// The group of the kind, empty for the core group.
    spec fn group_name() -> Seq<char>;

    /// The version of the group.
    spec fn version_name() -> Seq<char>;

    /// The name of the kind.
    spec fn kind_name() -> Seq<char>;

    /// The name of the kind in paths.
    spec fn plural_name() -> Seq<char>;

    /// The metadata of an object.
    spec fn metadata(v: Self::V) -> ObjectMetaView;

    /// The group of the kind, empty for the core group.
    fn group() -> (r: &'static str)
        ensures
            r@ == Self::group_name(),
    ;

    /// The version of the group.
    fn version() -> (r: &'static str)
        ensures
            r@ == Self::version_name(),
    ;

    /// The name of the kind.
    fn kind() -> (r: &'static str)
        ensures
            r@ == Self::kind_name(),
    ;

    /// The name of the kind in paths.
    fn plural() -> (r: &'static str)
        ensures
            r@ == Self::plural_name(),
    ;

    /// The metadata of the object.
    fn meta(&self) -> (r: &ObjectMeta)
        ensures
            r@ == Self::metadata(self.deep_view()),
    ;

    /// The group and the version, or the version alone for the core group.
    fn api_version() -> (r: String)
        ensures
            r@ == group_version(Self::group_name(), Self::version_name()),
    {
        if Self::group().is_empty() {
            Self::version().to_owned()
        } else {
            text::cat3(Self::group(), "/", Self::version())
        }
    }

    /// The name of the definition of the kind.
    fn crd_name() -> (r: String)
        ensures
            r@ == Self::plural_name() + "."@ + Self::group_name(),
    {
        text::cat3(Self::plural(), ".", Self::group())
    }

    /// The name of the object, or else the prefix it was to be named by, or else nothing.
    fn name_any(&self) -> (r: String)
        ensures
            r@ == any_name(Self::metadata(self.deep_view())),
    {
        let meta = self.meta();
        match &meta.name {
            Some(name) => name.dup(),
            None => match &meta.generate_name {
                Some(prefix) => prefix.dup(),
                None => String::new(),
            },
        }
    }

    /// A reference by which another object can name this one as its owner.
    fn owner_ref(&self) -> (r: Option<OwnerReference>)
        ensures
            r.deep_view() == owner_ref_of(
                group_version(Self::group_name(), Self::version_name()),
                Self::kind_name(),
                Self::metadata(self.deep_view()),
            ),
    {
        let meta = self.meta();
        match (&meta.name, &meta.uid) {
            (Some(name), Some(uid)) => Some(
                OwnerReference {
                    api_version: Self::api_version(),
                    kind: Self::kind().to_owned(),
                    name: name.dup(),
                    uid: uid.dup(),
                    ..Default::default()
                },
            ),
            _ => None,
        }
    }

    /// A reference by which another object can name this one as the owner that manages it.
    fn controller_owner_ref(&self) -> (r: Option<OwnerReference>)
        ensures
            r.deep_view() == controller_ref_of(
                group_version(Self::group_name(), Self::version_name()),
                Self::kind_name(),
                Self::metadata(self.deep_view()),
            ),
    {
        match self.owner_ref() {
            Some(owner) => Some(OwnerReference { controller: Some(true), ..owner }),
            None => None,
        }
    }

    /// A reference to the object.
    fn object_ref(&self) -> (r: ObjectReference)
        ensures
            r@ == object_ref_of(
                group_version(Self::group_name(), Self::version_name()),
                Self::kind_name(),
                Self::metadata(self.deep_view()),
            ),
    {
        let meta = self.meta();
        ObjectReference {
            name: meta.name.dup(),
            namespace: meta.namespace.dup(),
            uid: meta.uid.dup(),
            api_version: Some(Self::api_version()),
            kind: Some(Self::kind().to_owned()),
            ..Default::default()
        }
    }
}

/// The group and the version, or the version alone for the core group.
pub open spec fn group_version(group: Seq<char>, version: Seq<char>) -> Seq<char> {
    if group.len() == 0 {
        version
    } else {
        group + "/"@ + version
    }
}

/// The name of an object, or else the prefix it was to be named by, or else nothing.
pub open spec fn any_name(meta: ObjectMetaView) -> Seq<char> {
    match meta.name {
        Some(name) => name,
        None => match meta.generate_name {
            Some(prefix) => prefix,
            None => Seq::empty(),
        },
    }
}

/// The owner reference to an object: there is one as soon as it has a name and a unique ID.
pub open spec fn owner_ref_of(
    api_version: Seq<char>,
    kind: Seq<char>,
    meta: ObjectMetaView,
) -> Option<OwnerReferenceView> {
    match (meta.name, meta.uid) {
        (Some(name), Some(uid)) => Some(
            OwnerReferenceView {
                api_version,
                kind,
                name,
                uid,
                controller: None,
                block_owner_deletion: None,
            },
        ),
        _ => None,
    }
}

/// The owner reference to an object that manages what it owns.
pub open spec fn controller_ref_of(
    api_version: Seq<char>,
    kind: Seq<char>,
    meta: ObjectMetaView,
) -> Option<OwnerReferenceView> {
    match owner_ref_of(api_version, kind, meta) {
        Some(owner) => Some(OwnerReferenceView { controller: Some(true), ..owner }),
        None => None,
    }
}

/// The reference to an object.
pub open spec fn object_ref_of(
    api_version: Seq<char>,
    kind: Seq<char>,
    meta: ObjectMetaView,
) -> ObjectReferenceView {
    ObjectReferenceView {
        api_version: Some(api_version),
        field_path: None,
        kind: Some(kind),
        name: meta.name,
        namespace: meta.namespace,
        resource_version: None,
        uid: meta.uid,
    }
}

} // verus!
