//! The metadata of a resource, and references from one resource to another.

use crate::string_map::{opt_map, StringMap};
use crate::text::{clone_opt_text, opt_text};
use vstd::prelude::*;

verus! {

/// What the conversion reads and writes of a resource's metadata.
#[derive(Clone, Debug, PartialEq)]
pub struct ObjectMeta {
    pub name: Option<String>,
    pub namespace: Option<String>,
    pub labels: Option<StringMap>,
    pub annotations: Option<StringMap>,
}

/// The contents of an `ObjectMeta`.
pub struct ObjectMetaView {
    pub name: Option<Seq<char>>,
    pub namespace: Option<Seq<char>>,
    pub labels: Option<Map<Seq<char>, Seq<char>>>,
    pub annotations: Option<Map<Seq<char>, Seq<char>>>,
}

impl View for ObjectMeta {
    type V = ObjectMetaView;

    open spec fn view(&self) -> ObjectMetaView {
        ObjectMetaView {
            name: opt_text(self.name),
            namespace: opt_text(self.namespace),
            labels: opt_map(self.labels),
            annotations: opt_map(self.annotations),
        }
    }
}

/// The metadata held by an optional `ObjectMeta`.
pub open spec fn opt_meta(o: Option<ObjectMeta>) -> Option<ObjectMetaView> {
    match o {
        Some(m) => Some(m@),
        None => None,
    }
}

/// A reference to another resource, field by field as Kubernetes defines it.
#[derive(Debug, PartialEq)]
pub struct ObjectReference {
    pub api_version: Option<String>,
    pub field_path: Option<String>,
    pub kind: Option<String>,
    pub name: Option<String>,
    pub namespace: Option<String>,
    pub resource_version: Option<String>,
    pub uid: Option<String>,
}

/// The contents of an `ObjectReference`.
pub struct ObjectReferenceView {
    pub api_version: Option<Seq<char>>,
    pub field_path: Option<Seq<char>>,
    pub kind: Option<Seq<char>>,
    pub name: Option<Seq<char>>,
    pub namespace: Option<Seq<char>>,
    pub resource_version: Option<Seq<char>>,
    pub uid: Option<Seq<char>>,
}

impl View for ObjectReference {
    type V = ObjectReferenceView;

    open spec fn view(&self) -> ObjectReferenceView {
        ObjectReferenceView {
            api_version: opt_text(self.api_version),
            field_path: opt_text(self.field_path),
            kind: opt_text(self.kind),
            name: opt_text(self.name),
            namespace: opt_text(self.namespace),
            resource_version: opt_text(self.resource_version),
            uid: opt_text(self.uid),
        }
    }
}

impl Default for ObjectReference {
    /// The reference with no field set.
    fn default() -> (r: Self)
        ensures
            r@ == (ObjectReferenceView {
                api_version: None,
                field_path: None,
                kind: None,
                name: None,
                namespace: None,
                resource_version: None,
                uid: None,
            }),
    {
        ObjectReference {
            api_version: None,
            field_path: None,
            kind: None,
            name: None,
            namespace: None,
            resource_version: None,
            uid: None,
        }
    }
}

impl Default for ObjectMeta {
    /// The metadata with no field set.
    fn default() -> (m: Self)
        ensures
            m@ == (ObjectMetaView { name: None, namespace: None, labels: None, annotations: None }),
    {
        ObjectMeta { name: None, namespace: None, labels: None, annotations: None }
    }
}

impl Clone for ObjectReference {
    fn clone(&self) -> (copy: Self)
        ensures
            copy@ == self@,
    {
        ObjectReference {
            api_version: clone_opt_text(&self.api_version),
            field_path: clone_opt_text(&self.field_path),
            kind: clone_opt_text(&self.kind),
            name: clone_opt_text(&self.name),
            namespace: clone_opt_text(&self.namespace),
            resource_version: clone_opt_text(&self.resource_version),
            uid: clone_opt_text(&self.uid),
        }
    }
}

} // verus!
