//! The pod template of a workload, and the rule that gives every container
//! an image.

use crate::object_meta::{opt_meta, ObjectMeta, ObjectMetaView};
use crate::text::opt_text;
use vstd::prelude::*;

verus! {

/// The image given to a container that names none. A deployment must name an
/// image for every container; this one stands in until an image trigger
/// fills in the real one.
pub const PLACEHOLDER_IMAGE: &'static str = " ";

/// A container of a pod: its name and the image it runs.
#[derive(Clone, Debug, PartialEq)]
pub struct Container {
    pub name: String,
    pub image: Option<String>,
}

/// The contents of a `Container`.
pub struct ContainerView {
    pub name: Seq<char>,
    pub image: Option<Seq<char>>,
}

impl View for Container {
    type V = ContainerView;

    open spec fn view(&self) -> ContainerView {
        ContainerView { name: self.name@, image: opt_text(self.image) }
    }
}

impl ContainerView {
    /// Whether the container names an image that is not the empty text.
    pub open spec fn has_image(self) -> bool {
        self.image matches Some(i) && i.len() > 0
    }

    /// The container with the placeholder for an image that is absent or
    /// empty.
    pub open spec fn with_default_image(self) -> ContainerView {
        if self.has_image() {
            self
        } else {
            ContainerView { name: self.name, image: Some(PLACEHOLDER_IMAGE@) }
        }
    }
}

/// The containers of `s`, each with its image defaulted.
pub open spec fn with_default_images(s: Seq<ContainerView>) -> Seq<ContainerView> {
    Seq::new(s.len(), |i: int| s[i].with_default_image())
}

/// The contents of each container of `s`.
pub open spec fn container_views(s: Seq<Container>) -> Seq<ContainerView> {
    Seq::new(s.len(), |i: int| s[i]@)
}

/// The part of a pod's desired state that the conversion reads.
#[derive(Clone, Debug, PartialEq)]
pub struct PodSpec {
    pub containers: Vec<Container>,
}

/// The contents of a `PodSpec`.
pub struct PodSpecView {
    pub containers: Seq<ContainerView>,
}

impl View for PodSpec {
    type V = PodSpecView;

    open spec fn view(&self) -> PodSpecView {
        PodSpecView { containers: container_views(self.containers@) }
    }
}

impl PodSpecView {
    /// The pod's desired state with every container's image defaulted.
    pub open spec fn with_default_images(self) -> PodSpecView {
        PodSpecView { containers: with_default_images(self.containers) }
    }
}

/// The template from which the pods of a workload are made.
#[derive(Clone, Debug, PartialEq)]
pub struct PodTemplateSpec {
    pub metadata: Option<ObjectMeta>,
    pub spec: Option<PodSpec>,
}

/// The contents of a `PodTemplateSpec`.
pub struct PodTemplateSpecView {
    pub metadata: Option<ObjectMetaView>,
    pub spec: Option<PodSpecView>,
}

impl View for PodTemplateSpec {
    type V = PodTemplateSpecView;

    open spec fn view(&self) -> PodTemplateSpecView {
        PodTemplateSpecView {
            metadata: opt_meta(self.metadata),
            spec: match self.spec {
                Some(s) => Some(s@),
                None => None,
            },
        }
    }
}

impl PodTemplateSpecView {
    /// The template with every container's image defaulted. A template
    /// without a `spec` stays as it is.
    pub open spec fn with_default_images(self) -> PodTemplateSpecView {
        PodTemplateSpecView {
            metadata: self.metadata,
            spec: match self.spec {
                Some(s) => Some(s.with_default_images()),
                None => None,
            },
        }
    }

    /// Every container names an image that is not the empty text.
    pub open spec fn all_images_set(self) -> bool {
        self.spec matches Some(s) ==> forall|i: int|
            0 <= i < s.containers.len() ==> (#[trigger] s.containers[i]).has_image()
    }
}

impl Container {
    /// The container, with the placeholder image if it names no image or
    /// an empty one.
    pub fn with_default_image(self) -> (c: Container)
        ensures
            c@ == self@.with_default_image(),
    {
        let keep = match &self.image {
            Some(i) => !i.as_str().is_empty(),
            None => false,
        };
        if keep {
            self
        } else {
            Container { name: self.name, image: Some(String::from_str(PLACEHOLDER_IMAGE)) }
        }
    }
}

impl PodSpec {
    /// The pod's desired state with every container's image defaulted.
    pub fn with_default_images(self) -> (p: PodSpec)
        ensures
            p@ == self@.with_default_images(),
    {
        let ghost before = container_views(self.containers@);
        let mut containers: Vec<Container> = Vec::new();
        for c in it: self.containers.into_iter()
            invariant
                container_views(it.seq()) == before,
                container_views(containers@) == with_default_images(before).take(it.index()),
        {
            let ghost prev = container_views(containers@);
            let d = c.with_default_image();
            containers.push(d);
            assert(container_views(containers@) =~= prev.push(d@));
            assert(container_views(containers@) =~= with_default_images(before).take(
                it.index() + 1,
            ));
        }
        assert(container_views(containers@) =~= with_default_images(before));
        PodSpec { containers }
    }
}

impl PodTemplateSpec {
    /// The template with every container's image defaulted.
    pub fn with_default_images(self) -> (t: PodTemplateSpec)
        ensures
            t@ == self@.with_default_images(),
            t@.all_images_set(),
    {
        proof {
            lemma_default_images(self@);
        }
        let spec = match self.spec {
            Some(s) => Some(s.with_default_images()),
            None => None,
        };
        PodTemplateSpec { metadata: self.metadata, spec }
    }
}

/// After defaulting, every container names a non-empty image, and a
/// container that named one before still names the same.
pub proof fn lemma_default_images(t: PodTemplateSpecView)
    ensures
        t.with_default_images().all_images_set(),
        t.spec is Some <==> t.with_default_images().spec is Some,
        t.spec matches Some(s) ==> {
            let d = t.with_default_images().spec->0;
            &&& d.containers.len() == s.containers.len()
            &&& forall|i: int|
                0 <= i < s.containers.len() ==> {
                    &&& (#[trigger] d.containers[i]).name == s.containers[i].name
                    &&& s.containers[i].has_image() ==> d.containers[i].image
                        == s.containers[i].image
                    &&& !s.containers[i].has_image() ==> d.containers[i].image == Some(
                        PLACEHOLDER_IMAGE@,
                    )
                }
        },
{
    reveal_strlit(" ");
}

} // verus!
