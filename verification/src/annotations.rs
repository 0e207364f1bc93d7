//! The annotations that a conversion sets and removes.

use crate::deployment_trigger_policy::{
    encode_image_triggers,
    trigger_views,
    triggers_json,
    KubernetesImageTrigger,
    KubernetesImageTriggerView,
};
use crate::object_meta::{ObjectMeta, ObjectMetaView};
use crate::string_map::StringMap;
use crate::text::opt_text;
use vstd::prelude::*;

verus! {

/// The annotation that holds the image triggers of a deployment, as a JSON
/// array.
pub const TRIGGERS_ANNOTATION: &'static str = "image.openshift.io/triggers";

/// The annotation in which `kubectl apply` keeps the configuration it last
/// applied. After a conversion it would describe a resource of another kind.
pub const LAST_APPLIED_ANNOTATION: &'static str =
    "kubectl.kubernetes.io/last-applied-configuration";

/// Why a conversion produced no deployment.
#[derive(Clone, Copy, Debug, PartialEq, Eq, Structural)]
pub enum ConvertError {
    /// The image triggers could not be written as JSON.
    Encode,
}

impl ObjectMetaView {
    /// The metadata of the converted resource. Where there is a value for
    /// the trigger annotation it is stored under `TRIGGERS_ANNOTATION`, in
    /// a new map of annotations if there was none. Then
    /// `LAST_APPLIED_ANNOTATION` is taken out.
    pub open spec fn finalized(self, trigger_annotation: Option<Seq<char>>) -> ObjectMetaView {
        let injected = match trigger_annotation {
            Some(value) => Some(
                (match self.annotations {
                    Some(a) => a,
                    None => Map::empty(),
                }).insert(TRIGGERS_ANNOTATION@, value),
            ),
            None => self.annotations,
        };
        ObjectMetaView {
            name: self.name,
            namespace: self.namespace,
            labels: self.labels,
            annotations: match injected {
                Some(a) => Some(a.remove(LAST_APPLIED_ANNOTATION@)),
                None => None,
            },
        }
    }
}

/// The value of the trigger annotation for `triggers`: none for an empty
/// list, else the JSON of the list, or an error where it cannot be written.
pub open spec fn trigger_annotation_of(triggers: Seq<KubernetesImageTriggerView>) -> Result<
    Option<Seq<char>>,
    ConvertError,
> {
    if triggers.len() == 0 {
        Ok(None)
    } else {
        match triggers_json(triggers) {
            Some(json) => Ok(Some(json)),
            None => Err(ConvertError::Encode),
        }
    }
}

/// The text of an optional annotation value, or the error in its place.
pub open spec fn annotation_text(r: Result<Option<String>, ConvertError>) -> Result<
    Option<Seq<char>>,
    ConvertError,
> {
    match r {
        Ok(o) => Ok(opt_text(o)),
        Err(e) => Err(e),
    }
}

/// The metadata, or the error in its place.
pub open spec fn meta_result(r: Result<ObjectMeta, ConvertError>) -> Result<
    ObjectMetaView,
    ConvertError,
> {
    match r {
        Ok(m) => Ok(m@),
        Err(e) => Err(e),
    }
}

/// The value of the trigger annotation, given what came of writing image
/// triggers as JSON: the JSON, or the error where there is none.
pub fn annotation_or_error(json: Option<String>) -> (value: Result<Option<String>, ConvertError>)
    ensures
        annotation_text(value) == match opt_text(json) {
            Some(text) => Ok::<Option<Seq<char>>, ConvertError>(Some(text)),
            None => Err(ConvertError::Encode),
        },
{
    match json {
        Some(text) => Ok(Some(text)),
        None => Err(ConvertError::Encode),
    }
}

/// The value of the trigger annotation for `triggers`.
pub fn encode_trigger_annotation(triggers: &Vec<KubernetesImageTrigger>) -> (value: Result<
    Option<String>,
    ConvertError,
>)
    ensures
        annotation_text(value) == trigger_annotation_of(trigger_views(triggers@)),
{
    if triggers.len() == 0 {
        Ok(None)
    } else {
        annotation_or_error(encode_image_triggers(triggers))
    }
}

impl ObjectMeta {
    /// The metadata of the converted resource, given the value of the
    /// trigger annotation.
    pub fn finalized(self, trigger_annotation: Option<String>) -> (m: ObjectMeta)
        ensures
            m@ == self@.finalized(opt_text(trigger_annotation)),
    {
        let injected = match trigger_annotation {
            Some(value) => {
                let mut a = match self.annotations {
                    Some(a) => a,
                    None => StringMap::new(),
                };
                a.insert(String::from_str(TRIGGERS_ANNOTATION), value);
                Some(a)
            },
            None => self.annotations,
        };
        let annotations = match injected {
            Some(mut a) => {
                a.remove(LAST_APPLIED_ANNOTATION);
                Some(a)
            },
            None => None,
        };
        ObjectMeta { name: self.name, namespace: self.namespace, labels: self.labels, annotations }
    }
}

/// The metadata of the converted resource, given its image triggers.
pub fn finalize_metadata(metadata: ObjectMeta, triggers: &Vec<KubernetesImageTrigger>) -> (m:
    Result<ObjectMeta, ConvertError>)
    ensures
        meta_result(m) == match trigger_annotation_of(trigger_views(triggers@)) {
            Ok(value) => Ok(metadata@.finalized(value)),
            Err(e) => Err(e),
        },
{
    match encode_trigger_annotation(triggers) {
        Ok(value) => Ok(metadata.finalized(value)),
        Err(e) => Err(e),
    }
}

/// Finalized metadata never holds `LAST_APPLIED_ANNOTATION`, holds the
/// trigger annotation that was handed in, and holds every other annotation
/// exactly as before. Name, namespace and labels stay as they are.
pub proof fn lemma_finalized_annotations(
    meta: ObjectMetaView,
    trigger_annotation: Option<Seq<char>>,
)
    ensures
        ({
            let after = meta.finalized(trigger_annotation);
            let before = match meta.annotations {
                Some(a) => a,
                None => Map::empty(),
            };
            &&& after.name == meta.name
            &&& after.namespace == meta.namespace
            &&& after.labels == meta.labels
            &&& after.annotations is Some <==> (meta.annotations is Some
                || trigger_annotation is Some)
            &&& after.annotations matches Some(a) ==> {
                &&& !a.contains_key(LAST_APPLIED_ANNOTATION@)
                &&& trigger_annotation matches Some(value) ==> a.contains_key(TRIGGERS_ANNOTATION@)
                    && a[TRIGGERS_ANNOTATION@] == value
                &&& forall|k: Seq<char>|
                    k != LAST_APPLIED_ANNOTATION@ && (trigger_annotation is Some ==> k
                        != TRIGGERS_ANNOTATION@) ==> (a.contains_key(k) <==> before.contains_key(k))
                        && (a.contains_key(k) ==> a[k] == before[k])
            }
        }),
{
    reveal_strlit("image.openshift.io/triggers");
    reveal_strlit("kubectl.kubernetes.io/last-applied-configuration");
    assert(TRIGGERS_ANNOTATION@.len() != LAST_APPLIED_ANNOTATION@.len());
}

} // verus!
