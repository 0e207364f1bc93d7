//! The triggers of a `DeploymentConfig`, the image triggers that stand for
//! them on a `Deployment`, and how those are written into an annotation.

use crate::json::{encode_object_reference, encode_string, json_object_reference, json_string};
use crate::object_meta::{ObjectReference, ObjectReferenceView};
use crate::text::{join, joined, opt_text, opt_text_is, texts};
use vstd::prelude::*;

verus! {

/// The type tag of a trigger that starts a deployment when an image changes.
pub const IMAGE_CHANGE: &'static str = "ImageChange";

/// What stands before the container's name in the field path of an image
/// trigger.
pub const FIELD_PATH_PREFIX: &'static str = "spec.template.spec.containers[?(@.name=\"";

/// What stands after the container's name in the field path of an image
/// trigger.
pub const FIELD_PATH_SUFFIX: &'static str = "\")].image";

/// The parameters of an `ImageChange` trigger.
#[derive(Clone, Debug, PartialEq)]
pub struct DeploymentTriggerImageChangeParams {
    /// Whether a new version of the image starts a new deployment.
    pub automatic: Option<bool>,
    /// The names of the containers whose image the trigger sets.
    pub container_names: Option<Vec<String>>,
    /// The image stream tag to watch.
    pub from: ObjectReference,
    /// The image of the previous deployment.
    pub last_triggered_image: Option<String>,
}

/// The contents of a `DeploymentTriggerImageChangeParams`.
pub struct DeploymentTriggerImageChangeParamsView {
    pub automatic: Option<bool>,
    pub container_names: Option<Seq<Seq<char>>>,
    pub from: ObjectReferenceView,
    pub last_triggered_image: Option<Seq<char>>,
}

impl View for DeploymentTriggerImageChangeParams {
    type V = DeploymentTriggerImageChangeParamsView;

    open spec fn view(&self) -> DeploymentTriggerImageChangeParamsView {
        DeploymentTriggerImageChangeParamsView {
            automatic: self.automatic,
            container_names: match self.container_names {
                Some(names) => Some(texts(names@)),
                None => None,
            },
            from: self.from@,
            last_triggered_image: opt_text(self.last_triggered_image),
        }
    }
}

/// A policy for one trigger that results in a new deployment.
#[derive(Clone, Debug, PartialEq)]
pub struct DeploymentTriggerPolicy {
    /// The type of the trigger.
    pub type_: Option<String>,
    /// The parameters, for a trigger of type `ImageChange`.
    pub image_change_params: Option<DeploymentTriggerImageChangeParams>,
}

/// The contents of a `DeploymentTriggerPolicy`.
pub struct DeploymentTriggerPolicyView {
    pub type_: Option<Seq<char>>,
    pub image_change_params: Option<DeploymentTriggerImageChangeParamsView>,
}

impl View for DeploymentTriggerPolicy {
    type V = DeploymentTriggerPolicyView;

    open spec fn view(&self) -> DeploymentTriggerPolicyView {
        DeploymentTriggerPolicyView {
            type_: opt_text(self.type_),
            image_change_params: match self.image_change_params {
                Some(p) => Some(p@),
                None => None,
            },
        }
    }
}

/// The contents of each policy of `s`.
pub open spec fn policy_views(s: Seq<DeploymentTriggerPolicy>) -> Seq<DeploymentTriggerPolicyView> {
    Seq::new(s.len(), |i: int| s[i]@)
}

/// An image trigger of a `Deployment`: when the image that `from` refers to
/// changes, the field at `field_path` is set to it.
#[derive(Clone, Debug, PartialEq)]
pub struct KubernetesImageTrigger {
    pub from: ObjectReference,
    pub field_path: String,
}

/// The contents of a `KubernetesImageTrigger`.
pub struct KubernetesImageTriggerView {
    pub from: ObjectReferenceView,
    pub field_path: Seq<char>,
}

impl View for KubernetesImageTrigger {
    type V = KubernetesImageTriggerView;

    open spec fn view(&self) -> KubernetesImageTriggerView {
        KubernetesImageTriggerView { from: self.from@, field_path: self.field_path@ }
    }
}

/// The contents of each image trigger of `s`.
pub open spec fn trigger_views(s: Seq<KubernetesImageTrigger>) -> Seq<KubernetesImageTriggerView> {
    Seq::new(s.len(), |i: int| s[i]@)
}

/// The path of the image field of the container called `name`. The name is
/// put in as it is, with nothing escaped.
pub open spec fn image_field_path(name: Seq<char>) -> Seq<char> {
    FIELD_PATH_PREFIX@ + name + FIELD_PATH_SUFFIX@
}

impl DeploymentTriggerImageChangeParamsView {
    /// One image trigger for each container name, in the order of the
    /// names; none where there is no list of names.
    pub open spec fn image_triggers(self) -> Seq<KubernetesImageTriggerView> {
        match self.container_names {
            Some(names) => Seq::new(
                names.len(),
                |i: int|
                    KubernetesImageTriggerView {
                        from: self.from,
                        field_path: image_field_path(names[i]),
                    },
            ),
            None => Seq::empty(),
        }
    }
}

impl DeploymentTriggerPolicyView {
    /// The image triggers that stand for this policy: those of its
    /// parameters if it is of type `ImageChange` and has parameters, else
    /// none.
    pub open spec fn image_triggers(self) -> Seq<KubernetesImageTriggerView> {
        if self.type_ == Some(IMAGE_CHANGE@) {
            match self.image_change_params {
                Some(p) => p.image_triggers(),
                None => Seq::empty(),
            }
        } else {
            Seq::empty()
        }
    }
}

/// The image triggers of all of `policies`: those of the first policy, then
/// those of the second, and so on. Nothing is left out for occurring twice.
pub open spec fn image_triggers_of(policies: Seq<DeploymentTriggerPolicyView>) -> Seq<
    KubernetesImageTriggerView,
>
    decreases policies.len(),
{
    if policies.len() == 0 {
        Seq::empty()
    } else {
        image_triggers_of(policies.drop_last()) + policies.last().image_triggers()
    }
}

/// The JSON object for one image trigger, given the JSON of its two fields.
pub open spec fn trigger_record(from_json: Seq<char>, field_path_json: Seq<char>) -> Seq<char> {
    "{\"from\":"@ + from_json + ",\"fieldPath\":"@ + field_path_json + "}"@
}

/// The JSON array of the given elements.
pub open spec fn json_array(elements: Seq<Seq<char>>) -> Seq<char> {
    "["@ + joined(elements, ","@) + "]"@
}

impl KubernetesImageTriggerView {
    /// The JSON object for this trigger; `None` where one of its fields
    /// cannot be written.
    pub open spec fn json(self) -> Option<Seq<char>> {
        match (json_object_reference(self.from), json_string(self.field_path)) {
            (Some(f), Some(p)) => Some(trigger_record(f, p)),
            _ => None,
        }
    }
}

/// The JSON objects for `triggers`, in order; `None` where one of them
/// cannot be written.
pub open spec fn trigger_records(triggers: Seq<KubernetesImageTriggerView>) -> Option<
    Seq<Seq<char>>,
>
    decreases triggers.len(),
{
    if triggers.len() == 0 {
        Some(Seq::empty())
    } else {
        match (trigger_records(triggers.drop_last()), triggers.last().json()) {
            (Some(records), Some(r)) => Some(records.push(r)),
            _ => None,
        }
    }
}

/// The value of the trigger annotation for `triggers`: a JSON array with
/// one object for each trigger, in order.
pub open spec fn triggers_json(triggers: Seq<KubernetesImageTriggerView>) -> Option<Seq<char>> {
    match trigger_records(triggers) {
        Some(records) => Some(json_array(records)),
        None => None,
    }
}

/// Where the first `n` triggers cannot all be written, neither can the
/// whole list.
pub proof fn lemma_trigger_records_prefix(triggers: Seq<KubernetesImageTriggerView>, n: int)
    requires
        0 <= n <= triggers.len(),
        trigger_records(triggers.take(n)) is None,
    ensures
        trigger_records(triggers) is None,
    decreases triggers.len(),
{
    if n < triggers.len() {
        assert(triggers.drop_last().take(n) =~= triggers.take(n));
        lemma_trigger_records_prefix(triggers.drop_last(), n);
    } else {
        assert(triggers.take(n) =~= triggers);
    }
}

/// The image triggers of a list of policies with one more policy at its end.
pub proof fn lemma_image_triggers_of_push(
    policies: Seq<DeploymentTriggerPolicyView>,
    p: DeploymentTriggerPolicyView,
)
    ensures
        image_triggers_of(policies.push(p)) == image_triggers_of(policies) + p.image_triggers(),
{
    assert(policies.push(p).drop_last() =~= policies);
}

/// The image triggers of two lists of policies, one after the other, are
/// those of the first list followed by those of the second: order is kept
/// and nothing is left out.
pub proof fn lemma_image_triggers_of_concat(
    first: Seq<DeploymentTriggerPolicyView>,
    second: Seq<DeploymentTriggerPolicyView>,
)
    ensures
        image_triggers_of(first + second) == image_triggers_of(first) + image_triggers_of(second),
    decreases second.len(),
{
    if second.len() == 0 {
        assert(first + second =~= first);
        assert(image_triggers_of(first) + image_triggers_of(second) =~= image_triggers_of(first));
    } else {
        assert((first + second).drop_last() =~= first + second.drop_last());
        lemma_image_triggers_of_concat(first, second.drop_last());
        assert(image_triggers_of(first + second) =~= image_triggers_of(first) + image_triggers_of(
            second,
        ));
    }
}

/// An `ImageChange` policy with parameters stands for as many image
/// triggers as it names containers, the k-th for the k-th name.
pub proof fn lemma_image_triggers_of_policy(p: DeploymentTriggerPolicyView)
    requires
        p.type_ == Some(IMAGE_CHANGE@),
        p.image_change_params matches Some(params) && params.container_names is Some,
    ensures
        ({
            let params = p.image_change_params->0;
            let names = params.container_names->0;
            &&& p.image_triggers().len() == names.len()
            &&& forall|k: int|
                0 <= k < names.len() ==> (#[trigger] p.image_triggers()[k]).from == params.from
                    && p.image_triggers()[k].field_path == image_field_path(names[k])
        }),
{
}

/// The path of the image field of the container called `name`.
pub fn field_path_of(name: &str) -> (path: String)
    ensures
        path@ == image_field_path(name@),
{
    let mut path = String::from_str(FIELD_PATH_PREFIX);
    path.append(name);
    path.append(FIELD_PATH_SUFFIX);
    path
}

impl DeploymentTriggerImageChangeParams {
    /// One image trigger for each container that the parameters name.
    pub fn to_kubernetes_image_triggers(&self) -> (triggers: Vec<KubernetesImageTrigger>)
        ensures
            trigger_views(triggers@) == self@.image_triggers(),
    {
        let mut triggers: Vec<KubernetesImageTrigger> = Vec::new();
        match &self.container_names {
            Some(names) => {
                let mut i: usize = 0;
                while i < names.len()
                    invariant
                        i <= names.len(),
                        self.container_names == Some(*names),
                        trigger_views(triggers@) == self@.image_triggers().take(i as int),
                    decreases names.len() - i,
                {
                    let ghost before = trigger_views(triggers@);
                    let t = KubernetesImageTrigger {
                        from: self.from.clone(),
                        field_path: field_path_of(names[i].as_str()),
                    };
                    triggers.push(t);
                    assert(trigger_views(triggers@) =~= before.push(t@));
                    assert(trigger_views(triggers@) =~= self@.image_triggers().take(i + 1));
                    i += 1;
                }
                assert(trigger_views(triggers@) =~= self@.image_triggers());
            },
            None => {
                assert(trigger_views(triggers@) =~= self@.image_triggers());
            },
        }
        triggers
    }
}

impl DeploymentTriggerPolicy {
    /// The image triggers that stand for this policy on a `Deployment`.
    pub fn to_kubernetes_image_triggers(&self) -> (triggers: Vec<KubernetesImageTrigger>)
        ensures
            trigger_views(triggers@) == self@.image_triggers(),
    {
        if opt_text_is(&self.type_, IMAGE_CHANGE) {
            match &self.image_change_params {
                Some(params) => {
                    return params.to_kubernetes_image_triggers();
                },
                None => {},
            }
        }
        let triggers: Vec<KubernetesImageTrigger> = Vec::new();
        assert(trigger_views(triggers@) =~= self@.image_triggers());
        triggers
    }
}

/// The image triggers of all of `policies`, in order.
pub fn kubernetes_image_triggers(policies: &Vec<DeploymentTriggerPolicy>) -> (triggers: Vec<
    KubernetesImageTrigger,
>)
    ensures
        trigger_views(triggers@) == image_triggers_of(policy_views(policies@)),
{
    let mut triggers: Vec<KubernetesImageTrigger> = Vec::new();
    let mut i: usize = 0;
    assert(trigger_views(triggers@) =~= Seq::empty());
    while i < policies.len()
        invariant
            i <= policies.len(),
            trigger_views(triggers@) == image_triggers_of(policy_views(policies@).take(i as int)),
        decreases policies.len() - i,
    {
        let ghost before = trigger_views(triggers@);
        let mut more = policies[i].to_kubernetes_image_triggers();
        let ghost added = trigger_views(more@);
        triggers.append(&mut more);
        proof {
            assert(trigger_views(triggers@) =~= before + added);
            lemma_image_triggers_of_push(
                policy_views(policies@).take(i as int),
                policies@[i as int]@,
            );
            assert(policy_views(policies@).take(i + 1) =~= policy_views(policies@).take(
                i as int,
            ).push(policies@[i as int]@));
        }
        i += 1;
    }
    assert(policy_views(policies@).take(policies.len() as int) =~= policy_views(policies@));
    triggers
}

/// The JSON object for one image trigger, from the JSON of its two fields.
pub fn frame_trigger_record(from_json: &str, field_path_json: &str) -> (record: String)
    ensures
        record@ == trigger_record(from_json@, field_path_json@),
{
    let mut record = String::from_str("{\"from\":");
    record.append(from_json);
    record.append(",\"fieldPath\":");
    record.append(field_path_json);
    record.append("}");
    record
}

/// The JSON array of `elements`, each of which is JSON already.
pub fn frame_json_array(elements: &Vec<String>) -> (array: String)
    ensures
        array@ == json_array(texts(elements@)),
{
    let mut array = String::from_str("[");
    let inner = join(elements, ",");
    array.append(inner.as_str());
    array.append("]");
    array
}

impl KubernetesImageTrigger {
    /// The JSON object for this trigger, if `serde_json` can write its
    /// fields.
    pub fn to_json(&self) -> (record: Option<String>)
        ensures
            opt_text(record) == self@.json(),
    {
        match encode_object_reference(&self.from) {
            Some(f) => match encode_string(self.field_path.as_str()) {
                Some(p) => Some(frame_trigger_record(f.as_str(), p.as_str())),
                None => None,
            },
            None => None,
        }
    }
}

/// The value of the trigger annotation for `triggers`, if `serde_json` can
/// write every field of every trigger.
pub fn encode_image_triggers(triggers: &Vec<KubernetesImageTrigger>) -> (value: Option<String>)
    ensures
        opt_text(value) == triggers_json(trigger_views(triggers@)),
{
    let ghost all = trigger_views(triggers@);
    let mut records: Vec<String> = Vec::new();
    let mut i: usize = 0;
    assert(texts(records@) =~= Seq::empty());
    while i < triggers.len()
        invariant
            i <= triggers.len(),
            all == trigger_views(triggers@),
            trigger_records(all.take(i as int)) == Some(texts(records@)),
        decreases triggers.len() - i,
    {
        let ghost before = texts(records@);
        assert(all.take(i + 1).drop_last() =~= all.take(i as int));
        match triggers[i].to_json() {
            Some(r) => {
                records.push(r);
                assert(texts(records@) =~= before.push(r@));
            },
            None => {
                proof {
                    lemma_trigger_records_prefix(all, i + 1);
                }
                return None;
            },
        }
        i += 1;
    }
    assert(all.take(triggers.len() as int) =~= all);
    Some(frame_json_array(&records))
}

} // verus!
