//! The `DeploymentConfig` resource and its conversion into a `Deployment`.

use crate::annotations::{
    encode_trigger_annotation,
    lemma_finalized_annotations,
    trigger_annotation_of,
    ConvertError,
    LAST_APPLIED_ANNOTATION,
    TRIGGERS_ANNOTATION,
};
use crate::deployment::{
    Deployment,
    DeploymentSpec,
    DeploymentSpecView,
    DeploymentView,
    LabelSelector,
    LabelSelectorView,
};
use crate::deployment_config_strategy::{
    opt_config_strategy,
    DeploymentConfigStrategy,
    DeploymentConfigStrategyView,
};
use crate::deployment_trigger_policy::{
    image_triggers_of,
    kubernetes_image_triggers,
    policy_views,
    trigger_views,
    triggers_json,
    DeploymentTriggerPolicy,
    DeploymentTriggerPolicyView,
    KubernetesImageTrigger,
    KubernetesImageTriggerView,
};
use crate::object_meta::{ObjectMeta, ObjectMetaView};
use crate::pod_template::{lemma_default_images, PodTemplateSpec, PodTemplateSpecView};
use crate::string_map::{opt_map, StringMap};
use crate::text::opt_text;
use vstd::prelude::*;

verus! {

/// What the operator is told when a deployment is paused for want of
/// triggers.
pub const PAUSED_WARNING: &'static str =
    "WARNING: deployment has been set to paused because there are no triggers in the DeploymentConfig";

/// The desired state of a `DeploymentConfig`: its `spec`.
#[derive(Clone, Debug, PartialEq)]
pub struct DeploymentConfigSpec {
    pub strategy: Option<DeploymentConfigStrategy>,
    pub min_ready_seconds: Option<i32>,
    pub triggers: Option<Vec<DeploymentTriggerPolicy>>,
    pub replicas: Option<i32>,
    pub revision_history_limit: Option<i32>,
    pub test: bool,
    pub paused: Option<bool>,
    pub selector: Option<StringMap>,
    pub template: PodTemplateSpec,
}

/// The contents of a `DeploymentConfigSpec`.
pub struct DeploymentConfigSpecView {
    pub strategy: Option<DeploymentConfigStrategyView>,
    pub min_ready_seconds: Option<i32>,
    pub triggers: Option<Seq<DeploymentTriggerPolicyView>>,
    pub replicas: Option<i32>,
    pub revision_history_limit: Option<i32>,
    pub test: bool,
    pub paused: Option<bool>,
    pub selector: Option<Map<Seq<char>, Seq<char>>>,
    pub template: PodTemplateSpecView,
}

impl View for DeploymentConfigSpec {
    type V = DeploymentConfigSpecView;

    open spec fn view(&self) -> DeploymentConfigSpecView {
        DeploymentConfigSpecView {
            strategy: opt_config_strategy(self.strategy),
            min_ready_seconds: self.min_ready_seconds,
            triggers: match self.triggers {
                Some(t) => Some(policy_views(t@)),
                None => None,
            },
            replicas: self.replicas,
            revision_history_limit: self.revision_history_limit,
            test: self.test,
            paused: self.paused,
            selector: opt_map(self.selector),
            template: self.template@,
        }
    }
}

/// A `DeploymentConfig` resource.
#[derive(Clone, Debug, PartialEq)]
pub struct DeploymentConfig {
    pub metadata: ObjectMeta,
    pub spec: DeploymentConfigSpec,
}

/// The contents of a `DeploymentConfig`.
pub struct DeploymentConfigView {
    pub metadata: ObjectMetaView,
    pub spec: DeploymentConfigSpecView,
}

impl View for DeploymentConfig {
    type V = DeploymentConfigView;

    open spec fn view(&self) -> DeploymentConfigView {
        DeploymentConfigView { metadata: self.metadata@, spec: self.spec@ }
    }
}

/// Something the operator should be told about a conversion. It changes
/// nothing in the deployment that was produced.
#[derive(Clone, Copy, Debug, PartialEq, Eq, Structural)]
pub enum Diagnostic {
    /// The deployment was paused because the `DeploymentConfig` has no
    /// triggers.
    PausedWithoutTriggers,
}

impl Diagnostic {
    /// The notice, as a line of text for the operator.
    pub fn message(&self) -> (text: String)
        ensures
            text@ == PAUSED_WARNING@,
    {
        match self {
            Diagnostic::PausedWithoutTriggers => String::from_str(PAUSED_WARNING),
        }
    }
}

/// What a conversion yields: the deployment, and what to tell the operator.
#[derive(Clone, Debug, PartialEq)]
pub struct Conversion {
    pub deployment: Deployment,
    pub diagnostics: Vec<Diagnostic>,
}

/// The contents of a `Conversion`.
pub struct ConversionView {
    pub deployment: DeploymentView,
    pub diagnostics: Seq<Diagnostic>,
}

impl View for Conversion {
    type V = ConversionView;

    open spec fn view(&self) -> ConversionView {
        ConversionView { deployment: self.deployment@, diagnostics: self.diagnostics@ }
    }
}

/// The contents of a conversion, or the error in its place.
pub open spec fn conversion_result(r: Result<Conversion, ConvertError>) -> Result<
    ConversionView,
    ConvertError,
> {
    match r {
        Ok(c) => Ok(c@),
        Err(e) => Err(e),
    }
}

impl DeploymentConfigSpecView {
    /// Whether there is a list of triggers with at least one trigger in it.
    pub open spec fn has_triggers(self) -> bool {
        self.triggers matches Some(t) && t.len() > 0
    }

    /// The image triggers that stand for the triggers.
    pub open spec fn image_triggers(self) -> Seq<KubernetesImageTriggerView> {
        match self.triggers {
            Some(t) => image_triggers_of(t),
            None => Seq::empty(),
        }
    }

    /// The paused flag of the deployment: as given where there are
    /// triggers, else set, whatever was given.
    pub open spec fn deployment_paused(self) -> Option<bool> {
        if self.has_triggers() {
            self.paused
        } else {
            Some(true)
        }
    }

    /// The desired state of the deployment. The selector matches on the
    /// given labels and nothing else; the strategy and the progress deadline
    /// come from the strategy; replicas, minimum ready seconds, revision
    /// history limit and template are handed on.
    pub open spec fn deployment_spec(self) -> DeploymentSpecView {
        DeploymentSpecView {
            replicas: self.replicas,
            selector: LabelSelectorView { match_labels: self.selector },
            template: self.template,
            min_ready_seconds: self.min_ready_seconds,
            revision_history_limit: self.revision_history_limit,
            paused: self.deployment_paused(),
            strategy: match self.strategy {
                Some(s) => Some(s.deployment_strategy()),
                None => None,
            },
            progress_deadline_seconds: match self.strategy {
                Some(s) => s.progress_deadline_seconds(),
                None => None,
            },
        }
    }

    /// What the operator is told: the pause for want of triggers, if the
    /// deployment was so paused.
    pub open spec fn diagnostics(self) -> Seq<Diagnostic> {
        if self.has_triggers() {
            Seq::empty()
        } else {
            seq![Diagnostic::PausedWithoutTriggers]
        }
    }
}

impl DeploymentConfigView {
    /// The conversion, given the value of the trigger annotation: the
    /// metadata finalized, the desired state assembled, and every container
    /// of the template given an image.
    pub open spec fn converted(self, trigger_annotation: Option<Seq<char>>) -> ConversionView {
        let spec = self.spec.deployment_spec();
        ConversionView {
            deployment: DeploymentView {
                metadata: self.metadata.finalized(trigger_annotation),
                spec: Some(
                    DeploymentSpecView {
                        replicas: spec.replicas,
                        selector: spec.selector,
                        template: spec.template.with_default_images(),
                        min_ready_seconds: spec.min_ready_seconds,
                        revision_history_limit: spec.revision_history_limit,
                        paused: spec.paused,
                        strategy: spec.strategy,
                        progress_deadline_seconds: spec.progress_deadline_seconds,
                    },
                ),
            },
            diagnostics: self.spec.diagnostics(),
        }
    }

    /// The conversion of this `DeploymentConfig`, or the error where its
    /// image triggers cannot be written into the annotation.
    pub open spec fn conversion(self) -> Result<ConversionView, ConvertError> {
        match trigger_annotation_of(self.spec.image_triggers()) {
            Ok(value) => Ok(self.converted(value)),
            Err(e) => Err(e),
        }
    }
}

impl DeploymentConfigSpec {
    /// The image triggers that stand for the triggers.
    pub fn kubernetes_image_triggers(&self) -> (triggers: Vec<KubernetesImageTrigger>)
        ensures
            trigger_views(triggers@) == self@.image_triggers(),
    {
        match &self.triggers {
            Some(t) => kubernetes_image_triggers(t),
            None => {
                let triggers: Vec<KubernetesImageTrigger> = Vec::new();
                assert(trigger_views(triggers@) =~= Seq::empty());
                triggers
            },
        }
    }

    /// The desired state of the deployment.
    pub fn into_deployment_spec(self) -> (spec: DeploymentSpec)
        ensures
            spec@ == self@.deployment_spec(),
    {
        let has_triggers = match &self.triggers {
            Some(t) => t.len() > 0,
            None => false,
        };
        let paused = if has_triggers {
            self.paused
        } else {
            Some(true)
        };
        let progress_deadline_seconds = match &self.strategy {
            Some(s) => s.progress_deadline_seconds(),
            None => None,
        };
        let strategy = match self.strategy {
            Some(s) => Some(s.into_deployment_strategy()),
            None => None,
        };
        DeploymentSpec {
            replicas: self.replicas,
            selector: LabelSelector { match_labels: self.selector },
            template: self.template,
            min_ready_seconds: self.min_ready_seconds,
            revision_history_limit: self.revision_history_limit,
            paused,
            strategy,
            progress_deadline_seconds,
        }
    }
}

impl DeploymentConfig {
    /// The conversion, given the value of the trigger annotation.
    pub fn assemble(self, trigger_annotation: Option<String>) -> (c: Conversion)
        ensures
            c@ == self@.converted(opt_text(trigger_annotation)),
    {
        let mut diagnostics: Vec<Diagnostic> = Vec::new();
        let has_triggers = match &self.spec.triggers {
            Some(t) => t.len() > 0,
            None => false,
        };
        if !has_triggers {
            diagnostics.push(Diagnostic::PausedWithoutTriggers);
        }
        assert(diagnostics@ =~= self@.spec.diagnostics());
        let metadata = self.metadata.finalized(trigger_annotation);
        let spec = self.spec.into_deployment_spec();
        let spec = DeploymentSpec {
            replicas: spec.replicas,
            selector: spec.selector,
            template: spec.template.with_default_images(),
            min_ready_seconds: spec.min_ready_seconds,
            revision_history_limit: spec.revision_history_limit,
            paused: spec.paused,
            strategy: spec.strategy,
            progress_deadline_seconds: spec.progress_deadline_seconds,
        };
        Conversion { deployment: Deployment { metadata, spec: Some(spec) }, diagnostics }
    }

    /// Converts the `DeploymentConfig` into a `Deployment`.
    pub fn into_deployment(self) -> (r: Result<Conversion, ConvertError>)
        ensures
            conversion_result(r) == self@.conversion(),
    {
        let triggers = self.spec.kubernetes_image_triggers();
        match encode_trigger_annotation(&triggers) {
            Ok(value) => Ok(self.assemble(value)),
            Err(e) => Err(e),
        }
    }
}

/// Without triggers the deployment is paused, whatever the
/// `DeploymentConfig` said, the operator is told so, and no error is
/// possible.
pub proof fn lemma_paused_without_triggers(config: DeploymentConfigView)
    requires
        !config.spec.has_triggers(),
    ensures
        config.conversion() matches Ok(c) && c.deployment.spec matches Some(spec) && spec.paused
            == Some(true) && c.diagnostics == seq![Diagnostic::PausedWithoutTriggers],
{
}

/// With triggers the paused flag is the one that was given, and the
/// operator is told nothing, whether or not any image trigger results.
pub proof fn lemma_paused_as_given_with_triggers(config: DeploymentConfigView)
    requires
        config.spec.has_triggers(),
    ensures
        config.conversion() matches Ok(c) ==> c.deployment.spec matches Some(spec) && spec.paused
            == config.spec.paused && c.diagnostics.len() == 0,
{
}

/// Triggers none of which stands for an image trigger leave the
/// annotations without a trigger annotation of the conversion's making:
/// the annotations are those given, less `LAST_APPLIED_ANNOTATION`, and no
/// error is possible.
pub proof fn lemma_no_annotation_without_image_triggers(config: DeploymentConfigView)
    requires
        config.spec.image_triggers().len() == 0,
    ensures
        config.conversion() matches Ok(c) && c.deployment.metadata.annotations
            == match config.metadata.annotations {
            Some(a) => Some(a.remove(LAST_APPLIED_ANNOTATION@)),
            None => None,
        },
{
}

/// Where image triggers result, a conversion without error stores their
/// JSON under `TRIGGERS_ANNOTATION`.
pub proof fn lemma_annotation_with_image_triggers(config: DeploymentConfigView)
    requires
        config.spec.image_triggers().len() > 0,
    ensures
        config.conversion() is Ok <==> triggers_json(config.spec.image_triggers()) is Some,
        config.conversion() matches Ok(c) ==> c.deployment.metadata.annotations matches Some(a)
            && a.contains_key(TRIGGERS_ANNOTATION@) && Some(a[TRIGGERS_ANNOTATION@])
            == triggers_json(config.spec.image_triggers()),
{
    match triggers_json(config.spec.image_triggers()) {
        Some(json) => {
            lemma_finalized_annotations(config.metadata, Some(json));
        },
        None => {},
    }
}

/// A converted resource never carries `LAST_APPLIED_ANNOTATION`, and apart
/// from it and the trigger annotation its annotations are those of the
/// `DeploymentConfig`.
pub proof fn lemma_annotations_after_conversion(config: DeploymentConfigView)
    ensures
        config.conversion() matches Ok(c) ==> {
            let before = match config.metadata.annotations {
                Some(a) => a,
                None => Map::empty(),
            };
            let after = match c.deployment.metadata.annotations {
                Some(a) => a,
                None => Map::empty(),
            };
            &&& !after.contains_key(LAST_APPLIED_ANNOTATION@)
            &&& forall|k: Seq<char>|
                k != LAST_APPLIED_ANNOTATION@ && k != TRIGGERS_ANNOTATION@ ==> (after.contains_key(k)
                    <==> before.contains_key(k)) && (after.contains_key(k) ==> after[k]
                    == before[k])
        },
{
    match trigger_annotation_of(config.spec.image_triggers()) {
        Ok(value) => {
            lemma_finalized_annotations(config.metadata, value);
        },
        Err(_) => {},
    }
}

/// Every container of a converted resource names an image that is not
/// empty.
pub proof fn lemma_images_after_conversion(config: DeploymentConfigView)
    ensures
        config.conversion() matches Ok(c) ==> c.deployment.spec matches Some(spec)
            && spec.template.all_images_set() && spec.template
            == config.spec.template.with_default_images(),
{
    lemma_default_images(config.spec.template);
}

/// Either one `DeploymentConfig` or a list of them.
#[derive(Clone, Debug, PartialEq)]
pub enum DeploymentConfigOrList {
    DeploymentConfig(DeploymentConfig),
    List(Vec<DeploymentConfig>),
}

/// The contents of a `DeploymentConfigOrList`.
pub enum DeploymentConfigOrListView {
    DeploymentConfig(DeploymentConfigView),
    List(Seq<DeploymentConfigView>),
}

/// The contents of each `DeploymentConfig` of `s`.
pub open spec fn config_views(s: Seq<DeploymentConfig>) -> Seq<DeploymentConfigView> {
    Seq::new(s.len(), |i: int| s[i]@)
}

impl View for DeploymentConfigOrList {
    type V = DeploymentConfigOrListView;

    open spec fn view(&self) -> DeploymentConfigOrListView {
        match self {
            DeploymentConfigOrList::DeploymentConfig(c) => DeploymentConfigOrListView::DeploymentConfig(
                c@,
            ),
            DeploymentConfigOrList::List(l) => DeploymentConfigOrListView::List(config_views(l@)),
        }
    }
}

impl DeploymentConfigOrListView {
    /// The resources to convert, in order: the one, or those of the list.
    pub open spec fn items(self) -> Seq<DeploymentConfigView> {
        match self {
            DeploymentConfigOrListView::DeploymentConfig(c) => seq![c],
            DeploymentConfigOrListView::List(l) => l,
        }
    }
}

/// One step of writing the converted resources out.
#[derive(Clone, Debug, PartialEq)]
pub enum OutputStep {
    /// Write the marker that separates two documents.
    Boundary,
    /// Write the deployment as a document, and tell the operator what the
    /// conversion has to say.
    Document(Conversion),
}

/// The contents of an `OutputStep`.
pub enum OutputStepView {
    Boundary,
    Document(ConversionView),
}

impl View for OutputStep {
    type V = OutputStepView;

    open spec fn view(&self) -> OutputStepView {
        match self {
            OutputStep::Boundary => OutputStepView::Boundary,
            OutputStep::Document(c) => OutputStepView::Document(c@),
        }
    }
}

/// The marker that separates two documents of the output.
pub const DOCUMENT_BOUNDARY: &'static str = "---";

/// The contents of each conversion of `s`.
pub open spec fn conversion_views(s: Seq<Conversion>) -> Seq<ConversionView> {
    Seq::new(s.len(), |i: int| s[i]@)
}

/// The contents of each step of `s`.
pub open spec fn step_views(s: Seq<OutputStep>) -> Seq<OutputStepView> {
    Seq::new(s.len(), |i: int| s[i]@)
}

/// The conversions of `items`, in order, or the error of the first of them
/// that has one.
pub open spec fn conversions_of(items: Seq<DeploymentConfigView>) -> Result<
    Seq<ConversionView>,
    ConvertError,
>
    decreases items.len(),
{
    if items.len() == 0 {
        Ok(Seq::empty())
    } else {
        match conversions_of(items.drop_last()) {
            Ok(conversions) => match items.last().conversion() {
                Ok(c) => Ok(conversions.push(c)),
                Err(e) => Err(e),
            },
            Err(e) => Err(e),
        }
    }
}

/// The steps that write `conversions` out: one document for each, in order,
/// and a boundary between each two.
pub open spec fn output_steps(conversions: Seq<ConversionView>) -> Seq<OutputStepView> {
    Seq::new(
        if conversions.len() == 0 {
            0
        } else {
            (2 * conversions.len() - 1) as nat
        },
        |i: int|
            if i % 2 == 0 {
                OutputStepView::Document(conversions[i / 2])
            } else {
                OutputStepView::Boundary
            },
    )
}

/// The steps for a whole input, or the error of the first resource that
/// cannot be converted.
pub open spec fn output_of(input: DeploymentConfigOrListView) -> Result<
    Seq<OutputStepView>,
    ConvertError,
> {
    match conversions_of(input.items()) {
        Ok(conversions) => Ok(output_steps(conversions)),
        Err(e) => Err(e),
    }
}

/// The contents of a list of conversions, or the error in its place.
pub open spec fn conversions_result(r: Result<Vec<Conversion>, ConvertError>) -> Result<
    Seq<ConversionView>,
    ConvertError,
> {
    match r {
        Ok(v) => Ok(conversion_views(v@)),
        Err(e) => Err(e),
    }
}

/// The contents of a list of steps, or the error in its place.
pub open spec fn output_result(r: Result<Vec<OutputStep>, ConvertError>) -> Result<
    Seq<OutputStepView>,
    ConvertError,
> {
    match r {
        Ok(v) => Ok(step_views(v@)),
        Err(e) => Err(e),
    }
}

/// Where the first `n` resources convert and the next one has an error,
/// that error is the error of the whole list.
pub proof fn lemma_conversions_first_error(items: Seq<DeploymentConfigView>, n: int)
    requires
        0 <= n < items.len(),
        conversions_of(items.take(n)) is Ok,
        items[n].conversion() is Err,
    ensures
        conversions_of(items) == Err::<Seq<ConversionView>, ConvertError>(
            items[n].conversion()->Err_0,
        ),
    decreases items.len(),
{
    if n == items.len() - 1 {
        assert(items.drop_last() =~= items.take(n));
    } else {
        assert(items.drop_last().take(n) =~= items.take(n));
        lemma_conversions_first_error(items.drop_last(), n);
    }
}

/// A list converts to as many conversions as it has resources, the k-th
/// being that of the k-th resource.
pub proof fn lemma_conversions_in_order(items: Seq<DeploymentConfigView>)
    ensures
        conversions_of(items) matches Ok(conversions) ==> conversions.len() == items.len()
            && forall|k: int|
            0 <= k < items.len() ==> (#[trigger] items[k]).conversion() == Ok::<
                ConversionView,
                ConvertError,
            >(conversions[k]),
    decreases items.len(),
{
    if items.len() > 0 {
        lemma_conversions_in_order(items.drop_last());
        if let Ok(conversions) = conversions_of(items) {
            assert forall|k: int| 0 <= k < items.len() implies (#[trigger] items[k]).conversion()
                == Ok::<ConversionView, ConvertError>(conversions[k]) by {
                if k < items.len() - 1 {
                    assert(items.drop_last()[k] == items[k]);
                }
            }
        }
    }
}

/// `n` conversions are written as `n` documents, in order, each but the
/// first with a boundary just before it, and nothing else.
pub proof fn lemma_output_steps(conversions: Seq<ConversionView>)
    ensures
        output_steps(conversions).len() == if conversions.len() == 0 {
            0
        } else {
            2 * conversions.len() - 1
        },
        forall|k: int|
            0 <= k < conversions.len() ==> #[trigger] output_steps(conversions)[2 * k]
                == OutputStepView::Document(conversions[k]),
        forall|k: int|
            0 < k < conversions.len() ==> #[trigger] output_steps(conversions)[2 * k - 1]
                == OutputStepView::Boundary,
{
}

/// An input of `n` resources that all convert is written as `n` documents,
/// the k-th being the conversion of the k-th resource, each but the first
/// with a boundary just before it, and nothing else.
pub proof fn lemma_output_of(input: DeploymentConfigOrListView)
    ensures
        output_of(input) matches Ok(steps) ==> {
            let items = input.items();
            &&& steps.len() == if items.len() == 0 {
                0
            } else {
                2 * items.len() - 1
            }
            &&& forall|k: int|
                0 <= k < items.len() ==> ((#[trigger] items[k]).conversion() matches Ok(c)
                    && steps[2 * k] == OutputStepView::Document(c))
            &&& forall|k: int|
                0 < k < items.len() ==> #[trigger] steps[2 * k - 1] == OutputStepView::Boundary
        },
{
    lemma_conversions_in_order(input.items());
    if let Ok(conversions) = conversions_of(input.items()) {
        lemma_output_steps(conversions);
    }
}

/// The steps that write `conversions` out.
pub fn output_plan(conversions: Vec<Conversion>) -> (steps: Vec<OutputStep>)
    ensures
        step_views(steps@) == output_steps(conversion_views(conversions@)),
{
    let ghost all = conversion_views(conversions@);
    let mut steps: Vec<OutputStep> = Vec::new();
    let mut first = true;
    assert(step_views(steps@) =~= output_steps(all.take(0)));
    for c in it: conversions.into_iter()
        invariant
            conversion_views(it.seq()) == all,
            first == (it.index() == 0),
            step_views(steps@) == output_steps(all.take(it.index())),
    {
        let ghost before = step_views(steps@);
        let ghost k = it.index();
        if first {
            first = false;
            steps.push(OutputStep::Document(c));
            assert(step_views(steps@) =~= before.push(OutputStepView::Document(c@)));
        } else {
            steps.push(OutputStep::Boundary);
            steps.push(OutputStep::Document(c));
            assert(step_views(steps@) =~= before.push(OutputStepView::Boundary).push(
                OutputStepView::Document(c@),
            ));
        }
        assert(all[k] == c@);
        assert(step_views(steps@) =~= output_steps(all.take(k + 1)));
    }
    assert(all.take(all.len() as int) =~= all);
    steps
}

/// Converts each of `items`, in order, and stops at the first error.
pub fn convert_all(items: Vec<DeploymentConfig>) -> (r: Result<Vec<Conversion>, ConvertError>)
    ensures
        conversions_result(r) == conversions_of(config_views(items@)),
{
    let ghost all = config_views(items@);
    let mut conversions: Vec<Conversion> = Vec::new();
    assert(conversion_views(conversions@) =~= Seq::empty());
    for config in it: items.into_iter()
        invariant
            config_views(it.seq()) == all,
            conversions_of(all.take(it.index())) == Ok::<Seq<ConversionView>, ConvertError>(
                conversion_views(conversions@),
            ),
    {
        let ghost before = conversion_views(conversions@);
        let ghost k = it.index();
        assert(all[k] == config@);
        assert(all.take(k + 1).drop_last() =~= all.take(k));
        match config.into_deployment() {
            Ok(c) => {
                conversions.push(c);
                assert(conversion_views(conversions@) =~= before.push(c@));
            },
            Err(e) => {
                proof {
                    lemma_conversions_first_error(all, k);
                }
                return Err(e);
            },
        }
    }
    assert(all.take(all.len() as int) =~= all);
    Ok(conversions)
}

impl DeploymentConfigOrList {
    /// The resources to convert, in order.
    pub fn into_items(self) -> (items: Vec<DeploymentConfig>)
        ensures
            config_views(items@) == self@.items(),
    {
        match self {
            DeploymentConfigOrList::DeploymentConfig(c) => {
                let mut items: Vec<DeploymentConfig> = Vec::new();
                items.push(c);
                assert(config_views(items@) =~= seq![c@]);
                items
            },
            DeploymentConfigOrList::List(l) => l,
        }
    }

    /// Converts every resource of the input and lays out the steps that
    /// write the deployments out.
    pub fn into_output(self) -> (r: Result<Vec<OutputStep>, ConvertError>)
        ensures
            output_result(r) == output_of(self@),
    {
        match convert_all(self.into_items()) {
            Ok(conversions) => Ok(output_plan(conversions)),
            Err(e) => Err(e),
        }
    }
}

} // verus!
