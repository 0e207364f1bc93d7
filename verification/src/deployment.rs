//! The Kubernetes `Deployment` that a conversion produces.

use crate::object_meta::{ObjectMeta, ObjectMetaView};
use crate::pod_template::{PodTemplateSpec, PodTemplateSpecView};
use crate::string_map::{opt_map, StringMap};
use crate::text::opt_text;
use k8s_openapi::apimachinery::pkg::util::intstr::IntOrString;
use vstd::prelude::*;

verus! {

/// `IntOrString` of `k8s_openapi`: a count or a percentage. The conversion
/// hands such values on without looking into them.
#[verifier::external_type_specification]
#[verifier::external_body]
pub struct ExIntOrString(IntOrString);

/// The bounds of a rolling update.
#[derive(Clone, Debug, PartialEq)]
pub struct RollingUpdateDeployment {
    pub max_unavailable: Option<IntOrString>,
    pub max_surge: Option<IntOrString>,
}

/// How a deployment replaces old pods by new ones.
#[derive(Clone, Debug, PartialEq)]
pub struct DeploymentStrategy {
    pub type_: Option<String>,
    pub rolling_update: Option<RollingUpdateDeployment>,
}

/// The contents of a `DeploymentStrategy`.
pub struct DeploymentStrategyView {
    pub type_: Option<Seq<char>>,
    pub rolling_update: Option<RollingUpdateDeployment>,
}

impl View for DeploymentStrategy {
    type V = DeploymentStrategyView;

    open spec fn view(&self) -> DeploymentStrategyView {
        DeploymentStrategyView { type_: opt_text(self.type_), rolling_update: self.rolling_update }
    }
}

/// The strategy held by an optional `DeploymentStrategy`.
pub open spec fn opt_strategy(o: Option<DeploymentStrategy>) -> Option<DeploymentStrategyView> {
    match o {
        Some(s) => Some(s@),
        None => None,
    }
}

/// A selector made of labels alone: it selects the pods that carry all of
/// `match_labels`.
#[derive(Clone, Debug, PartialEq)]
pub struct LabelSelector {
    pub match_labels: Option<StringMap>,
}

/// The contents of a `LabelSelector`.
pub struct LabelSelectorView {
    pub match_labels: Option<Map<Seq<char>, Seq<char>>>,
}

impl View for LabelSelector {
    type V = LabelSelectorView;

    open spec fn view(&self) -> LabelSelectorView {
        LabelSelectorView { match_labels: opt_map(self.match_labels) }
    }
}

/// The desired state of a deployment: its `spec`.
#[derive(Clone, Debug, PartialEq)]
pub struct DeploymentSpec {
    pub replicas: Option<i32>,
    pub selector: LabelSelector,
    pub template: PodTemplateSpec,
    pub min_ready_seconds: Option<i32>,
    pub revision_history_limit: Option<i32>,
    pub paused: Option<bool>,
    pub strategy: Option<DeploymentStrategy>,
    pub progress_deadline_seconds: Option<i32>,
}

/// The contents of a `DeploymentSpec`.
pub struct DeploymentSpecView {
    pub replicas: Option<i32>,
    pub selector: LabelSelectorView,
    pub template: PodTemplateSpecView,
    pub min_ready_seconds: Option<i32>,
    pub revision_history_limit: Option<i32>,
    pub paused: Option<bool>,
    pub strategy: Option<DeploymentStrategyView>,
    pub progress_deadline_seconds: Option<i32>,
}

impl View for DeploymentSpec {
    type V = DeploymentSpecView;

    open spec fn view(&self) -> DeploymentSpecView {
        DeploymentSpecView {
            replicas: self.replicas,
            selector: self.selector@,
            template: self.template@,
            min_ready_seconds: self.min_ready_seconds,
            revision_history_limit: self.revision_history_limit,
            paused: self.paused,
            strategy: opt_strategy(self.strategy),
            progress_deadline_seconds: self.progress_deadline_seconds,
        }
    }
}

/// A deployment: metadata and desired state. A converted deployment has no
/// status yet.
#[derive(Clone, Debug, PartialEq)]
pub struct Deployment {
    pub metadata: ObjectMeta,
    pub spec: Option<DeploymentSpec>,
}

/// The contents of a `Deployment`.
pub struct DeploymentView {
    pub metadata: ObjectMetaView,
    pub spec: Option<DeploymentSpecView>,
}

impl View for Deployment {
    type V = DeploymentView;

    open spec fn view(&self) -> DeploymentView {
        DeploymentView {
            metadata: self.metadata@,
            spec: match self.spec {
                Some(s) => Some(s@),
                None => None,
            },
        }
    }
}

} // verus!
