//! The deployment strategy of a `DeploymentConfig`, and what becomes of it
//! in a `Deployment`.

use crate::deployment::{DeploymentStrategy, DeploymentStrategyView};
pub use crate::deployment_strategy_params::{
    CustomDeploymentStrategyParams,
    RecreateDeploymentStrategyParams,
    RollingDeploymentStrategyParams,
};
use crate::string_map::{opt_map, StringMap};
use crate::text::{
    lemma_replace_all_without_occurrence,
    occurs,
    opt_text,
    opt_text_is,
    replace,
    replace_all,
};
use vstd::prelude::*;

verus! {

/// The type tag of the rolling strategy of a `DeploymentConfig`.
pub const ROLLING: &'static str = "Rolling";

/// The type tag of the recreate strategy.
pub const RECREATE: &'static str = "Recreate";

/// What `ROLLING` is called in a `Deployment`.
pub const ROLLING_UPDATE: &'static str = "RollingUpdate";

/// `ResourceRequirements` of `k8s_openapi`: the resources that running a
/// deployment may use. The conversion never looks into it.
#[verifier::external_type_specification]
#[verifier::external_body]
pub struct ExResourceRequirements(k8s_openapi::api::core::v1::ResourceRequirements);

/// How a `DeploymentConfig` performs a deployment: a type tag, and one
/// block of parameters for each type. Only the block that the tag names
/// counts.
#[derive(Clone, Debug, PartialEq)]
pub struct DeploymentConfigStrategy {
    /// The name of the strategy.
    pub type_: Option<String>,
    pub custom_params: Option<CustomDeploymentStrategyParams>,
    pub recreate_params: Option<RecreateDeploymentStrategyParams>,
    pub rolling_params: Option<RollingDeploymentStrategyParams>,
    /// The resources that the deployment and its hooks may use.
    pub resources: Option<k8s_openapi::api::core::v1::ResourceRequirements>,
    /// Labels for the deployer and hook pods.
    pub labels: Option<StringMap>,
    /// Annotations for the deployer and hook pods.
    pub annotations: Option<StringMap>,
    /// How long the deployer pods may be active before they are terminated.
    pub active_deadline_seconds: Option<i64>,
}

/// The contents of a `DeploymentConfigStrategy`.
pub struct DeploymentConfigStrategyView {
    pub type_: Option<Seq<char>>,
    pub custom_params: Option<CustomDeploymentStrategyParams>,
    pub recreate_params: Option<RecreateDeploymentStrategyParams>,
    pub rolling_params: Option<RollingDeploymentStrategyParams>,
    pub resources: Option<k8s_openapi::api::core::v1::ResourceRequirements>,
    pub labels: Option<Map<Seq<char>, Seq<char>>>,
    pub annotations: Option<Map<Seq<char>, Seq<char>>>,
    pub active_deadline_seconds: Option<i64>,
}

impl View for DeploymentConfigStrategy {
    type V = DeploymentConfigStrategyView;

    open spec fn view(&self) -> DeploymentConfigStrategyView {
        DeploymentConfigStrategyView {
            type_: opt_text(self.type_),
            custom_params: self.custom_params,
            recreate_params: self.recreate_params,
            rolling_params: self.rolling_params,
            resources: self.resources,
            labels: opt_map(self.labels),
            annotations: opt_map(self.annotations),
            active_deadline_seconds: self.active_deadline_seconds,
        }
    }
}

/// The strategy held by an optional `DeploymentConfigStrategy`.
pub open spec fn opt_config_strategy(o: Option<DeploymentConfigStrategy>) -> Option<
    DeploymentConfigStrategyView,
> {
    match o {
        Some(s) => Some(s@),
        None => None,
    }
}

/// The type tag of a `Deployment` strategy for the tag `tag` of a
/// `DeploymentConfig`: every `Rolling` in it reads `RollingUpdate`.
pub open spec fn deployment_strategy_type(tag: Seq<char>) -> Seq<char> {
    replace_all(tag, ROLLING@, ROLLING_UPDATE@)
}

/// The number of seconds `t` as a 32-bit value: `t` itself where it fits,
/// else the nearest 32-bit value.
pub open spec fn saturated_seconds(t: i64) -> i32 {
    if t > i32::MAX {
        i32::MAX
    } else if t < i32::MIN {
        i32::MIN
    } else {
        t as i32
    }
}

impl DeploymentConfigStrategyView {
    /// The timeout of the strategy that the type tag names: that of the
    /// rolling parameters for `Rolling`, that of the recreate parameters for
    /// `Recreate`, none for any other tag.
    pub open spec fn timeout_seconds(self) -> Option<i64> {
        if self.type_ == Some(ROLLING@) {
            match self.rolling_params {
                Some(p) => p.timeout_seconds,
                None => None,
            }
        } else if self.type_ == Some(RECREATE@) {
            match self.recreate_params {
                Some(p) => p.timeout_seconds,
                None => None,
            }
        } else {
            None
        }
    }

    /// The progress deadline of the deployment: the timeout, as a 32-bit
    /// number of seconds.
    pub open spec fn progress_deadline_seconds(self) -> Option<i32> {
        match self.timeout_seconds() {
            Some(t) => Some(saturated_seconds(t)),
            None => None,
        }
    }

    /// The strategy of the deployment: the type tag rewritten, and the
    /// bounds of the rolling parameters wherever there are rolling
    /// parameters.
    pub open spec fn deployment_strategy(self) -> DeploymentStrategyView {
        DeploymentStrategyView {
            type_: match self.type_ {
                Some(t) => Some(deployment_strategy_type(t)),
                None => None,
            },
            rolling_update: match self.rolling_params {
                Some(p) => Some(p.rolling_update()),
                None => None,
            },
        }
    }
}

/// `t` as a 32-bit number of seconds.
pub fn saturate_seconds(t: i64) -> (s: i32)
    ensures
        s == saturated_seconds(t),
{
    if t > 2147483647i64 {
        i32::MAX
    } else if t < -2147483648i64 {
        i32::MIN
    } else {
        t as i32
    }
}

impl DeploymentConfigStrategy {
    /// The timeout of the strategy that the type tag names.
    pub fn timeout_seconds(&self) -> (t: Option<i64>)
        ensures
            t == self@.timeout_seconds(),
    {
        if opt_text_is(&self.type_, ROLLING) {
            match &self.rolling_params {
                Some(p) => p.timeout_seconds,
                None => None,
            }
        } else if opt_text_is(&self.type_, RECREATE) {
            match &self.recreate_params {
                Some(p) => p.timeout_seconds,
                None => None,
            }
        } else {
            None
        }
    }

    /// The progress deadline that the deployment gets from this strategy.
    pub fn progress_deadline_seconds(&self) -> (d: Option<i32>)
        ensures
            d == self@.progress_deadline_seconds(),
    {
        match self.timeout_seconds() {
            Some(t) => Some(saturate_seconds(t)),
            None => None,
        }
    }

    /// The strategy of the deployment.
    pub fn into_deployment_strategy(self) -> (s: DeploymentStrategy)
        ensures
            s@ == self@.deployment_strategy(),
    {
        let type_ = match self.type_ {
            Some(t) => Some(replace(t.as_str(), ROLLING, ROLLING_UPDATE)),
            None => None,
        };
        let rolling_update = match self.rolling_params {
            Some(p) => Some(p.into_rolling_update()),
            None => None,
        };
        DeploymentStrategy { type_, rolling_update }
    }
}

/// A strategy tagged `Rolling` becomes one tagged `RollingUpdate`, with the
/// timeout of its rolling parameters as the progress deadline.
pub proof fn lemma_rolling_strategy(s: DeploymentConfigStrategyView)
    requires
        s.type_ == Some(ROLLING@),
    ensures
        s.deployment_strategy().type_ == Some(ROLLING_UPDATE@),
        s.progress_deadline_seconds() == match s.rolling_params {
            Some(p) => match p.timeout_seconds {
                Some(t) => Some(saturated_seconds(t)),
                None => None,
            },
            None => None,
        },
{
    reveal_strlit("Rolling");
    reveal_strlit("RollingUpdate");
    let tag = ROLLING@;
    assert(tag.subrange(0, 7) =~= tag);
    assert(tag.subrange(7, 7) =~= Seq::<char>::empty());
    assert(replace_all(tag.subrange(7, 7), ROLLING@, ROLLING_UPDATE@) == Seq::<char>::empty());
    assert(ROLLING_UPDATE@ + Seq::<char>::empty() =~= ROLLING_UPDATE@);
}

/// A strategy tagged `Recreate` keeps its tag, with the timeout of its
/// recreate parameters as the progress deadline.
pub proof fn lemma_recreate_strategy(s: DeploymentConfigStrategyView)
    requires
        s.type_ == Some(RECREATE@),
    ensures
        s.deployment_strategy().type_ == Some(RECREATE@),
        s.progress_deadline_seconds() == match s.recreate_params {
            Some(p) => match p.timeout_seconds {
                Some(t) => Some(saturated_seconds(t)),
                None => None,
            },
            None => None,
        },
{
    reveal_strlit("Rolling");
    reveal_strlit("Recreate");
    let tag = RECREATE@;
    assert forall|at: int| !occurs(tag, ROLLING@, at) by {
        if occurs(tag, ROLLING@, at) {
            assert(at == 0 || at == 1);
            assert(tag.subrange(at, at + 7)[1] == ROLLING@[1]);
        }
    }
    lemma_replace_all_without_occurrence(tag, ROLLING@, ROLLING_UPDATE@);
}

/// A strategy whose tag is neither `Rolling` nor `Recreate` gives the
/// deployment no progress deadline.
pub proof fn lemma_other_strategy_has_no_deadline(s: DeploymentConfigStrategyView)
    requires
        s.type_ != Some(ROLLING@),
        s.type_ != Some(RECREATE@),
    ensures
        s.progress_deadline_seconds() is None,
{
}

/// A timeout that fits in 32 bits is the progress deadline as it stands.
pub proof fn lemma_timeout_in_range(t: i64)
    requires
        i32::MIN <= t <= i32::MAX,
    ensures
        saturated_seconds(t) == t,
{
}

} // verus!
