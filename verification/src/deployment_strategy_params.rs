//! The parameters of the three deployment strategies of a
//! `DeploymentConfig`.

use crate::deployment::RollingUpdateDeployment;
use k8s_openapi::apimachinery::pkg::util::intstr::IntOrString;
use vstd::prelude::*;

verus! {

/// The input to the `Rolling` strategy.
#[derive(Clone, Debug, PartialEq)]
pub struct RollingDeploymentStrategyParams {
    /// The time to wait between individual pod updates.
    pub update_period_seconds: Option<i64>,
    /// The time to wait between polls of the deployment status after an
    /// update.
    pub interval_seconds: Option<i64>,
    /// The time to wait for updates before giving up.
    pub timeout_seconds: Option<i64>,
    /// How many pods may be unavailable during the update, as a count or a
    /// percentage.
    pub max_unavailable: Option<IntOrString>,
    /// How many pods may be scheduled above the number at the start of the
    /// update, as a count or a percentage.
    pub max_surge: Option<IntOrString>,
}

impl RollingDeploymentStrategyParams {
    /// The bounds of the rolling update that these parameters ask for.
    pub open spec fn rolling_update(self) -> RollingUpdateDeployment {
        RollingUpdateDeployment { max_unavailable: self.max_unavailable, max_surge: self.max_surge }
    }

    /// Hands the surge and availability bounds on, unchanged.
    pub fn into_rolling_update(self) -> (r: RollingUpdateDeployment)
        ensures
            r == self.rolling_update(),
    {
        RollingUpdateDeployment { max_unavailable: self.max_unavailable, max_surge: self.max_surge }
    }
}

/// The input to the `Recreate` strategy.
#[derive(Clone, Debug, PartialEq)]
pub struct RecreateDeploymentStrategyParams {
    /// The time to wait for updates before giving up.
    pub timeout_seconds: Option<i64>,
}

/// The input to the `Custom` strategy. It has no fields that the conversion
/// knows of.
#[derive(Clone, Debug, PartialEq)]
pub struct CustomDeploymentStrategyParams {}

} // verus!
