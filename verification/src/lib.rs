//! Conversion of OpenShift `DeploymentConfig` resources into Kubernetes
//! `Deployment` resources.
//!
//! A `DeploymentConfig` says things that a `Deployment` has no field for:
//! which image changes start a rollout, how long a rollout may take, that a
//! container's image is filled in later. The conversion keeps them: image
//! change triggers become an annotation, the strategy's timeout becomes the
//! progress deadline, a container without an image gets a placeholder, and
//! a resource without any trigger is paused. Every rule is stated as a
//! contract over the views of the types and proved.
//!
//! [`deployment_config`] holds the resource, its conversion and the order in
//! which converted resources are written out; [`deployment_config_strategy`]
//! and [`deployment_trigger_policy`] hold the rules for strategies and
//! triggers; [`annotations`] and [`pod_template`] those for metadata and
//! containers. [`deployment`] is what comes out. [`json`] is the one place
//! where text is produced by code that is not proved here.

pub mod annotations;
pub mod deployment;
pub mod deployment_config;
pub mod deployment_config_strategy;
pub mod deployment_strategy_params;
pub mod deployment_trigger_policy;
pub mod json;
pub mod object_meta;
pub mod pod_template;
pub mod string_map;
pub mod text;
