use dc_to_deployment::annotations::{
    annotation_or_error, encode_trigger_annotation, finalize_metadata, ConvertError,
    LAST_APPLIED_ANNOTATION, TRIGGERS_ANNOTATION,
};
use dc_to_deployment::deployment::{DeploymentStrategy, LabelSelector, RollingUpdateDeployment};
use dc_to_deployment::deployment_config::{
    Conversion, DeploymentConfig, DeploymentConfigSpec, Diagnostic, PAUSED_WARNING,
};
use dc_to_deployment::deployment_config_strategy::DeploymentConfigStrategy;
use dc_to_deployment::deployment_strategy_params::{
    CustomDeploymentStrategyParams, RollingDeploymentStrategyParams,
};
use dc_to_deployment::deployment_trigger_policy::{
    DeploymentTriggerImageChangeParams, DeploymentTriggerPolicy, KubernetesImageTrigger,
};
use dc_to_deployment::object_meta::{ObjectMeta, ObjectReference};
use dc_to_deployment::pod_template::{Container, PodSpec, PodTemplateSpec, PLACEHOLDER_IMAGE};
use dc_to_deployment::string_map::StringMap;
use k8s_openapi::apimachinery::pkg::util::intstr::IntOrString;

fn map_of(entries: &[(&str, &str)]) -> StringMap {
    let mut m = StringMap::new();
    for (k, v) in entries {
        m.insert(k.to_string(), v.to_string());
    }
    m
}

fn container(name: &str, image: Option<&str>) -> Container {
    Container { name: name.to_string(), image: image.map(|i| i.to_string()) }
}

fn template(containers: Vec<Container>) -> PodTemplateSpec {
    PodTemplateSpec {
        metadata: Some(ObjectMeta { labels: Some(map_of(&[("app", "web")])), ..ObjectMeta::default() }),
        spec: Some(PodSpec { containers }),
    }
}

fn config(triggers: Option<Vec<DeploymentTriggerPolicy>>, paused: Option<bool>) -> DeploymentConfig {
    DeploymentConfig {
        metadata: ObjectMeta {
            name: Some("web".to_string()),
            namespace: Some("shop".to_string()),
            labels: Some(map_of(&[("app", "web")])),
            annotations: None,
        },
        spec: DeploymentConfigSpec {
            strategy: None,
            min_ready_seconds: Some(5),
            triggers,
            replicas: Some(3),
            revision_history_limit: Some(10),
            test: false,
            paused,
            selector: Some(map_of(&[("app", "web")])),
            template: template(vec![container("a", None), container("b", Some("nginx:1.2"))]),
        },
    }
}

fn tag(name: &str) -> ObjectReference {
    ObjectReference {
        kind: Some("ImageStreamTag".to_string()),
        name: Some(name.to_string()),
        ..ObjectReference::default()
    }
}

fn image_change(from: &str, names: Vec<&str>) -> DeploymentTriggerPolicy {
    DeploymentTriggerPolicy {
        type_: Some("ImageChange".to_string()),
        image_change_params: Some(DeploymentTriggerImageChangeParams {
            automatic: Some(true),
            container_names: Some(names.into_iter().map(|s| s.to_string()).collect()),
            from: tag(from),
            last_triggered_image: None,
        }),
    }
}

fn config_change() -> DeploymentTriggerPolicy {
    DeploymentTriggerPolicy { type_: Some("ConfigChange".to_string()), image_change_params: None }
}

fn converted(c: DeploymentConfig) -> Conversion {
    c.into_deployment().unwrap()
}

#[test]
fn annotation_keys_are_the_documented_ones() {
    assert_eq!(TRIGGERS_ANNOTATION, "image.openshift.io/triggers");
    assert_eq!(LAST_APPLIED_ANNOTATION, "kubectl.kubernetes.io/last-applied-configuration");
    assert_eq!(PLACEHOLDER_IMAGE, " ");
}

#[test]
fn absent_triggers_pause_the_deployment() {
    for paused in [None, Some(false), Some(true)] {
        let c = converted(config(None, paused));
        assert_eq!(c.deployment.spec.unwrap().paused, Some(true));
        assert_eq!(c.diagnostics, vec![Diagnostic::PausedWithoutTriggers]);
    }
}

#[test]
fn empty_triggers_pause_the_deployment() {
    for paused in [None, Some(false), Some(true)] {
        let c = converted(config(Some(vec![]), paused));
        assert_eq!(c.deployment.spec.unwrap().paused, Some(true));
        assert_eq!(c.diagnostics, vec![Diagnostic::PausedWithoutTriggers]);
        assert_eq!(c.deployment.metadata.annotations, None);
    }
}

#[test]
fn the_pause_notice_reads_as_documented() {
    assert_eq!(
        Diagnostic::PausedWithoutTriggers.message(),
        "WARNING: deployment has been set to paused because there are no triggers in the DeploymentConfig"
    );
    assert_eq!(Diagnostic::PausedWithoutTriggers.message(), PAUSED_WARNING);
}

#[test]
fn image_change_trigger_becomes_an_annotation() {
    let c = converted(config(Some(vec![image_change("app:latest", vec!["a", "b"])]), None));
    let annotations = c.deployment.metadata.annotations.unwrap();
    assert_eq!(annotations.len(), 1);
    let text = annotations.get("image.openshift.io/triggers").unwrap();
    let value: serde_json::Value = serde_json::from_str(text).unwrap();
    let array = value.as_array().unwrap();
    assert_eq!(array.len(), 2);
    assert_eq!(
        array[0]["fieldPath"].as_str(),
        Some("spec.template.spec.containers[?(@.name=\"a\")].image")
    );
    assert_eq!(
        array[1]["fieldPath"].as_str(),
        Some("spec.template.spec.containers[?(@.name=\"b\")].image")
    );
    for descriptor in array {
        assert_eq!(descriptor.as_object().unwrap().len(), 2);
        assert_eq!(descriptor["from"]["kind"].as_str(), Some("ImageStreamTag"));
        assert_eq!(descriptor["from"]["name"].as_str(), Some("app:latest"));
    }
    assert_eq!(c.deployment.spec.unwrap().paused, None);
    assert!(c.diagnostics.is_empty());
}

#[test]
fn paused_is_kept_when_there_are_triggers() {
    for paused in [None, Some(false), Some(true)] {
        let c = converted(config(Some(vec![image_change("app:latest", vec!["a"])]), paused));
        assert_eq!(c.deployment.spec.unwrap().paused, paused);
        assert!(c.diagnostics.is_empty());
    }
}

#[test]
fn config_change_trigger_alone_gives_no_annotation_and_no_pause() {
    for paused in [None, Some(false), Some(true)] {
        let c = converted(config(Some(vec![config_change()]), paused));
        assert_eq!(c.deployment.metadata.annotations, None);
        assert_eq!(c.deployment.spec.unwrap().paused, paused);
        assert!(c.diagnostics.is_empty());
    }
}

#[test]
fn config_change_trigger_alone_keeps_the_other_annotations() {
    let mut dc = config(Some(vec![config_change()]), Some(false));
    dc.metadata.annotations = Some(map_of(&[("team", "shop")]));
    let c = converted(dc);
    assert_eq!(c.deployment.metadata.annotations, Some(map_of(&[("team", "shop")])));
}

#[test]
fn containers_without_image_get_the_placeholder() {
    let mut dc = config(None, None);
    dc.spec.template = template(vec![
        container("a", None),
        container("b", Some("nginx:1.2")),
        container("c", Some("")),
        container("d", Some(" ")),
    ]);
    let spec = converted(dc).deployment.spec.unwrap();
    assert_eq!(
        spec.template.spec.unwrap().containers,
        vec![
            container("a", Some(" ")),
            container("b", Some("nginx:1.2")),
            container("c", Some(" ")),
            container("d", Some(" ")),
        ]
    );
    assert_eq!(spec.template.metadata.unwrap().labels, Some(map_of(&[("app", "web")])));
}

#[test]
fn default_image_of_one_container() {
    assert_eq!(container("a", None).with_default_image(), container("a", Some(" ")));
    assert_eq!(container("a", Some("")).with_default_image(), container("a", Some(" ")));
    assert_eq!(
        container("a", Some("nginx:1.2")).with_default_image(),
        container("a", Some("nginx:1.2"))
    );
}

#[test]
fn template_without_pod_spec_is_left_alone() {
    let t = PodTemplateSpec { metadata: None, spec: None };
    assert_eq!(t.clone().with_default_images(), t);
    let mut dc = config(None, None);
    dc.spec.template = t.clone();
    assert_eq!(converted(dc).deployment.spec.unwrap().template, t);
}

#[test]
fn template_without_containers_is_left_alone() {
    let t = template(vec![]);
    assert_eq!(t.clone().with_default_images(), t);
    assert_eq!(PodSpec { containers: vec![] }.with_default_images(), PodSpec { containers: vec![] });
}

#[test]
fn last_applied_annotation_is_removed() {
    let mut dc = config(None, None);
    dc.metadata.annotations = Some(map_of(&[
        ("kubectl.kubernetes.io/last-applied-configuration", "{\"kind\":\"DeploymentConfig\"}"),
        ("team", "shop"),
        ("note", ""),
    ]));
    let annotations = converted(dc).deployment.metadata.annotations.unwrap();
    assert!(!annotations.contains_key("kubectl.kubernetes.io/last-applied-configuration"));
    assert_eq!(annotations, map_of(&[("team", "shop"), ("note", "")]));
}

#[test]
fn last_applied_annotation_is_removed_beside_a_trigger_annotation() {
    let mut dc = config(Some(vec![image_change("app:latest", vec!["a"])]), None);
    dc.metadata.annotations = Some(map_of(&[
        ("kubectl.kubernetes.io/last-applied-configuration", "{}"),
        ("team", "shop"),
    ]));
    let annotations = converted(dc).deployment.metadata.annotations.unwrap();
    assert_eq!(annotations.len(), 2);
    assert_eq!(annotations.get("team"), Some(&"shop".to_string()));
    assert!(annotations.contains_key("image.openshift.io/triggers"));
    assert!(!annotations.contains_key("kubectl.kubernetes.io/last-applied-configuration"));
}

#[test]
fn last_applied_annotation_alone_leaves_an_empty_map() {
    let mut dc = config(None, None);
    dc.metadata.annotations =
        Some(map_of(&[("kubectl.kubernetes.io/last-applied-configuration", "{}")]));
    assert_eq!(converted(dc).deployment.metadata.annotations, Some(StringMap::new()));
}

#[test]
fn trigger_annotation_replaces_an_older_one() {
    let mut dc = config(Some(vec![image_change("app:latest", vec!["a"])]), None);
    dc.metadata.annotations = Some(map_of(&[("image.openshift.io/triggers", "[]")]));
    let annotations = converted(dc).deployment.metadata.annotations.unwrap();
    assert_eq!(annotations.len(), 1);
    assert_ne!(annotations.get("image.openshift.io/triggers"), Some(&"[]".to_string()));
}

#[test]
fn finalized_metadata_with_and_without_a_value() {
    let meta = ObjectMeta {
        name: Some("web".to_string()),
        namespace: Some("shop".to_string()),
        labels: Some(map_of(&[("app", "web")])),
        annotations: None,
    };
    assert_eq!(meta.clone().finalized(None), meta);
    let with = meta.clone().finalized(Some("[1]".to_string()));
    assert_eq!(with.name, meta.name);
    assert_eq!(with.namespace, meta.namespace);
    assert_eq!(with.labels, meta.labels);
    assert_eq!(with.annotations, Some(map_of(&[("image.openshift.io/triggers", "[1]")])));
}

#[test]
fn finalize_metadata_encodes_the_triggers() {
    let meta = ObjectMeta::default();
    assert_eq!(finalize_metadata(meta.clone(), &vec![]), Ok(meta.clone()));
    let triggers = vec![KubernetesImageTrigger { from: tag("t:1"), field_path: "p".to_string() }];
    let done = finalize_metadata(meta, &triggers).unwrap();
    assert_eq!(
        done.annotations.unwrap().get("image.openshift.io/triggers"),
        Some(&"[{\"from\":{\"kind\":\"ImageStreamTag\",\"name\":\"t:1\"},\"fieldPath\":\"p\"}]".to_string())
    );
}

#[test]
fn trigger_annotation_is_absent_for_no_triggers() {
    assert_eq!(encode_trigger_annotation(&vec![]), Ok(None));
    let triggers = vec![KubernetesImageTrigger { from: ObjectReference::default(), field_path: "p".to_string() }];
    assert_eq!(
        encode_trigger_annotation(&triggers),
        Ok(Some("[{\"from\":{},\"fieldPath\":\"p\"}]".to_string()))
    );
}

#[test]
fn json_that_could_not_be_written_is_an_encode_error() {
    assert_eq!(annotation_or_error(None), Err(ConvertError::Encode));
    assert_eq!(annotation_or_error(Some("[]".to_string())), Ok(Some("[]".to_string())));
}

#[test]
fn convert_error_is_comparable() {
    assert_eq!(ConvertError::Encode, ConvertError::Encode);
    assert_eq!(format!("{:?}", ConvertError::Encode), "Encode");
}

#[test]
fn scalar_fields_and_selector_pass_through() {
    let spec = converted(config(Some(vec![config_change()]), Some(false))).deployment.spec.unwrap();
    assert_eq!(spec.replicas, Some(3));
    assert_eq!(spec.min_ready_seconds, Some(5));
    assert_eq!(spec.revision_history_limit, Some(10));
    assert_eq!(spec.selector, LabelSelector { match_labels: Some(map_of(&[("app", "web")])) });
    assert_eq!(spec.strategy, None);
    assert_eq!(spec.progress_deadline_seconds, None);
}

#[test]
fn metadata_passes_through() {
    let d = converted(config(None, None)).deployment;
    assert_eq!(d.metadata.name, Some("web".to_string()));
    assert_eq!(d.metadata.namespace, Some("shop".to_string()));
    assert_eq!(d.metadata.labels, Some(map_of(&[("app", "web")])));
}

#[test]
fn absent_selector_gives_a_selector_without_labels() {
    let mut dc = config(None, None);
    dc.spec.selector = None;
    let spec = converted(dc).deployment.spec.unwrap();
    assert_eq!(spec.selector, LabelSelector { match_labels: None });
}

#[test]
fn rolling_strategy_sets_type_and_deadline() {
    let mut dc = config(Some(vec![config_change()]), None);
    dc.spec.strategy = Some(DeploymentConfigStrategy {
        type_: Some("Rolling".to_string()),
        custom_params: None,
        recreate_params: None,
        rolling_params: Some(RollingDeploymentStrategyParams {
            update_period_seconds: None,
            interval_seconds: None,
            timeout_seconds: Some(600),
            max_unavailable: Some(IntOrString::Int(1)),
            max_surge: Some(IntOrString::String("25%".to_string())),
        }),
        resources: None,
        labels: None,
        annotations: None,
        active_deadline_seconds: Some(21600),
    });
    let spec = converted(dc).deployment.spec.unwrap();
    assert_eq!(spec.progress_deadline_seconds, Some(600));
    assert_eq!(
        spec.strategy,
        Some(DeploymentStrategy {
            type_: Some("RollingUpdate".to_string()),
            rolling_update: Some(RollingUpdateDeployment {
                max_unavailable: Some(IntOrString::Int(1)),
                max_surge: Some(IntOrString::String("25%".to_string())),
            }),
        })
    );
}

#[test]
fn custom_strategy_sets_no_deadline() {
    let mut dc = config(Some(vec![config_change()]), None);
    dc.spec.strategy = Some(DeploymentConfigStrategy {
        type_: Some("Custom".to_string()),
        custom_params: Some(CustomDeploymentStrategyParams {}),
        recreate_params: None,
        rolling_params: None,
        resources: None,
        labels: None,
        annotations: None,
        active_deadline_seconds: None,
    });
    let spec = converted(dc).deployment.spec.unwrap();
    assert_eq!(spec.progress_deadline_seconds, None);
    assert_eq!(
        spec.strategy,
        Some(DeploymentStrategy { type_: Some("Custom".to_string()), rolling_update: None })
    );
}

#[test]
fn spec_alone_assembles_with_the_pause_rule() {
    let with = config(Some(vec![config_change()]), Some(false)).spec.into_deployment_spec();
    assert_eq!(with.paused, Some(false));
    let without = config(Some(vec![]), Some(false)).spec.into_deployment_spec();
    assert_eq!(without.paused, Some(true));
    assert_eq!(
        without.template,
        template(vec![container("a", None), container("b", Some("nginx:1.2"))])
    );
}

#[test]
fn spec_lists_its_image_triggers() {
    let dc = config(Some(vec![config_change(), image_change("app:latest", vec!["a"])]), None);
    let triggers = dc.spec.kubernetes_image_triggers();
    assert_eq!(triggers.len(), 1);
    assert_eq!(triggers[0].from, tag("app:latest"));
    assert!(config(None, None).spec.kubernetes_image_triggers().is_empty());
}

#[test]
fn assemble_takes_the_annotation_value_as_given() {
    let c = config(Some(vec![config_change()]), Some(true)).assemble(Some("[]".to_string()));
    assert_eq!(
        c.deployment.metadata.annotations,
        Some(map_of(&[("image.openshift.io/triggers", "[]")]))
    );
    assert_eq!(c.deployment.spec.unwrap().paused, Some(true));
    let c = config(None, Some(false)).assemble(None);
    assert_eq!(c.deployment.metadata.annotations, None);
    assert_eq!(c.diagnostics, vec![Diagnostic::PausedWithoutTriggers]);
}

#[test]
fn two_triggers_naming_one_container_give_two_descriptors() {
    let c = converted(config(
        Some(vec![image_change("one:1", vec!["a"]), image_change("two:2", vec!["a"])]),
        None,
    ));
    let annotations = c.deployment.metadata.annotations.unwrap();
    let value: serde_json::Value =
        serde_json::from_str(annotations.get("image.openshift.io/triggers").unwrap()).unwrap();
    let array = value.as_array().unwrap();
    assert_eq!(array.len(), 2);
    assert_eq!(array[0]["from"]["name"].as_str(), Some("one:1"));
    assert_eq!(array[1]["from"]["name"].as_str(), Some("two:2"));
    assert_eq!(array[0]["fieldPath"], array[1]["fieldPath"]);
}
