use dc_to_deployment::deployment_trigger_policy::{
    encode_image_triggers, field_path_of, frame_json_array, frame_trigger_record,
    kubernetes_image_triggers, DeploymentTriggerImageChangeParams, DeploymentTriggerPolicy,
    KubernetesImageTrigger, FIELD_PATH_PREFIX, FIELD_PATH_SUFFIX, IMAGE_CHANGE,
};
use dc_to_deployment::json::{encode_object_reference, encode_string};
use dc_to_deployment::object_meta::ObjectReference;

fn tag(name: &str) -> ObjectReference {
    ObjectReference {
        kind: Some("ImageStreamTag".to_string()),
        name: Some(name.to_string()),
        ..ObjectReference::default()
    }
}

fn image_change(from: &str, names: Option<Vec<&str>>) -> DeploymentTriggerPolicy {
    DeploymentTriggerPolicy {
        type_: Some("ImageChange".to_string()),
        image_change_params: Some(DeploymentTriggerImageChangeParams {
            automatic: Some(true),
            container_names: names.map(|n| n.into_iter().map(|s| s.to_string()).collect()),
            from: tag(from),
            last_triggered_image: None,
        }),
    }
}

fn config_change() -> DeploymentTriggerPolicy {
    DeploymentTriggerPolicy { type_: Some("ConfigChange".to_string()), image_change_params: None }
}

#[test]
fn constants_spell_the_field_path_template() {
    assert_eq!(IMAGE_CHANGE, "ImageChange");
    assert_eq!(FIELD_PATH_PREFIX, "spec.template.spec.containers[?(@.name=\"");
    assert_eq!(FIELD_PATH_SUFFIX, "\")].image");
}

#[test]
fn field_path_names_the_container() {
    assert_eq!(field_path_of("a"), "spec.template.spec.containers[?(@.name=\"a\")].image");
    assert_eq!(field_path_of(""), "spec.template.spec.containers[?(@.name=\"\")].image");
}

#[test]
fn field_path_does_not_escape_the_name() {
    assert_eq!(
        field_path_of("a\"b\\c"),
        "spec.template.spec.containers[?(@.name=\"a\"b\\c\")].image"
    );
}

#[test]
fn one_trigger_for_each_container_name_in_order() {
    let triggers = image_change("app:latest", Some(vec!["a", "b"])).to_kubernetes_image_triggers();
    assert_eq!(
        triggers,
        vec![
            KubernetesImageTrigger {
                from: tag("app:latest"),
                field_path: "spec.template.spec.containers[?(@.name=\"a\")].image".to_string(),
            },
            KubernetesImageTrigger {
                from: tag("app:latest"),
                field_path: "spec.template.spec.containers[?(@.name=\"b\")].image".to_string(),
            },
        ]
    );
}

#[test]
fn params_alone_give_their_triggers() {
    let params = DeploymentTriggerImageChangeParams {
        automatic: None,
        container_names: Some(vec!["x".to_string()]),
        from: tag("t:1"),
        last_triggered_image: Some("old".to_string()),
    };
    let triggers = params.to_kubernetes_image_triggers();
    assert_eq!(triggers.len(), 1);
    assert_eq!(triggers[0].from, tag("t:1"));
    assert_eq!(triggers[0].field_path, field_path_of("x"));
}

#[test]
fn other_trigger_types_give_nothing() {
    assert!(config_change().to_kubernetes_image_triggers().is_empty());
    let mut t = image_change("app:latest", Some(vec!["a"]));
    t.type_ = Some("ConfigChange".to_string());
    assert!(t.to_kubernetes_image_triggers().is_empty());
    t.type_ = None;
    assert!(t.to_kubernetes_image_triggers().is_empty());
    t.type_ = Some("imagechange".to_string());
    assert!(t.to_kubernetes_image_triggers().is_empty());
}

#[test]
fn image_change_without_params_or_names_gives_nothing() {
    let t = DeploymentTriggerPolicy { type_: Some("ImageChange".to_string()), image_change_params: None };
    assert!(t.to_kubernetes_image_triggers().is_empty());
    assert!(image_change("app:latest", None).to_kubernetes_image_triggers().is_empty());
    assert!(image_change("app:latest", Some(vec![])).to_kubernetes_image_triggers().is_empty());
}

#[test]
fn triggers_of_a_list_keep_order_and_duplicates() {
    let policies = vec![
        image_change("one:1", Some(vec!["a", "b"])),
        config_change(),
        image_change("two:2", Some(vec!["a"])),
    ];
    let triggers = kubernetes_image_triggers(&policies);
    let seen: Vec<(String, String)> = triggers
        .iter()
        .map(|t| (t.from.name.clone().unwrap(), t.field_path.clone()))
        .collect();
    assert_eq!(
        seen,
        vec![
            ("one:1".to_string(), field_path_of("a")),
            ("one:1".to_string(), field_path_of("b")),
            ("two:2".to_string(), field_path_of("a")),
        ]
    );
    assert!(kubernetes_image_triggers(&vec![]).is_empty());
    assert!(kubernetes_image_triggers(&vec![config_change()]).is_empty());
}

#[test]
fn json_string_is_quoted_and_escaped() {
    assert_eq!(encode_string("abc"), Some("\"abc\"".to_string()));
    assert_eq!(encode_string(""), Some("\"\"".to_string()));
    assert_eq!(encode_string("a\"b\\c\n"), Some("\"a\\\"b\\\\c\\n\"".to_string()));
}

#[test]
fn json_object_reference_has_the_set_fields_by_their_kubernetes_names() {
    assert_eq!(encode_object_reference(&ObjectReference::default()), Some("{}".to_string()));
    assert_eq!(
        encode_object_reference(&tag("app:latest")),
        Some("{\"kind\":\"ImageStreamTag\",\"name\":\"app:latest\"}".to_string())
    );
    let all = ObjectReference {
        api_version: Some("v1".to_string()),
        field_path: Some("f".to_string()),
        kind: Some("k".to_string()),
        name: Some("n".to_string()),
        namespace: Some("ns".to_string()),
        resource_version: Some("7".to_string()),
        uid: Some("u".to_string()),
    };
    let text = encode_object_reference(&all).unwrap();
    let value: serde_json::Value = serde_json::from_str(&text).unwrap();
    let object = value.as_object().unwrap();
    assert_eq!(object.len(), 7);
    assert_eq!(value["apiVersion"].as_str(), Some("v1"));
    assert_eq!(value["fieldPath"].as_str(), Some("f"));
    assert_eq!(value["kind"].as_str(), Some("k"));
    assert_eq!(value["name"].as_str(), Some("n"));
    assert_eq!(value["namespace"].as_str(), Some("ns"));
    assert_eq!(value["resourceVersion"].as_str(), Some("7"));
    assert_eq!(value["uid"].as_str(), Some("u"));
}

#[test]
fn trigger_record_frames_its_two_fields() {
    assert_eq!(frame_trigger_record("{}", "\"p\""), "{\"from\":{},\"fieldPath\":\"p\"}");
    assert_eq!(frame_trigger_record("A", "B"), "{\"from\":A,\"fieldPath\":B}");
}

#[test]
fn json_array_frames_its_elements() {
    assert_eq!(frame_json_array(&vec![]), "[]");
    assert_eq!(frame_json_array(&vec!["1".to_string()]), "[1]");
    assert_eq!(frame_json_array(&vec!["1".to_string(), "{}".to_string()]), "[1,{}]");
}

#[test]
fn one_trigger_as_json() {
    let t = KubernetesImageTrigger { from: tag("app:latest"), field_path: field_path_of("a") };
    assert_eq!(
        t.to_json(),
        Some(
            "{\"from\":{\"kind\":\"ImageStreamTag\",\"name\":\"app:latest\"},\"fieldPath\":\"spec.template.spec.containers[?(@.name=\\\"a\\\")].image\"}"
                .to_string()
        )
    );
}

#[test]
fn triggers_as_json_array() {
    let triggers = image_change("app:latest", Some(vec!["a", "b"])).to_kubernetes_image_triggers();
    assert_eq!(
        encode_image_triggers(&triggers),
        Some(
            "[{\"from\":{\"kind\":\"ImageStreamTag\",\"name\":\"app:latest\"},\"fieldPath\":\"spec.template.spec.containers[?(@.name=\\\"a\\\")].image\"},{\"from\":{\"kind\":\"ImageStreamTag\",\"name\":\"app:latest\"},\"fieldPath\":\"spec.template.spec.containers[?(@.name=\\\"b\\\")].image\"}]"
                .to_string()
        )
    );
    assert_eq!(encode_image_triggers(&vec![]), Some("[]".to_string()));
}

#[test]
fn json_of_triggers_decodes_to_what_went_in() {
    let policies = vec![
        image_change("we\"ird\\tag", Some(vec!["a\"b", "c\nd"])),
        image_change("plain:1", Some(vec!["e"])),
    ];
    let triggers = kubernetes_image_triggers(&policies);
    let text = encode_image_triggers(&triggers).unwrap();
    let value: serde_json::Value = serde_json::from_str(&text).unwrap();
    let array = value.as_array().unwrap();
    assert_eq!(array.len(), 3);
    for (decoded, trigger) in array.iter().zip(triggers.iter()) {
        assert_eq!(decoded.as_object().unwrap().len(), 2);
        assert_eq!(decoded["fieldPath"].as_str(), Some(trigger.field_path.as_str()));
        assert_eq!(decoded["from"]["kind"].as_str(), Some("ImageStreamTag"));
        assert_eq!(decoded["from"]["name"].as_str(), trigger.from.name.as_deref());
        assert_eq!(decoded["from"].as_object().unwrap().len(), 2);
    }
    assert_eq!(array[0]["fieldPath"].as_str(), Some("spec.template.spec.containers[?(@.name=\"a\"b\")].image"));
}
