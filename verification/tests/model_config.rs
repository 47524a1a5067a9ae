use redactor::model_config::{ModelConfig, ModelConfigError};

fn strings(v: &[&str]) -> Vec<String> {
    v.iter().map(|s| s.to_string()).collect()
}

fn config(architectures: &[&str], labels: &[(&str, &str)]) -> ModelConfig {
    let mut cfg = ModelConfig::new(strings(architectures));
    for (id, label) in labels {
        cfg.insert_label(id.to_string(), label.to_string());
    }
    cfg
}

fn bert_ner() -> ModelConfig {
    config(
        &["BertForTokenClassification"],
        &[
            ("0", "O"),
            ("1", "B-MISC"),
            ("2", "I-MISC"),
            ("3", "B-PER"),
            ("4", "I-PER"),
            ("5", "B-ORG"),
            ("6", "I-ORG"),
            ("7", "B-LOC"),
            ("8", "I-LOC"),
        ],
    )
}

#[test]
fn token_classifier_is_recognised_by_architecture_name() {
    assert!(config(&["BertForTokenClassification"], &[]).is_token_classifier());
    assert!(config(&["BertModel", "RobertaForTokenClassification"], &[]).is_token_classifier());
    assert!(!config(&["BertForSequenceClassification"], &[]).is_token_classifier());
    assert!(!config(&[], &[]).is_token_classifier());
    assert!(!config(&["ForTokenClassificatio"], &[]).is_token_classifier());
}

#[test]
fn ner_labels_are_entity_beginnings_without_prefix() {
    let labels = bert_ner().get_ner_labels().unwrap();
    assert_eq!(labels, strings(&["MISC", "PER", "ORG", "LOC"]));
}

#[test]
fn ner_labels_keep_non_ascii_types() {
    let cfg = config(&["XForTokenClassification"], &[("0", "B-Örtlichkeit"), ("1", "B-"), ("2", "b-x")]);
    assert_eq!(cfg.get_ner_labels().unwrap(), strings(&["Örtlichkeit", ""]));
}

#[test]
fn ner_labels_refused_for_non_classifier() {
    let cfg = config(&["BertModel"], &[("0", "B-PER")]);
    assert!(matches!(cfg.get_ner_labels(), Err(ModelConfigError::NotTokenClassifier)));
}

#[test]
fn ner_labels_refused_without_label_mappings() {
    let cfg = config(&["BertForTokenClassification"], &[]);
    assert!(matches!(cfg.get_ner_labels(), Err(ModelConfigError::NoLabelMappings)));
}

#[test]
fn ner_labels_refused_without_entity_labels() {
    let cfg = config(&["BertForTokenClassification"], &[("0", "O"), ("1", "I-PER")]);
    assert!(matches!(cfg.get_ner_labels(), Err(ModelConfigError::NoNerLabels)));
}

#[test]
fn inserting_an_existing_id_replaces_its_label() {
    let cfg = config(
        &["BertForTokenClassification"],
        &[("0", "B-PER"), ("1", "B-LOC"), ("0", "O")],
    );
    assert_eq!(cfg.get_ner_labels().unwrap(), strings(&["LOC"]));
}

#[test]
fn supported_entity_types_are_accepted() {
    assert!(bert_ner().validate_entity_types(&strings(&["PER"])).is_ok());
    assert!(bert_ner().validate_entity_types(&strings(&["PER", "ORG", "LOC", "MISC"])).is_ok());
}

#[test]
fn empty_request_is_accepted() {
    assert!(bert_ner().validate_entity_types(&[]).is_ok());
}

#[test]
fn unsupported_entity_types_are_listed_in_request_order() {
    match bert_ner().validate_entity_types(&strings(&["DATE", "PER", "MONEY", "LOC", "per"])) {
        Err(ModelConfigError::UnsupportedEntityTypes(v)) => {
            assert_eq!(v, strings(&["DATE", "MONEY", "per"]))
        }
        other => panic!("unexpected result: {:?}", other),
    }
}

#[test]
fn duplicate_unsupported_types_are_each_listed() {
    match bert_ner().validate_entity_types(&strings(&["DATE", "DATE"])) {
        Err(ModelConfigError::UnsupportedEntityTypes(v)) => assert_eq!(v, strings(&["DATE", "DATE"])),
        other => panic!("unexpected result: {:?}", other),
    }
}

#[test]
fn validation_reports_configuration_errors_first() {
    let cfg = config(&["BertModel"], &[("0", "B-PER")]);
    assert!(matches!(
        cfg.validate_entity_types(&strings(&["DATE"])),
        Err(ModelConfigError::NotTokenClassifier)
    ));
    let cfg = config(&["BertForTokenClassification"], &[]);
    assert!(matches!(
        cfg.validate_entity_types(&strings(&["PER"])),
        Err(ModelConfigError::NoLabelMappings)
    ));
    let cfg = config(&["BertForTokenClassification"], &[("0", "O")]);
    assert!(matches!(cfg.validate_entity_types(&[]), Err(ModelConfigError::NoNerLabels)));
}

#[test]
fn recognised_types_are_accepted_and_so_are_their_subsets() {
    let cfg = bert_ner();
    let all = cfg.get_ner_labels().unwrap();
    assert!(cfg.validate_entity_types(&all).is_ok());
    assert!(cfg.validate_entity_types(&all[1..3]).is_ok());
}
