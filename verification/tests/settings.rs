use redactor::model_config::{ModelConfig, ModelConfigError};
use redactor::settings::{SettingsAction, SettingsEvent, SettingsMachine};
use redactor::types::{DownloadModelError, LLMModel, NERModel, RedactOptions, UpdateRedactError};
use hf_hub::api::tokio::ApiError;

fn ner(types: &[&str]) -> RedactOptions {
    RedactOptions::NER(NERModel {
        model_name: "dslim/bert-base-NER".to_string(),
        entity_types: types.iter().map(|s| s.to_string()).collect(),
    })
}

fn bert_ner_config() -> ModelConfig {
    let mut cfg = ModelConfig::new(vec!["BertForTokenClassification".to_string()]);
    for (id, label) in [("0", "O"), ("1", "B-PER"), ("2", "I-PER"), ("3", "B-LOC"), ("4", "B-MISC")] {
        cfg.insert_label(id.to_string(), label.to_string());
    }
    cfg
}

fn api_error() -> ApiError {
    ApiError::IoError(std::io::Error::new(std::io::ErrorKind::Other, "offline"))
}

fn file_of(action: &SettingsAction) -> Option<String> {
    match action {
        SettingsAction::FetchFile(f) => Some(f.clone()),
        _ => None,
    }
}

#[test]
fn llm_update_is_refused_without_outside_work() {
    let options = RedactOptions::LLM(LLMModel { model_name: "m".to_string(), prompt: "p".to_string() });
    let (mut machine, action) = SettingsMachine::start(&options);
    assert!(matches!(action, SettingsAction::Finish(Err(UpdateRedactError::NotSupportingLLMModel))));
    assert!(matches!(machine.step(SettingsEvent::FileFetched), SettingsAction::Unexpected));
}

#[test]
fn successful_update_fetches_config_files_and_weights_in_order() {
    let (mut machine, action) = SettingsMachine::start(&ner(&["PER", "LOC"]));
    match action {
        SettingsAction::BuildApi(name) => assert_eq!(name, "dslim/bert-base-NER"),
        _ => panic!("expected BuildApi"),
    }
    assert!(matches!(machine.step(SettingsEvent::ApiBuilt(Ok(()))), SettingsAction::FetchConfig));
    let action = machine.step(SettingsEvent::ConfigFetched(Ok(bert_ner_config())));
    assert_eq!(file_of(&action).as_deref(), Some("model.safetensors"));
    let action = machine.step(SettingsEvent::FileFetched);
    assert_eq!(file_of(&action).as_deref(), Some("vocab.txt"));
    let action = machine.step(SettingsEvent::FileFetched);
    assert_eq!(file_of(&action).as_deref(), Some("tokenizer_config.json"));
    let action = machine.step(SettingsEvent::FileFetched);
    assert_eq!(file_of(&action).as_deref(), Some("special_tokens_map.json"));
    match machine.step(SettingsEvent::FileFetched) {
        SettingsAction::FetchModel(f) => assert_eq!(f, "model.safetensors"),
        _ => panic!("expected FetchModel"),
    }
    assert!(matches!(machine.step(SettingsEvent::ModelFetched(Ok(()))), SettingsAction::Finish(Ok(()))));
    assert!(matches!(machine.step(SettingsEvent::ModelFetched(Ok(()))), SettingsAction::Unexpected));
}

#[test]
fn api_failure_ends_the_update() {
    let (mut machine, _) = SettingsMachine::start(&ner(&["PER"]));
    assert!(matches!(
        machine.step(SettingsEvent::ApiBuilt(Err(api_error()))),
        SettingsAction::Finish(Err(UpdateRedactError::HuggingFace(ApiError::IoError(_))))
    ));
}

#[test]
fn config_download_failure_ends_the_update() {
    let (mut machine, _) = SettingsMachine::start(&ner(&["PER"]));
    machine.step(SettingsEvent::ApiBuilt(Ok(())));
    let err = DownloadModelError::IoError(std::io::Error::new(std::io::ErrorKind::NotFound, "config.json"));
    assert!(matches!(
        machine.step(SettingsEvent::ConfigFetched(Err(err))),
        SettingsAction::Finish(Err(UpdateRedactError::DownloadModelError(DownloadModelError::IoError(_))))
    ));
}

#[test]
fn unsupported_entity_types_end_the_update_before_any_model_file() {
    let (mut machine, _) = SettingsMachine::start(&ner(&["PER", "DATE", "MONEY"]));
    machine.step(SettingsEvent::ApiBuilt(Ok(())));
    match machine.step(SettingsEvent::ConfigFetched(Ok(bert_ner_config()))) {
        SettingsAction::Finish(Err(UpdateRedactError::ModelConfigError(ModelConfigError::UnsupportedEntityTypes(v)))) => {
            assert_eq!(v, vec!["DATE".to_string(), "MONEY".to_string()])
        }
        _ => panic!("expected an unsupported-types failure"),
    }
    assert!(matches!(machine.step(SettingsEvent::FileFetched), SettingsAction::Unexpected));
}

#[test]
fn unusable_config_ends_the_update() {
    let (mut machine, _) = SettingsMachine::start(&ner(&["PER"]));
    machine.step(SettingsEvent::ApiBuilt(Ok(())));
    let cfg = ModelConfig::new(vec!["BertModel".to_string()]);
    assert!(matches!(
        machine.step(SettingsEvent::ConfigFetched(Ok(cfg))),
        SettingsAction::Finish(Err(UpdateRedactError::ModelConfigError(ModelConfigError::NotTokenClassifier)))
    ));
}

#[test]
fn weights_failure_ends_the_update() {
    let (mut machine, _) = SettingsMachine::start(&ner(&["LOC"]));
    machine.step(SettingsEvent::ApiBuilt(Ok(())));
    machine.step(SettingsEvent::ConfigFetched(Ok(bert_ner_config())));
    for _ in 0..4 {
        machine.step(SettingsEvent::FileFetched);
    }
    assert!(matches!(
        machine.step(SettingsEvent::ModelFetched(Err(DownloadModelError::ApiError(api_error())))),
        SettingsAction::Finish(Err(UpdateRedactError::DownloadModelError(DownloadModelError::ApiError(_))))
    ));
}

#[test]
fn reports_out_of_turn_change_nothing() {
    let (mut machine, _) = SettingsMachine::start(&ner(&["PER"]));
    assert!(matches!(machine.step(SettingsEvent::FileFetched), SettingsAction::Unexpected));
    assert!(matches!(machine.step(SettingsEvent::ModelFetched(Ok(()))), SettingsAction::Unexpected));
    assert!(matches!(machine.step(SettingsEvent::ApiBuilt(Ok(()))), SettingsAction::FetchConfig));
    assert!(matches!(machine.step(SettingsEvent::ApiBuilt(Ok(()))), SettingsAction::Unexpected));
    assert!(matches!(
        machine.step(SettingsEvent::ConfigFetched(Ok(bert_ner_config()))),
        SettingsAction::FetchFile(_)
    ));
}

#[test]
fn only_a_successful_update_prepares_options() {
    let (mut machine, _) = SettingsMachine::start(&ner(&["PER"]));
    machine.step(SettingsEvent::ApiBuilt(Ok(())));
    let cfg = ModelConfig::new(vec!["BertModel".to_string()]);
    machine.step(SettingsEvent::ConfigFetched(Ok(cfg)));
    assert!(machine.prepared(0u8).is_none());

    let (machine, _) = SettingsMachine::start(&ner(&["PER"]));
    assert!(machine.prepared(0u8).is_none());

    let (mut machine, _) = SettingsMachine::start(&ner(&["PER", "LOC"]));
    machine.step(SettingsEvent::ApiBuilt(Ok(())));
    machine.step(SettingsEvent::ConfigFetched(Ok(bert_ner_config())));
    for _ in 0..4 {
        machine.step(SettingsEvent::FileFetched);
    }
    machine.step(SettingsEvent::ModelFetched(Ok(())));
    let (options, api) = machine.prepared(9u8).expect("prepared").into_parts();
    assert_eq!(api, 9);
    match options {
        RedactOptions::NER(n) => {
            assert_eq!(n.model_name, "dslim/bert-base-NER");
            assert_eq!(n.entity_types, vec!["PER".to_string(), "LOC".to_string()]);
        }
        _ => panic!("prepared options are named-entity options"),
    }
}
