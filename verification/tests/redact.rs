use redactor::model_config::{ModelConfig, ModelConfigError};
use redactor::redact::{redaction_model, set_options};
use redactor::settings::{PreparedOptions, SettingsAction, SettingsEvent, SettingsMachine};
use redactor::types::{LLMModel, NERModel, RedactError, RedactOptions, UpdateRedactError};

fn ner(types: &[&str]) -> RedactOptions {
    RedactOptions::NER(NERModel {
        model_name: "dslim/bert-base-NER".to_string(),
        entity_types: types.iter().map(|s| s.to_string()).collect(),
    })
}

fn llm() -> RedactOptions {
    RedactOptions::LLM(LLMModel { model_name: "some-llm".to_string(), prompt: "redact names".to_string() })
}

fn bert_ner_config() -> ModelConfig {
    let mut cfg = ModelConfig::new(vec!["BertForTokenClassification".to_string()]);
    for (id, label) in [("0", "O"), ("1", "B-PER"), ("2", "B-LOC"), ("3", "B-MISC")] {
        cfg.insert_label(id.to_string(), label.to_string());
    }
    cfg
}

/// Runs a successful update of `options` and returns what it prepared.
fn prepare(options: &RedactOptions, api: u32) -> PreparedOptions<u32> {
    let (mut machine, action) = SettingsMachine::start(options);
    assert!(matches!(action, SettingsAction::BuildApi(_)));
    machine.step(SettingsEvent::ApiBuilt(Ok(())));
    machine.step(SettingsEvent::ConfigFetched(Ok(bert_ner_config())));
    for _ in 0..4 {
        machine.step(SettingsEvent::FileFetched);
    }
    assert!(matches!(machine.step(SettingsEvent::ModelFetched(Ok(()))), SettingsAction::Finish(Ok(()))));
    machine.prepared(api).expect("a successful update prepares its options")
}

#[test]
fn request_needs_options_then_api_then_ner_options() {
    let none: Option<RedactOptions> = None;
    let ready: Option<u8> = Some(1);
    let missing: Option<u8> = None;
    assert!(matches!(redaction_model(&none, &ready), Err(RedactError::OptionsNotInitialized)));
    assert!(matches!(redaction_model(&none, &missing), Err(RedactError::OptionsNotInitialized)));
    assert!(matches!(redaction_model(&Some(ner(&["PER"])), &missing), Err(RedactError::ApiNotInitialized)));
    assert!(matches!(redaction_model(&Some(llm()), &missing), Err(RedactError::ApiNotInitialized)));
    assert!(matches!(redaction_model(&Some(llm()), &ready), Err(RedactError::NotSupportingLLMModel)));
    let options = Some(ner(&["PER", "LOC"]));
    let model = redaction_model(&options, &ready).unwrap();
    assert_eq!(model.model_name, "dslim/bert-base-NER");
    assert_eq!(model.entity_types, vec!["PER".to_string(), "LOC".to_string()]);
}

#[test]
fn successful_update_is_what_later_requests_see() {
    let mut options: Option<RedactOptions> = None;
    let mut api: Option<u32> = None;
    let r = set_options(&mut options, &mut api, Ok(prepare(&ner(&["LOC"]), 7)));
    assert!(r.is_ok());
    assert_eq!(api, Some(7));
    let model = redaction_model(&options, &api).unwrap();
    assert_eq!(model.entity_types, vec!["LOC".to_string()]);
}

#[test]
fn failed_update_changes_nothing() {
    let mut options: Option<RedactOptions> = None;
    let mut api: Option<u32> = None;
    let r = set_options(
        &mut options,
        &mut api,
        Err(UpdateRedactError::ModelConfigError(ModelConfigError::UnsupportedEntityTypes(vec!["DATE".to_string()]))),
    );
    assert!(matches!(
        r,
        Err(UpdateRedactError::ModelConfigError(ModelConfigError::UnsupportedEntityTypes(ref v))) if v == &vec!["DATE".to_string()]
    ));
    assert!(options.is_none());
    assert!(api.is_none());
    assert!(matches!(redaction_model(&options, &api), Err(RedactError::OptionsNotInitialized)));

    set_options(&mut options, &mut api, Ok(prepare(&ner(&["PER"]), 1))).unwrap();
    let r = set_options(&mut options, &mut api, Err(UpdateRedactError::NotSupportingLLMModel));
    assert!(matches!(r, Err(UpdateRedactError::NotSupportingLLMModel)));
    assert!(matches!(options, Some(RedactOptions::NER(_))));
    assert_eq!(api, Some(1));
}

#[test]
fn updates_keep_options_and_access_together() {
    let mut options: Option<RedactOptions> = None;
    let mut api: Option<u32> = None;
    let (_, action) = SettingsMachine::start(&llm());
    match action {
        SettingsAction::Finish(Err(e)) => assert!(set_options(&mut options, &mut api, Err(e)).is_err()),
        _ => panic!("LLM options are refused"),
    }
    assert!(options.is_none() && api.is_none());
    set_options(&mut options, &mut api, Ok(prepare(&ner(&["MISC"]), 3))).unwrap();
    set_options(&mut options, &mut api, Ok(prepare(&ner(&["PER", "LOC"]), 4))).unwrap();
    assert!(options.is_some() && api == Some(4));
    let model = redaction_model(&options, &api).unwrap();
    assert_eq!(model.entity_types, vec!["PER".to_string(), "LOC".to_string()]);
}
