//! Redaction options and the errors of the service's operations.
use vstd::prelude::*;

use crate::model_config::ModelConfigError;

verus! {

#[verifier::external_type_specification]
#[verifier::external_body]
pub struct ExApiError(hf_hub::api::tokio::ApiError);

#[verifier::external_type_specification]
#[verifier::external_body]
pub struct ExIoError(std::io::Error);

#[verifier::external_type_specification]
#[verifier::external_body]
pub struct ExJsonError(serde_json::Error);

/// A named-entity-recognition model and the entity types to redact with it.
#[derive(Clone, Debug)]
pub struct NERModel {
    pub model_name: String,
    pub entity_types: Vec<String>,
}

/// A large-language model and the prompt to redact with it.
#[derive(Clone, Debug)]
pub struct LLMModel {
    pub model_name: String,
    pub prompt: String,
}

/// How text is to be redacted.
#[derive(Clone, Debug)]
pub enum RedactOptions {
    NER(NERModel),
    LLM(LLMModel),
}

/// Why a model's files could not be fetched or read.
#[derive(Debug)]
pub enum DownloadModelError {
    ApiError(hf_hub::api::tokio::ApiError),
    IoError(std::io::Error),
    ConfigParseError(serde_json::Error),
}

/// Why the redaction settings could not be updated.
#[derive(Debug)]
pub enum UpdateRedactError {
    NotSupportingLLMModel,
    HuggingFace(hf_hub::api::tokio::ApiError),
    ModelConfigError(ModelConfigError),
    DownloadModelError(DownloadModelError),
}

/// Why a text could not be redacted.
#[derive(Debug)]
pub enum RedactError {
    NotSupportingLLMModel,
    OptionsNotInitialized,
    ApiNotInitialized,
    HuggingFace(hf_hub::api::tokio::ApiError),
    SerdeJson(serde_json::Error),
    Io(std::io::Error),
}

} // verus!
