//! The protocol for updating the redaction settings: it decides which model
//! files to fetch and when the update has succeeded or failed, while the
//! caller performs each fetch and reports how it went.
use vstd::prelude::*;

use crate::model_config::{
    begin_tag, lemma_accepted_iff_all_supported, lemma_ner_labels_members, lemma_token_classifier_has_marker,
    ner_labels_of, validation_of, ModelConfig, ModelConfigError, ModelConfigView, Validation,
};
use crate::text::{has_prefix, lemma_has_prefix_split};
use crate::text::strs;
use crate::types::{DownloadModelError, NERModel, RedactOptions, UpdateRedactError};

verus! {

/// How many model files are fetched before the weights, whose failures are only reported.
pub const MODEL_FILES: usize = 4;

/// The name of the `i`-th model file fetched before the weights.
pub open spec fn model_file(i: int) -> Seq<char> {
    if i == 0 {
        "model.safetensors"@
    } else if i == 1 {
        "vocab.txt"@
    } else if i == 2 {
        "tokenizer_config.json"@
    } else {
        "special_tokens_map.json"@
    }
}

/// The file holding the model's weights, which must be fetched for the update to succeed.
pub open spec fn weights_file() -> Seq<char> {
    "model.safetensors"@
}

/// Where an update stands.
pub enum SettingsPhase {
    /// Waiting for access to the model hub and the model to be set up.
    BuildingApi,
    /// Waiting for the model's configuration.
    FetchingConfig,
    /// Waiting for the `i`-th model file.
    FetchingFile(usize),
    /// Waiting for the model's weights.
    FetchingModel,
    /// The update has ended.
    Finished,
}

/// What the caller is to do next.
pub enum SettingsAction {
    /// Set up access to the model hub and open the named model.
    BuildApi(String),
    /// Fetch and read the model's configuration.
    FetchConfig,
    /// Fetch this model file; a failure is only to be reported.
    FetchFile(String),
    /// Fetch this file of model weights.
    FetchModel(String),
    /// The update has ended with this result.
    Finish(Result<(), UpdateRedactError>),
    /// The event does not answer the pending action; nothing changed.
    Unexpected,
}

/// How the caller's last action went.
pub enum SettingsEvent {
    ApiBuilt(Result<(), hf_hub::api::tokio::ApiError>),
    ConfigFetched(Result<ModelConfig, DownloadModelError>),
    FileFetched,
    ModelFetched(Result<(), DownloadModelError>),
}

/// How far along an update is; every answered event moves it forward.
pub open spec fn rank(phase: SettingsPhase) -> int {
    match phase {
        SettingsPhase::BuildingApi => 0,
        SettingsPhase::FetchingConfig => 1,
        SettingsPhase::FetchingFile(i) => 2 + i,
        SettingsPhase::FetchingModel => 2 + MODEL_FILES,
        SettingsPhase::Finished => 3 + MODEL_FILES,
    }
}

/// Whether `event` answers the action pending in `phase`.
pub open spec fn answers(phase: SettingsPhase, event: SettingsEvent) -> bool {
    match (phase, event) {
        (SettingsPhase::BuildingApi, SettingsEvent::ApiBuilt(_)) => true,
        (SettingsPhase::FetchingConfig, SettingsEvent::ConfigFetched(_)) => true,
        (SettingsPhase::FetchingFile(_), SettingsEvent::FileFetched) => true,
        (SettingsPhase::FetchingModel, SettingsEvent::ModelFetched(_)) => true,
        _ => false,
    }
}

/// One answered step of an update: from `phase`, for the requested
/// `entity_types`, `event` leads to `next` with `action`.
pub open spec fn settings_step(
    phase: SettingsPhase,
    entity_types: Seq<Seq<char>>,
    event: SettingsEvent,
    next: SettingsPhase,
    action: SettingsAction,
) -> bool {
    match (phase, event) {
        (SettingsPhase::BuildingApi, SettingsEvent::ApiBuilt(Ok(_))) => {
            &&& next == SettingsPhase::FetchingConfig
            &&& action is FetchConfig
        },
        (SettingsPhase::BuildingApi, SettingsEvent::ApiBuilt(Err(e))) => next == SettingsPhase::Finished
            && action == SettingsAction::Finish(Err(UpdateRedactError::HuggingFace(e))),
        (SettingsPhase::FetchingConfig, SettingsEvent::ConfigFetched(Err(e))) => next == SettingsPhase::Finished
            && action == SettingsAction::Finish(Err(UpdateRedactError::DownloadModelError(e))),
        (SettingsPhase::FetchingConfig, SettingsEvent::ConfigFetched(Ok(cfg))) => match validation_of(cfg@, entity_types) {
            Validation::Refused(e) => next == SettingsPhase::Finished
                && action == SettingsAction::Finish(Err(UpdateRedactError::ModelConfigError(e))),
            Validation::Unsupported(u) => {
                &&& next == SettingsPhase::Finished
                &&& action matches SettingsAction::Finish(
                    Err(UpdateRedactError::ModelConfigError(ModelConfigError::UnsupportedEntityTypes(v))),
                ) && strs(v@) == u
            },
            Validation::Accepted => {
                &&& next == SettingsPhase::FetchingFile(0)
                &&& action matches SettingsAction::FetchFile(f) && f@ == model_file(0)
            },
        },
        (SettingsPhase::FetchingFile(i), SettingsEvent::FileFetched) => if i + 1 < MODEL_FILES {
            &&& next == SettingsPhase::FetchingFile((i + 1) as usize)
            &&& action matches SettingsAction::FetchFile(f) && f@ == model_file(i + 1)
        } else {
            &&& next == SettingsPhase::FetchingModel
            &&& action matches SettingsAction::FetchModel(f) && f@ == weights_file()
        },
        (SettingsPhase::FetchingModel, SettingsEvent::ModelFetched(Ok(_))) => {
            &&& next == SettingsPhase::Finished
            &&& action matches SettingsAction::Finish(Ok(_))
        },
        (SettingsPhase::FetchingModel, SettingsEvent::ModelFetched(Err(e))) => next == SettingsPhase::Finished
            && action == SettingsAction::Finish(Err(UpdateRedactError::DownloadModelError(e))),
        _ => false,
    }
}

/// An update of the redaction settings in progress.
pub struct SettingsMachine {
    phase: SettingsPhase,
    model: NERModel,
    succeeded: bool,
    accepted: Ghost<Option<ModelConfigView>>,
}

/// Options whose model an update has prepared, together with the model-hub
/// access it prepared them with. They are always named-entity options.
pub struct PreparedOptions<A> {
    options: RedactOptions,
    api: A,
}

impl<A> PreparedOptions<A> {
    #[verifier::type_invariant]
    spec fn named_entity(self) -> bool {
        self.options is NER
    }

    /// The prepared options.
    pub closed spec fn options(&self) -> RedactOptions {
        self.options
    }

    /// The model-hub access they were prepared with.
    pub closed spec fn api(&self) -> A {
        self.api
    }

    /// The options and the access, taken apart; the options are named-entity options.
    pub fn into_parts(self) -> (r: (RedactOptions, A))
        ensures
            r.0 == self.options(),
            r.1 == self.api(),
            r.0 is NER,
    {
        proof {
            use_type_invariant(&self);
        }
        let PreparedOptions { options, api } = self;
        (options, api)
    }
}

/// The `i`-th model file fetched before the weights.
fn model_file_name(i: usize) -> (r: String)
    requires
        i < MODEL_FILES,
    ensures
        r@ == model_file(i as int),
{
    if i == 0 {
        String::from_str("model.safetensors")
    } else if i == 1 {
        String::from_str("vocab.txt")
    } else if i == 2 {
        String::from_str("tokenizer_config.json")
    } else {
        String::from_str("special_tokens_map.json")
    }
}

/// A copy of each string of `v`.
fn copy_strings(v: &Vec<String>) -> (r: Vec<String>)
    ensures
        strs(r@) == strs(v@),
{
    let mut r: Vec<String> = Vec::new();
    let mut i: usize = 0;
    while i < v.len()
        invariant
            i <= v@.len(),
            r@.len() == i,
            forall|k: int| 0 <= k < i ==> #[trigger] r@[k]@ == v@[k]@,
        decreases v@.len() - i,
    {
        r.push(v[i].clone());
        i = i + 1;
    }
    assert(strs(r@) =~= strs(v@));
    r
}

impl SettingsMachine {
    #[verifier::type_invariant]
    spec fn consistent(self) -> bool {
        &&& (self.phase matches SettingsPhase::FetchingFile(i) ==> i < MODEL_FILES)
        &&& (self.phase is FetchingFile || self.phase is FetchingModel || self.succeeded) ==> (
        self.accepted@ matches Some(cfg) && validation_of(cfg, strs(self.model.entity_types@)) is Accepted)
        &&& self.succeeded ==> self.phase is Finished
    }

    /// Where the update stands.
    pub closed spec fn phase(&self) -> SettingsPhase {
        self.phase
    }

    /// The entity types the update is to make available.
    pub closed spec fn entity_types(&self) -> Seq<Seq<char>> {
        strs(self.model.entity_types@)
    }

    /// The named-entity model the update prepares.
    pub closed spec fn model(&self) -> NERModel {
        self.model
    }

    /// Whether the update has ended successfully.
    pub closed spec fn succeeded(&self) -> bool {
        self.succeeded
    }

    /// The model configuration that accepted the entity types, once one has.
    pub closed spec fn accepted_config(&self) -> Option<ModelConfigView> {
        self.accepted@
    }

    /// The model files are fetched only once a configuration has accepted every
    /// requested entity type.
    pub open spec fn fetches_follow_validation(&self) -> bool {
        (self.phase() is FetchingFile || self.phase() is FetchingModel || self.succeeded()) ==> (
        self.accepted_config() matches Some(cfg) && validation_of(cfg, self.entity_types()) is Accepted)
    }

    /// Begins an update to `options`: LLM options are refused at once, with no
    /// model-hub work; NER options start with setting up access to the named model.
    pub fn start(options: &RedactOptions) -> (r: (SettingsMachine, SettingsAction))
        ensures
            r.0.fetches_follow_validation(),
            !r.0.succeeded(),
            match *options {
                RedactOptions::LLM(_) => {
                    &&& r.0.phase() == SettingsPhase::Finished
                    &&& r.1 matches SettingsAction::Finish(Err(UpdateRedactError::NotSupportingLLMModel))
                },
                RedactOptions::NER(ner) => {
                    &&& r.0.phase() == SettingsPhase::BuildingApi
                    &&& r.0.entity_types() == strs(ner.entity_types@)
                    &&& r.0.model().model_name == ner.model_name
                    &&& r.1 matches SettingsAction::BuildApi(name) && name@ == ner.model_name@
                },
            },
    {
        match options {
            RedactOptions::LLM(_) => (
                SettingsMachine {
                    phase: SettingsPhase::Finished,
                    model: NERModel { model_name: String::new(), entity_types: Vec::new() },
                    succeeded: false,
                    accepted: Ghost(None),
                },
                SettingsAction::Finish(Err(UpdateRedactError::NotSupportingLLMModel)),
            ),
            RedactOptions::NER(ner) => {
                let model = NERModel { model_name: ner.model_name.clone(), entity_types: copy_strings(&ner.entity_types) };
                (
                    SettingsMachine { phase: SettingsPhase::BuildingApi, model, succeeded: false, accepted: Ghost(None) },
                    SettingsAction::BuildApi(ner.model_name.clone()),
                )
            },
        }
    }

    /// Takes the report of the pending action and says what to do next. A
    /// report that does not answer the pending action changes nothing.
    pub fn step(&mut self, event: SettingsEvent) -> (action: SettingsAction)
        ensures
            final(self).entity_types() == old(self).entity_types(),
            final(self).model() == old(self).model(),
            final(self).fetches_follow_validation(),
            final(self).succeeded() == (old(self).succeeded() || action matches SettingsAction::Finish(Ok(_))),
            old(self).phase() is FetchingConfig && final(self).phase() is FetchingFile ==> (event matches SettingsEvent::ConfigFetched(Ok(cfg))
                && final(self).accepted_config() == Some(cfg@)),
            answers(old(self).phase(), event) ==> settings_step(
                old(self).phase(),
                old(self).entity_types(),
                event,
                final(self).phase(),
                action,
            ) && rank(final(self).phase()) > rank(old(self).phase()),
            !answers(old(self).phase(), event) ==> action is Unexpected && final(self).phase() == old(self).phase(),
            action matches SettingsAction::Finish(Ok(_)) ==> (old(self).accepted_config() matches Some(cfg)
                && validation_of(cfg, old(self).entity_types()) is Accepted),
    {
        proof {
            use_type_invariant(&*self);
        }
        let phase = match &self.phase {
            SettingsPhase::BuildingApi => SettingsPhase::BuildingApi,
            SettingsPhase::FetchingConfig => SettingsPhase::FetchingConfig,
            SettingsPhase::FetchingFile(i) => SettingsPhase::FetchingFile(*i),
            SettingsPhase::FetchingModel => SettingsPhase::FetchingModel,
            SettingsPhase::Finished => SettingsPhase::Finished,
        };
        match (phase, event) {
            (SettingsPhase::BuildingApi, SettingsEvent::ApiBuilt(built)) => match built {
                Ok(()) => {
                    self.phase = SettingsPhase::FetchingConfig;
                    SettingsAction::FetchConfig
                },
                Err(e) => {
                    self.phase = SettingsPhase::Finished;
                    SettingsAction::Finish(Err(UpdateRedactError::HuggingFace(e)))
                },
            },
            (SettingsPhase::FetchingConfig, SettingsEvent::ConfigFetched(fetched)) => match fetched {
                Err(e) => {
                    self.phase = SettingsPhase::Finished;
                    SettingsAction::Finish(Err(UpdateRedactError::DownloadModelError(e)))
                },
                Ok(cfg) => match cfg.validate_entity_types(self.model.entity_types.as_slice()) {
                    Err(e) => {
                        self.phase = SettingsPhase::Finished;
                        SettingsAction::Finish(Err(UpdateRedactError::ModelConfigError(e)))
                    },
                    Ok(()) => {
                        self.accepted = Ghost(Some(cfg@));
                        self.phase = SettingsPhase::FetchingFile(0);
                        SettingsAction::FetchFile(model_file_name(0))
                    },
                },
            },
            (SettingsPhase::FetchingFile(i), SettingsEvent::FileFetched) => {
                if i + 1 < MODEL_FILES {
                    self.phase = SettingsPhase::FetchingFile(i + 1);
                    SettingsAction::FetchFile(model_file_name(i + 1))
                } else {
                    self.phase = SettingsPhase::FetchingModel;
                    SettingsAction::FetchModel(String::from_str("model.safetensors"))
                }
            },
            (SettingsPhase::FetchingModel, SettingsEvent::ModelFetched(fetched)) => match fetched {
                Ok(()) => {
                    self.phase = SettingsPhase::Finished;
                    self.succeeded = true;
                    SettingsAction::Finish(Ok(()))
                },
                Err(e) => {
                    self.phase = SettingsPhase::Finished;
                    SettingsAction::Finish(Err(UpdateRedactError::DownloadModelError(e)))
                },
            },
            _ => SettingsAction::Unexpected,
        }
    }

    /// The prepared options, with the model-hub access the update set up: there
    /// are some exactly when the update ended successfully, and they name the
    /// model and entity types the update was started with.
    pub fn prepared<A>(self, api: A) -> (r: Option<PreparedOptions<A>>)
        ensures
            r is Some <==> self.succeeded(),
            r matches Some(p) ==> p.options() == RedactOptions::NER(self.model()) && p.api() == api,
    {
        if self.succeeded {
            let SettingsMachine { model, .. } = self;
            Some(PreparedOptions { options: RedactOptions::NER(model), api })
        } else {
            None
        }
    }
}

/// The configuration names an architecture containing `ForTokenClassification`,
/// and for each of `types` a label that is `B-` followed by that type.
pub open spec fn names_entity_types(cfg: ModelConfigView, types: Seq<Seq<char>>) -> bool {
    &&& exists|j: int, before: Seq<char>, after: Seq<char>|
        #![auto]
        0 <= j < cfg.architectures.len() && cfg.architectures[j] == before + "ForTokenClassification"@ + after
    &&& forall|k: int|
        0 <= k < types.len() ==> exists|j: int|
            0 <= j < cfg.id2label.len() && #[trigger] cfg.id2label[j].1 == "B-"@ + #[trigger] types[k]
}

/// A configuration that accepts the requested types names each of them.
proof fn lemma_accepted_names_types(cfg: ModelConfigView, types: Seq<Seq<char>>)
    requires
        validation_of(cfg, types) is Accepted,
    ensures
        names_entity_types(cfg, types),
{
    lemma_accepted_iff_all_supported(cfg, types);
    lemma_token_classifier_has_marker(cfg.architectures);
    lemma_ner_labels_members(cfg.id2label);
    reveal_strlit("B-");
    assert forall|k: int| 0 <= k < types.len() implies exists|j: int|
        0 <= j < cfg.id2label.len() && #[trigger] cfg.id2label[j].1 == "B-"@ + #[trigger] types[k] by {
        assert(ner_labels_of(cfg.id2label).contains(types[k]));
        let j = choose|j: int|
            0 <= j < cfg.id2label.len() && has_prefix(#[trigger] cfg.id2label[j].1, begin_tag())
                && cfg.id2label[j].1.skip(begin_tag().len() as int) == types[k];
        lemma_has_prefix_split(cfg.id2label[j].1, begin_tag());
    }
}

/// A failed fetch of the configuration, whatever the failure, ends the update
/// with exactly that failure.
pub proof fn lemma_config_failure_ends_update(
    types: Seq<Seq<char>>,
    e: DownloadModelError,
    next: SettingsPhase,
    action: SettingsAction,
)
    requires
        settings_step(
            SettingsPhase::FetchingConfig,
            types,
            SettingsEvent::ConfigFetched(Err(e)),
            next,
            action,
        ),
    ensures
        next == SettingsPhase::Finished,
        action == SettingsAction::Finish(Err(UpdateRedactError::DownloadModelError(e))),
{
}

/// Model files start being fetched only right after a configuration was
/// fetched that names every requested entity type, and the first file
/// fetched is `model.safetensors`.
pub proof fn lemma_file_fetches_follow_accepted_config(
    phase: SettingsPhase,
    types: Seq<Seq<char>>,
    event: SettingsEvent,
    i: usize,
    action: SettingsAction,
)
    requires
        settings_step(phase, types, event, SettingsPhase::FetchingFile(i), action),
        !(phase is FetchingFile),
    ensures
        phase == SettingsPhase::FetchingConfig,
        i == 0,
        event matches SettingsEvent::ConfigFetched(Ok(cfg)) && names_entity_types(cfg@, types),
        action matches SettingsAction::FetchFile(f) && f@ == "model.safetensors"@,
{
    if let SettingsEvent::ConfigFetched(Ok(cfg)) = event {
        lemma_accepted_names_types(cfg@, types);
    }
}

/// Setting up model-hub access: on success the configuration is fetched next;
/// on failure the update ends with that failure.
pub proof fn lemma_hub_access_outcomes(
    types: Seq<Seq<char>>,
    built: Result<(), hf_hub::api::tokio::ApiError>,
    next: SettingsPhase,
    action: SettingsAction,
)
    requires
        settings_step(SettingsPhase::BuildingApi, types, SettingsEvent::ApiBuilt(built), next, action),
    ensures
        built is Ok ==> next == SettingsPhase::FetchingConfig && action is FetchConfig,
        built matches Err(e) ==> next == SettingsPhase::Finished && action == SettingsAction::Finish(
            Err(UpdateRedactError::HuggingFace(e)),
        ),
{
}

/// After each model file the next one is fetched, in the order
/// `model.safetensors`, `vocab.txt`, `tokenizer_config.json`,
/// `special_tokens_map.json`, and then the weights in `model.safetensors`,
/// whether or not the file was fetched.
pub proof fn lemma_model_files_in_order(
    i: usize,
    types: Seq<Seq<char>>,
    next: SettingsPhase,
    action: SettingsAction,
)
    requires
        settings_step(SettingsPhase::FetchingFile(i), types, SettingsEvent::FileFetched, next, action),
    ensures
        i == 0 ==> (next == SettingsPhase::FetchingFile(1) && (action matches SettingsAction::FetchFile(f)
            && f@ == "vocab.txt"@)),
        i == 1 ==> (next == SettingsPhase::FetchingFile(2) && (action matches SettingsAction::FetchFile(f)
            && f@ == "tokenizer_config.json"@)),
        i == 2 ==> (next == SettingsPhase::FetchingFile(3) && (action matches SettingsAction::FetchFile(f)
            && f@ == "special_tokens_map.json"@)),
        i >= 3 ==> (next == SettingsPhase::FetchingModel && (action matches SettingsAction::FetchModel(f)
            && f@ == "model.safetensors"@)),
{
}

/// Fetching the weights: success ends the update successfully; a failure ends
/// it with that failure.
pub proof fn lemma_weights_outcomes(
    types: Seq<Seq<char>>,
    fetched: Result<(), DownloadModelError>,
    next: SettingsPhase,
    action: SettingsAction,
)
    requires
        settings_step(SettingsPhase::FetchingModel, types, SettingsEvent::ModelFetched(fetched), next, action),
    ensures
        next == SettingsPhase::Finished,
        fetched is Ok ==> action matches SettingsAction::Finish(Ok(_)),
        fetched matches Err(e) ==> action == SettingsAction::Finish(Err(UpdateRedactError::DownloadModelError(e))),
{
}

/// An update ends successfully only when the weights were fetched.
pub proof fn lemma_success_only_after_weights(
    phase: SettingsPhase,
    types: Seq<Seq<char>>,
    event: SettingsEvent,
    next: SettingsPhase,
    action: SettingsAction,
)
    requires
        settings_step(phase, types, event, next, action),
        action matches SettingsAction::Finish(Ok(_)),
    ensures
        phase == SettingsPhase::FetchingModel,
        event matches SettingsEvent::ModelFetched(Ok(_)),
        next == SettingsPhase::Finished,
{
    if let SettingsEvent::ConfigFetched(Ok(cfg)) = event {
        if phase is FetchingConfig {
            if let Validation::Unsupported(u) = validation_of(cfg@, types) {
                assert(false);
            }
        }
    }
}

/// Each report answers exactly one pending action: hub access, the
/// configuration, a model file, or the weights.
pub proof fn lemma_reports_answer_actions(phase: SettingsPhase, event: SettingsEvent)
    ensures
        answers(phase, event) <==> ((phase is BuildingApi && event is ApiBuilt) || (phase is FetchingConfig
            && event is ConfigFetched) || (phase is FetchingFile && event is FileFetched) || (
        phase is FetchingModel && event is ModelFetched)),
{
}

} // verus!
