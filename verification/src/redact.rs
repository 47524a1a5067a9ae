//! Which model a redaction request is served with, and the service state
//! (current options and model-hub access) that updates change.
use vstd::prelude::*;

use crate::settings::PreparedOptions;
use crate::types::{NERModel, RedactError, RedactOptions, UpdateRedactError};

verus! {

/// What admitting a redaction request gives, with the service's current
/// options and model-hub access: the named-entity model to redact with, or
/// why the request is refused.
pub open spec fn admission<A>(options: Option<RedactOptions>, api: Option<A>) -> Result<NERModel, RedactError> {
    match options {
        None => Err(RedactError::OptionsNotInitialized),
        Some(o) => match api {
            None => Err(RedactError::ApiNotInitialized),
            Some(_) => match o {
                RedactOptions::LLM(_) => Err(RedactError::NotSupportingLLMModel),
                RedactOptions::NER(ner) => Ok(ner),
            },
        },
    }
}

/// Options and model-hub access are set together, and the options are never
/// LLM options.
pub open spec fn state_consistent<A>(options: Option<RedactOptions>, api: Option<A>) -> bool {
    &&& (options is Some <==> api is Some)
    &&& !(options matches Some(RedactOptions::LLM(_)))
}

/// The options and access the service holds after an update that gave
/// `outcome`: the prepared ones if it succeeded, the old ones if not.
pub open spec fn options_update<A>(
    options_before: Option<RedactOptions>,
    api_before: Option<A>,
    outcome: Result<PreparedOptions<A>, UpdateRedactError>,
) -> (Option<RedactOptions>, Option<A>) {
    match outcome {
        Ok(prepared) => (Some(prepared.options()), Some(prepared.api())),
        Err(_) => (options_before, api_before),
    }
}

/// Admits a redaction request: refused until options are set, then until
/// model-hub access is ready, then for LLM options; otherwise gives the
/// named-entity model to redact with.
pub fn redaction_model<'a, A>(options: &'a Option<RedactOptions>, api: &Option<A>) -> (r: Result<&'a NERModel, RedactError>)
    ensures
        match admission(*options, *api) {
            Ok(ner) => r matches Ok(m) && *m == ner,
            Err(e) => r matches Err(e2) && e2 == e,
        },
{
    let options = match options {
        Some(o) => o,
        None => return Err(RedactError::OptionsNotInitialized),
    };
    if api.is_none() {
        return Err(RedactError::ApiNotInitialized);
    }
    match options {
        RedactOptions::LLM(_) => Err(RedactError::NotSupportingLLMModel),
        RedactOptions::NER(ner) => Ok(ner),
    }
}

/// Records the options and access an update prepared; when the update failed,
/// leaves both unchanged and passes the error on. A consistent state stays consistent.
pub fn set_options<A>(
    options_slot: &mut Option<RedactOptions>,
    api_slot: &mut Option<A>,
    outcome: Result<PreparedOptions<A>, UpdateRedactError>,
) -> (r: Result<(), UpdateRedactError>)
    ensures
        (*final(options_slot), *final(api_slot)) == options_update(*old(options_slot), *old(api_slot), outcome),
        match outcome {
            Ok(_) => r is Ok,
            Err(e) => r == Err::<(), UpdateRedactError>(e),
        },
        state_consistent(*old(options_slot), *old(api_slot)) ==> state_consistent(*final(options_slot), *final(api_slot)),
{
    match outcome {
        Ok(prepared) => {
            let (options, api) = prepared.into_parts();
            *options_slot = Some(options);
            *api_slot = Some(api);
            Ok(())
        },
        Err(e) => Err(e),
    }
}

/// The service starts consistent, with neither options nor access; in any
/// consistent state a request is either refused because no options are set
/// yet, or served with the current named-entity model.
pub proof fn lemma_consistent_state_admission<A>(options: Option<RedactOptions>, api: Option<A>)
    ensures
        state_consistent::<A>(None, None),
        state_consistent(options, api) ==> match admission(options, api) {
            Ok(ner) => options == Some(RedactOptions::NER(ner)),
            Err(e) => e is OptionsNotInitialized && options is None,
        },
{
}

/// After an update, a request is served with the named-entity model just
/// prepared when the update succeeded, and exactly as before when it failed.
pub proof fn lemma_admission_after_update<A>(
    options_before: Option<RedactOptions>,
    api_before: Option<A>,
    outcome: Result<PreparedOptions<A>, UpdateRedactError>,
)
    ensures
        ({
            let (options_after, api_after) = options_update(options_before, api_before, outcome);
            &&& outcome matches Ok(p) ==> p.options() matches RedactOptions::NER(ner) ==> admission(
                options_after,
                api_after,
            ) == Ok::<NERModel, RedactError>(ner)
            &&& outcome is Err ==> admission(options_after, api_after) == admission(options_before, api_before)
        }),
{
}

/// Admitting a request: refused without options; then refused without
/// model-hub access; then refused for LLM options; otherwise served with the
/// named-entity model that the options hold.
pub proof fn lemma_admission_cases<A>(options: Option<RedactOptions>, api: Option<A>)
    ensures
        options is None ==> admission(options, api) == Err::<NERModel, RedactError>(
            RedactError::OptionsNotInitialized,
        ),
        options is Some && api is None ==> admission(options, api) == Err::<NERModel, RedactError>(
            RedactError::ApiNotInitialized,
        ),
        options matches Some(RedactOptions::LLM(_)) && api is Some ==> admission(options, api) == Err::<
            NERModel,
            RedactError,
        >(RedactError::NotSupportingLLMModel),
        api is Some ==> (options matches Some(RedactOptions::NER(ner)) ==> admission(options, api) == Ok::<
            NERModel,
            RedactError,
        >(ner)),
{
}

/// An update replaces both the options and the access when it succeeded, and
/// touches neither when it failed.
pub proof fn lemma_options_update_cases<A>(
    options_before: Option<RedactOptions>,
    api_before: Option<A>,
    outcome: Result<PreparedOptions<A>, UpdateRedactError>,
)
    ensures
        outcome matches Ok(p) ==> options_update(options_before, api_before, outcome) == (
        Some(p.options()),
        Some(p.api()),
        ),
        outcome is Err ==> options_update(options_before, api_before, outcome) == (options_before, api_before),
{
}

/// A consistent service state has neither options nor access, or has both,
/// with named-entity options.
pub proof fn lemma_consistent_state_shapes<A>(options: Option<RedactOptions>, api: Option<A>)
    ensures
        state_consistent(options, api) <==> ((options is None && api is None) || (options matches Some(
            RedactOptions::NER(_),
        ) && api is Some)),
{
}

} // verus!
