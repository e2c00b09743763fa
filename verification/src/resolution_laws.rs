//! What every call that chooses who reviews comes to, field by field: the provider, the model, its
//! metadata and the level of reasoning.

use crate::guardian::{
    is_trusted_reviewer_provider, lemma_first_preset_is_unique, resolve_guardian_reviewer,
    select_reviewer_provider, trusted_provider,
};
use crate::guardian_types::{
    Config, GuardianReviewerConfig, ModelInfo, ModelPreset, ModelProviderInfo, ReasoningEffort,
    ReservedProviderIds, ReviewerError, ReviewerResolution,
};
use vstd::prelude::*;

verus! {

/// Whoever is trusted stands under one of the reserved ids and brings no credentials of its own:
/// no API key, no bearer token, no command that supplies any.
pub proof fn law_trusted_provider_has_no_foreign_credentials<S>(
    reserved: ReservedProviderIds,
    provider_id: &str,
    provider: ModelProviderInfo<S>,
    trusted: bool,
)
    requires
        call_ensures(
            is_trusted_reviewer_provider::<S>,
            (&reserved, provider_id, &provider),
            trusted,
        ),
        trusted,
    ensures
        ({
            ||| provider_id@ == reserved.openai@
            ||| provider_id@ == reserved.amazon_bedrock@
            ||| provider_id@ == reserved.amazon_bedrock_runtime@
        }),
        provider.env_key is None,
        provider.experimental_bearer_token is None,
        !provider.has_auth,
{
}

/// OpenAI under its own id is trusted with the session's credentials alone.
pub proof fn law_openai_with_session_credentials_is_trusted<S>(
    reserved: ReservedProviderIds,
    provider_id: &str,
    provider: ModelProviderInfo<S>,
    trusted: bool,
)
    requires
        call_ensures(
            is_trusted_reviewer_provider::<S>,
            (&reserved, provider_id, &provider),
            trusted,
        ),
        provider_id@ == reserved.openai@,
        provider.is_openai,
        provider.requires_openai_auth,
        provider.env_key is None,
        provider.experimental_bearer_token is None,
        !provider.has_auth,
        !provider.has_aws,
    ensures
        trusted,
{
}

/// Bedrock under either of its ids is trusted with AWS signing alone.
pub proof fn law_bedrock_with_aws_signing_is_trusted<S>(
    reserved: ReservedProviderIds,
    provider_id: &str,
    provider: ModelProviderInfo<S>,
    trusted: bool,
)
    requires
        call_ensures(
            is_trusted_reviewer_provider::<S>,
            (&reserved, provider_id, &provider),
            trusted,
        ),
        provider_id@ == reserved.amazon_bedrock@ || provider_id@
            == reserved.amazon_bedrock_runtime@,
        provider.is_amazon_bedrock,
        provider.has_aws,
        provider.env_key is None,
        provider.experimental_bearer_token is None,
        !provider.has_auth,
    ensures
        trusted,
{
}

/// Under any id but Bedrock's, whoever is trusted is OpenAI, with the session's credentials and
/// without AWS signing.
pub proof fn law_trust_outside_bedrock_is_in_openai<S>(
    reserved: ReservedProviderIds,
    provider_id: &str,
    provider: ModelProviderInfo<S>,
    trusted: bool,
)
    requires
        call_ensures(
            is_trusted_reviewer_provider::<S>,
            (&reserved, provider_id, &provider),
            trusted,
        ),
        trusted,
        provider_id@ != reserved.amazon_bedrock@,
        provider_id@ != reserved.amazon_bedrock_runtime@,
    ensures
        provider_id@ == reserved.openai@,
        provider.is_openai,
        provider.requires_openai_auth,
        !provider.has_aws,
{
}

/// Under any id but OpenAI's, whoever is trusted is Bedrock with AWS signing.
pub proof fn law_trust_outside_openai_is_in_bedrock<S>(
    reserved: ReservedProviderIds,
    provider_id: &str,
    provider: ModelProviderInfo<S>,
    trusted: bool,
)
    requires
        call_ensures(
            is_trusted_reviewer_provider::<S>,
            (&reserved, provider_id, &provider),
            trusted,
        ),
        trusted,
        provider_id@ != reserved.openai@,
    ensures
        provider_id@ == reserved.amazon_bedrock@ || provider_id@
            == reserved.amazon_bedrock_runtime@,
        provider.is_amazon_bedrock,
        provider.has_aws,
{
}

/// The answer on trust is the same wherever it is asked for.
pub proof fn law_trust_is_asked_for_alike<S>(
    reserved: ReservedProviderIds,
    provider_id: &str,
    provider: ModelProviderInfo<S>,
    trusted: bool,
)
    requires
        call_ensures(
            is_trusted_reviewer_provider::<S>,
            (&reserved, provider_id, &provider),
            trusted,
        ),
    ensures
        trusted == trusted_provider(reserved, provider_id@, provider),
{
}

/// The provider that the owner named is the one that is selected, or refused.
pub proof fn law_named_provider_is_selected<'a, S>(
    config: &'a Config<S>,
    choice: Result<(String, &'a ModelProviderInfo<S>), ReviewerError>,
)
    requires
        call_ensures(select_reviewer_provider::<S>, (config,), choice),
        config.auto_review is Some,
        config.auto_review->0.model_provider is Some,
    ensures
        match choice {
            Ok((id, _)) => id@ == config.auto_review->0.model_provider->0@,
            Err(ReviewerError::ProviderNotConfigured { provider_id }) => provider_id@
                == config.auto_review->0.model_provider->0@,
            Err(ReviewerError::ProviderNotTrusted { provider_id }) => provider_id@
                == config.auto_review->0.model_provider->0@,
            Err(ReviewerError::ModelNotAvailable { .. }) => false,
        },
{
}

/// A trusted acting provider reviews where the owner named none, whatever model or level of
/// reasoning the owner named.
pub proof fn law_trusted_acting_provider_is_selected<'a, S>(
    config: &'a Config<S>,
    choice: Result<(String, &'a ModelProviderInfo<S>), ReviewerError>,
)
    requires
        call_ensures(select_reviewer_provider::<S>, (config,), choice),
        config.auto_review is None || config.auto_review->0.model_provider is None,
        trusted_provider(
            config.reserved,
            config.model_provider_id@,
            config.model_provider,
        ),
    ensures
        choice is Ok,
        choice->Ok_0.0@ == config.model_provider_id@,
        *choice->Ok_0.1 == config.model_provider,
{
}

/// Where the acting provider is not trusted and the owner named none, OpenAI is selected, or
/// refused.
pub proof fn law_untrusted_acting_provider_gives_way_to_openai<'a, S>(
    config: &'a Config<S>,
    choice: Result<(String, &'a ModelProviderInfo<S>), ReviewerError>,
)
    requires
        call_ensures(select_reviewer_provider::<S>, (config,), choice),
        config.auto_review is None || config.auto_review->0.model_provider is None,
        !trusted_provider(
            config.reserved,
            config.model_provider_id@,
            config.model_provider,
        ),
    ensures
        match choice {
            Ok((id, _)) => id@ == config.reserved.openai@,
            Err(ReviewerError::ProviderNotConfigured { provider_id }) => provider_id@
                == config.reserved.openai@,
            Err(ReviewerError::ProviderNotTrusted { provider_id }) => provider_id@
                == config.reserved.openai@,
            Err(ReviewerError::ModelNotAvailable { .. }) => false,
        },
{
}

/// The selected provider is the session's own under the session's own id, and otherwise the one
/// that is configured under the selected id. It is trusted.
pub proof fn law_selected_provider_is_configured_and_trusted<'a, S>(
    config: &'a Config<S>,
    id: String,
    provider: &'a ModelProviderInfo<S>,
)
    requires
        call_ensures(select_reviewer_provider::<S>, (config,), Ok((id, provider))),
    ensures
        trusted_provider(config.reserved, id@, *provider),
        id@ == config.model_provider_id@ ==> *provider == config.model_provider,
        id@ != config.model_provider_id@ ==> {
            &&& config.model_providers@.contains_key(id@)
            &&& *provider == config.model_providers@[id@]
        },
{
}

/// A provider is refused as not configured only if it is not, and as not trusted only if it is
/// configured and not trusted.
pub proof fn law_refused_provider_is_absent_or_untrusted<'a, S>(
    config: &'a Config<S>,
    error: ReviewerError,
)
    requires
        call_ensures(
            select_reviewer_provider::<S>,
            (config,),
            Err::<(String, &'a ModelProviderInfo<S>), ReviewerError>(error),
        ),
    ensures
        match error {
            ReviewerError::ProviderNotConfigured { provider_id } => {
                &&& provider_id@ != config.model_provider_id@
                &&& !config.model_providers@.contains_key(provider_id@)
            },
            ReviewerError::ProviderNotTrusted { provider_id } => {
                if provider_id@ == config.model_provider_id@ {
                    !trusted_provider(config.reserved, provider_id@, config.model_provider)
                } else {
                    &&& config.model_providers@.contains_key(provider_id@)
                    &&& !trusted_provider(
                        config.reserved,
                        provider_id@,
                        config.model_providers@[provider_id@],
                    )
                }
            },
            ReviewerError::ModelNotAvailable { .. } => false,
        },
{
}

/// The choice of the model goes by the selected provider: where none could be selected the same
/// error comes back, and where one was it is the one that reviews.
pub proof fn law_resolution_follows_the_selected_provider<'a, S, M>(
    config: &'a Config<S>,
    acting: &'a ModelInfo<M>,
    session_effort: Option<ReasoningEffort>,
    default_model: String,
    catalog: &Vec<ModelPreset>,
    model_info: Option<&'a ModelInfo<M>>,
    choice: Result<(String, &'a ModelProviderInfo<S>), ReviewerError>,
    resolution: Result<ReviewerResolution<'a, S, M>, ReviewerError>,
)
    requires
        call_ensures(select_reviewer_provider::<S>, (config,), choice),
        call_ensures(
            resolve_guardian_reviewer::<S, M>,
            (config, acting, session_effort, default_model, catalog, model_info),
            resolution,
        ),
    ensures
        match (choice, resolution) {
            (
                Err(ReviewerError::ProviderNotConfigured { provider_id: p }),
                Err(ReviewerError::ProviderNotConfigured { provider_id: q }),
            ) => p@ == q@,
            (
                Err(ReviewerError::ProviderNotTrusted { provider_id: p }),
                Err(ReviewerError::ProviderNotTrusted { provider_id: q }),
            ) => p@ == q@,
            (Ok((id, _)), Err(ReviewerError::ModelNotAvailable { provider_id, .. })) => {
                provider_id@ == id@
            },
            (Ok((id, provider)), Ok(ReviewerResolution::Resolved(chosen))) => {
                &&& chosen.provider_id@ == id@
                &&& *chosen.provider == *provider
            },
            (Ok(_), Ok(ReviewerResolution::FetchModelInfo(_))) => true,
            _ => false,
        },
{
}

/// A trusted acting provider reviews its own session where the owner named no provider, whatever
/// model or level of reasoning the owner named.
pub proof fn law_trusted_acting_provider_reviews<'a, S, M>(
    config: &'a Config<S>,
    acting: &'a ModelInfo<M>,
    session_effort: Option<ReasoningEffort>,
    default_model: String,
    catalog: &Vec<ModelPreset>,
    model_info: Option<&'a ModelInfo<M>>,
    chosen: GuardianReviewerConfig<'a, S, M>,
)
    requires
        call_ensures(
            resolve_guardian_reviewer::<S, M>,
            (config, acting, session_effort, default_model, catalog, model_info),
            Ok(ReviewerResolution::Resolved(chosen)),
        ),
        config.auto_review is None || config.auto_review->0.model_provider is None,
        trusted_provider(
            config.reserved,
            config.model_provider_id@,
            config.model_provider,
        ),
    ensures
        chosen.provider_id@ == config.model_provider_id@,
        *chosen.provider == config.model_provider,
{
}

/// The owner's model reviews where the catalog has it, at whatever place, once its metadata is
/// there. It is reported as the owner's.
pub proof fn law_listed_owner_model_reviews<'a, S, M>(
    config: &'a Config<S>,
    acting: &'a ModelInfo<M>,
    session_effort: Option<ReasoningEffort>,
    default_model: String,
    catalog: &Vec<ModelPreset>,
    model_info: Option<&'a ModelInfo<M>>,
    choice: Result<(String, &'a ModelProviderInfo<S>), ReviewerError>,
    at: int,
    resolution: Result<ReviewerResolution<'a, S, M>, ReviewerError>,
)
    requires
        call_ensures(select_reviewer_provider::<S>, (config,), choice),
        choice is Ok,
        call_ensures(
            resolve_guardian_reviewer::<S, M>,
            (config, acting, session_effort, default_model, catalog, model_info),
            resolution,
        ),
        config.auto_review is Some,
        config.auto_review->0.model is Some,
        0 <= at < catalog@.len(),
        catalog@[at].model@ == config.auto_review->0.model->0@,
    ensures
        match (model_info, resolution) {
            (None, Ok(ReviewerResolution::FetchModelInfo(asked))) => {
                asked@ == config.auto_review->0.model->0@
            },
            (Some(model_info), Ok(ReviewerResolution::Resolved(chosen))) => {
                &&& chosen.model@ == config.auto_review->0.model->0@
                &&& *chosen.model_info == *model_info
                &&& chosen.model_overridden
                &&& chosen.model_override is Some
                &&& chosen.model_override->0@ == config.auto_review->0.model->0@
            },
            _ => false,
        },
{
}

/// The owner's model is refused where the catalog does not have it, whatever else is set: no other
/// model takes its place.
pub proof fn law_unlisted_owner_model_is_refused<'a, S, M>(
    config: &'a Config<S>,
    acting: &'a ModelInfo<M>,
    session_effort: Option<ReasoningEffort>,
    default_model: String,
    catalog: &Vec<ModelPreset>,
    model_info: Option<&'a ModelInfo<M>>,
    choice: Result<(String, &'a ModelProviderInfo<S>), ReviewerError>,
    resolution: Result<ReviewerResolution<'a, S, M>, ReviewerError>,
)
    requires
        call_ensures(select_reviewer_provider::<S>, (config,), choice),
        choice is Ok,
        call_ensures(
            resolve_guardian_reviewer::<S, M>,
            (config, acting, session_effort, default_model, catalog, model_info),
            resolution,
        ),
        config.auto_review is Some,
        config.auto_review->0.model is Some,
        forall|i: int|
            0 <= i < catalog@.len() ==> (#[trigger] catalog@[i]).model@
                != config.auto_review->0.model->0@,
    ensures
        match resolution {
            Err(ReviewerError::ModelNotAvailable { model, provider_id }) => {
                &&& model@ == config.auto_review->0.model->0@
                &&& provider_id@ == choice->Ok_0.0@
            },
            _ => false,
        },
{
}

/// The model that the acting one's metadata names reviews where the owner named none and the acting
/// provider is the selected one, whether or not the catalog has it. It is no override of the
/// owner's.
pub proof fn law_override_of_the_acting_model_reviews<'a, S, M>(
    config: &'a Config<S>,
    acting: &'a ModelInfo<M>,
    session_effort: Option<ReasoningEffort>,
    default_model: String,
    catalog: &Vec<ModelPreset>,
    model_info: Option<&'a ModelInfo<M>>,
    choice: Result<(String, &'a ModelProviderInfo<S>), ReviewerError>,
    resolution: Result<ReviewerResolution<'a, S, M>, ReviewerError>,
)
    requires
        call_ensures(select_reviewer_provider::<S>, (config,), choice),
        choice is Ok,
        call_ensures(
            resolve_guardian_reviewer::<S, M>,
            (config, acting, session_effort, default_model, catalog, model_info),
            resolution,
        ),
        config.auto_review is None || config.auto_review->0.model is None,
        choice->Ok_0.0@ == config.model_provider_id@,
        acting.auto_review_model_override is Some,
    ensures
        match (model_info, resolution) {
            (None, Ok(ReviewerResolution::FetchModelInfo(asked))) => {
                asked@ == acting.auto_review_model_override->0@
            },
            (Some(model_info), Ok(ReviewerResolution::Resolved(chosen))) => {
                &&& chosen.model@ == acting.auto_review_model_override->0@
                &&& *chosen.model_info == *model_info
                &&& !chosen.model_overridden
                &&& chosen.model_override is None
            },
            _ => false,
        },
{
}

/// The model that the selected provider prefers reviews where nobody named another and the catalog
/// has it, at whatever place.
pub proof fn law_listed_preferred_model_reviews<'a, S, M>(
    config: &'a Config<S>,
    acting: &'a ModelInfo<M>,
    session_effort: Option<ReasoningEffort>,
    default_model: String,
    catalog: &Vec<ModelPreset>,
    model_info: Option<&'a ModelInfo<M>>,
    choice: Result<(String, &'a ModelProviderInfo<S>), ReviewerError>,
    at: int,
    resolution: Result<ReviewerResolution<'a, S, M>, ReviewerError>,
)
    requires
        call_ensures(select_reviewer_provider::<S>, (config,), choice),
        choice is Ok,
        call_ensures(
            resolve_guardian_reviewer::<S, M>,
            (config, acting, session_effort, default_model, catalog, model_info),
            resolution,
        ),
        config.auto_review is None || config.auto_review->0.model is None,
        acting.auto_review_model_override is None || choice->Ok_0.0@ != config.model_provider_id@,
        0 <= at < catalog@.len(),
        catalog@[at].model@ == default_model@,
    ensures
        match (model_info, resolution) {
            (None, Ok(ReviewerResolution::FetchModelInfo(asked))) => asked@ == default_model@,
            (Some(model_info), Ok(ReviewerResolution::Resolved(chosen))) => {
                &&& chosen.model@ == default_model@
                &&& *chosen.model_info == *model_info
                &&& !chosen.model_overridden
                &&& chosen.model_override is None
            },
            _ => false,
        },
{
}

/// In an OpenAI session whose owner named neither provider nor model, the acting model reviews
/// where the preferred one is missing and nobody named another. No metadata needs to be fetched for
/// it.
pub proof fn law_openai_session_reviews_with_its_own_model<'a, S, M>(
    config: &'a Config<S>,
    acting: &'a ModelInfo<M>,
    session_effort: Option<ReasoningEffort>,
    default_model: String,
    catalog: &Vec<ModelPreset>,
    model_info: Option<&'a ModelInfo<M>>,
    choice: Result<(String, &'a ModelProviderInfo<S>), ReviewerError>,
    resolution: Result<ReviewerResolution<'a, S, M>, ReviewerError>,
)
    requires
        call_ensures(select_reviewer_provider::<S>, (config,), choice),
        choice is Ok,
        call_ensures(
            resolve_guardian_reviewer::<S, M>,
            (config, acting, session_effort, default_model, catalog, model_info),
            resolution,
        ),
        config.auto_review is None || config.auto_review->0.model is None,
        config.auto_review is None || config.auto_review->0.model_provider is None,
        acting.auto_review_model_override is None,
        config.model_provider_id@ == config.reserved.openai@,
        forall|i: int|
            0 <= i < catalog@.len() ==> (#[trigger] catalog@[i]).model@ != default_model@,
    ensures
        match resolution {
            Ok(ReviewerResolution::Resolved(chosen)) => {
                &&& chosen.model@ == acting.slug@
                &&& *chosen.model_info == *acting
                &&& chosen.provider_id@ == config.model_provider_id@
                &&& *chosen.provider == config.model_provider
                &&& !chosen.model_overridden
                &&& chosen.model_override is None
            },
            _ => false,
        },
{
}

/// Everywhere else a missing preferred model is refused.
pub proof fn law_unlisted_preferred_model_is_refused<'a, S, M>(
    config: &'a Config<S>,
    acting: &'a ModelInfo<M>,
    session_effort: Option<ReasoningEffort>,
    default_model: String,
    catalog: &Vec<ModelPreset>,
    model_info: Option<&'a ModelInfo<M>>,
    choice: Result<(String, &'a ModelProviderInfo<S>), ReviewerError>,
    resolution: Result<ReviewerResolution<'a, S, M>, ReviewerError>,
)
    requires
        call_ensures(select_reviewer_provider::<S>, (config,), choice),
        choice is Ok,
        call_ensures(
            resolve_guardian_reviewer::<S, M>,
            (config, acting, session_effort, default_model, catalog, model_info),
            resolution,
        ),
        config.auto_review is None || config.auto_review->0.model is None,
        acting.auto_review_model_override is None || choice->Ok_0.0@ != config.model_provider_id@,
        forall|i: int|
            0 <= i < catalog@.len() ==> (#[trigger] catalog@[i]).model@ != default_model@,
        ({
            ||| config.model_provider_id@ != config.reserved.openai@
            ||| config.auto_review is Some && config.auto_review->0.model_provider is Some
        }),
    ensures
        match resolution {
            Err(ReviewerError::ModelNotAvailable { model, provider_id }) => {
                &&& model@ == default_model@
                &&& provider_id@ == choice->Ok_0.0@
            },
            _ => false,
        },
{
}

/// Metadata is asked for only where there is none yet.
pub proof fn law_metadata_is_asked_for_once<'a, S, M>(
    config: &'a Config<S>,
    acting: &'a ModelInfo<M>,
    session_effort: Option<ReasoningEffort>,
    default_model: String,
    catalog: &Vec<ModelPreset>,
    model_info: Option<&'a ModelInfo<M>>,
    asked: String,
)
    requires
        call_ensures(
            resolve_guardian_reviewer::<S, M>,
            (config, acting, session_effort, default_model, catalog, model_info),
            Ok(ReviewerResolution::FetchModelInfo(asked)),
        ),
    ensures
        model_info is None,
{
}

/// The level of reasoning that the owner named is used.
pub proof fn law_named_effort_is_used<'a, S, M>(
    config: &'a Config<S>,
    acting: &'a ModelInfo<M>,
    session_effort: Option<ReasoningEffort>,
    default_model: String,
    catalog: &Vec<ModelPreset>,
    model_info: Option<&'a ModelInfo<M>>,
    chosen: GuardianReviewerConfig<'a, S, M>,
)
    requires
        call_ensures(
            resolve_guardian_reviewer::<S, M>,
            (config, acting, session_effort, default_model, catalog, model_info),
            Ok(ReviewerResolution::Resolved(chosen)),
        ),
        config.auto_review is Some,
        config.auto_review->0.reasoning_effort is Some,
    ensures
        chosen.reasoning_effort == config.auto_review->0.reasoning_effort,
{
}

/// The low level is used where the first catalog entry of the model that reviews offers it, at
/// whatever place in its list, unless the owner named a level or the acting model stands in for a
/// missing one.
pub proof fn law_low_effort_of_the_catalog_is_used<'a, S, M>(
    config: &'a Config<S>,
    acting: &'a ModelInfo<M>,
    session_effort: Option<ReasoningEffort>,
    default_model: String,
    catalog: &Vec<ModelPreset>,
    model_info: Option<&'a ModelInfo<M>>,
    listed: int,
    at: int,
    low: int,
    chosen: GuardianReviewerConfig<'a, S, M>,
)
    requires
        call_ensures(
            resolve_guardian_reviewer::<S, M>,
            (config, acting, session_effort, default_model, catalog, model_info),
            Ok(ReviewerResolution::Resolved(chosen)),
        ),
        config.auto_review is None || config.auto_review->0.reasoning_effort is None,
        ({
            ||| config.auto_review is Some && config.auto_review->0.model is Some
            ||| {
                &&& acting.auto_review_model_override is Some
                &&& chosen.provider_id@ == config.model_provider_id@
            }
            ||| 0 <= listed < catalog@.len() && catalog@[listed].model@ == default_model@
        }),
        0 <= at < catalog@.len(),
        catalog@[at].model@ == chosen.model@,
        forall|i: int| 0 <= i < at ==> (#[trigger] catalog@[i]).model@ != chosen.model@,
        0 <= low < catalog@[at].supported_reasoning_efforts@.len(),
        catalog@[at].supported_reasoning_efforts@[low].effort is Low,
    ensures
        chosen.reasoning_effort == Some(ReasoningEffort::Low),
{
    lemma_first_preset_is_unique(catalog@, chosen.model@, at);
}

/// Where that entry does not offer the low level, its default is used.
pub proof fn law_default_effort_of_the_catalog_is_used<'a, S, M>(
    config: &'a Config<S>,
    acting: &'a ModelInfo<M>,
    session_effort: Option<ReasoningEffort>,
    default_model: String,
    catalog: &Vec<ModelPreset>,
    model_info: Option<&'a ModelInfo<M>>,
    listed: int,
    at: int,
    chosen: GuardianReviewerConfig<'a, S, M>,
)
    requires
        call_ensures(
            resolve_guardian_reviewer::<S, M>,
            (config, acting, session_effort, default_model, catalog, model_info),
            Ok(ReviewerResolution::Resolved(chosen)),
        ),
        config.auto_review is None || config.auto_review->0.reasoning_effort is None,
        ({
            ||| config.auto_review is Some && config.auto_review->0.model is Some
            ||| {
                &&& acting.auto_review_model_override is Some
                &&& chosen.provider_id@ == config.model_provider_id@
            }
            ||| 0 <= listed < catalog@.len() && catalog@[listed].model@ == default_model@
        }),
        0 <= at < catalog@.len(),
        catalog@[at].model@ == chosen.model@,
        forall|i: int| 0 <= i < at ==> (#[trigger] catalog@[i]).model@ != chosen.model@,
        forall|i: int|
            0 <= i < catalog@[at].supported_reasoning_efforts@.len() ==> !((
            #[trigger] catalog@[at].supported_reasoning_efforts@[i]).effort is Low),
    ensures
        chosen.reasoning_effort == Some(catalog@[at].default_reasoning_effort),
{
    lemma_first_preset_is_unique(catalog@, chosen.model@, at);
}

/// Where the catalog does not have the model that reviews, or the acting model stands in for a
/// missing one, the low level is used if the acting model offers it, at whatever place in its list,
/// unless the owner named a level.
pub proof fn law_low_effort_of_the_acting_model_is_used<'a, S, M>(
    config: &'a Config<S>,
    acting: &'a ModelInfo<M>,
    session_effort: Option<ReasoningEffort>,
    default_model: String,
    catalog: &Vec<ModelPreset>,
    model_info: Option<&'a ModelInfo<M>>,
    low: int,
    chosen: GuardianReviewerConfig<'a, S, M>,
)
    requires
        call_ensures(
            resolve_guardian_reviewer::<S, M>,
            (config, acting, session_effort, default_model, catalog, model_info),
            Ok(ReviewerResolution::Resolved(chosen)),
        ),
        config.auto_review is None || config.auto_review->0.reasoning_effort is None,
        ({
            ||| forall|i: int|
                0 <= i < catalog@.len() ==> (#[trigger] catalog@[i]).model@ != chosen.model@
            ||| {
                &&& config.auto_review is None || config.auto_review->0.model is None
                &&& acting.auto_review_model_override is None
                &&& forall|i: int|
                    0 <= i < catalog@.len() ==> (#[trigger] catalog@[i]).model@ != default_model@
            }
        }),
        0 <= low < acting.supported_reasoning_levels@.len(),
        acting.supported_reasoning_levels@[low].effort is Low,
    ensures
        chosen.reasoning_effort == Some(ReasoningEffort::Low),
{
}

/// Where the acting model does not offer the low level either, the session's own level is used, and
/// the acting model's default where the session has none.
pub proof fn law_effort_of_the_session_comes_next<'a, S, M>(
    config: &'a Config<S>,
    acting: &'a ModelInfo<M>,
    session_effort: Option<ReasoningEffort>,
    default_model: String,
    catalog: &Vec<ModelPreset>,
    model_info: Option<&'a ModelInfo<M>>,
    chosen: GuardianReviewerConfig<'a, S, M>,
)
    requires
        call_ensures(
            resolve_guardian_reviewer::<S, M>,
            (config, acting, session_effort, default_model, catalog, model_info),
            Ok(ReviewerResolution::Resolved(chosen)),
        ),
        config.auto_review is None || config.auto_review->0.reasoning_effort is None,
        ({
            ||| forall|i: int|
                0 <= i < catalog@.len() ==> (#[trigger] catalog@[i]).model@ != chosen.model@
            ||| {
                &&& config.auto_review is None || config.auto_review->0.model is None
                &&& acting.auto_review_model_override is None
                &&& forall|i: int|
                    0 <= i < catalog@.len() ==> (#[trigger] catalog@[i]).model@ != default_model@
            }
        }),
        forall|i: int|
            0 <= i < acting.supported_reasoning_levels@.len() ==> !((
            #[trigger] acting.supported_reasoning_levels@[i]).effort is Low),
    ensures
        session_effort is Some ==> chosen.reasoning_effort == session_effort,
        session_effort is None ==> chosen.reasoning_effort == acting.default_reasoning_level,
{
}

/// The model that the selected provider prefers is reported, and whether the catalog has it.
pub proof fn law_preferred_model_is_reported<'a, S, M>(
    config: &'a Config<S>,
    acting: &'a ModelInfo<M>,
    session_effort: Option<ReasoningEffort>,
    default_model: String,
    catalog: &Vec<ModelPreset>,
    model_info: Option<&'a ModelInfo<M>>,
    chosen: GuardianReviewerConfig<'a, S, M>,
)
    requires
        call_ensures(
            resolve_guardian_reviewer::<S, M>,
            (config, acting, session_effort, default_model, catalog, model_info),
            Ok(ReviewerResolution::Resolved(chosen)),
        ),
    ensures
        chosen.default_model_id@ == default_model@,
        chosen.catalog_contains_default <==> exists|i: int|
            0 <= i < catalog@.len() && (#[trigger] catalog@[i]).model@ == default_model@,
{
}

} // verus!
