//! What holds of every choice of a Guardian review session.

use crate::guardian::{
    catalog_override, in_catalog, model_is_missing, resolves_to, trusted_provider,
};
use crate::guardian_types::{
    text_of, Config, GuardianReviewerConfig, ModelInfo, ModelPreset, ModelProviderInfo,
    ReasoningEffort, ReservedProviderIds, ReviewerError, ReviewerResolution,
};
use vstd::prelude::*;

verus! {

/// Only a trusted provider ever reviews, under a reserved id.
pub proof fn law_chosen_provider_is_trusted<'a, S, M>(
    config: Config<S>,
    acting: ModelInfo<M>,
    session_effort: Option<ReasoningEffort>,
    default_model: Seq<char>,
    catalog: Seq<ModelPreset>,
    model_info: Option<ModelInfo<M>>,
    chosen: GuardianReviewerConfig<'a, S, M>,
)
    requires
        resolves_to(
            config,
            acting,
            session_effort,
            default_model,
            catalog,
            model_info,
            Ok(ReviewerResolution::Resolved(chosen)),
        ),
    ensures
        trusted_provider(config.reserved, chosen.provider_id@, *chosen.provider),
        ({
            ||| chosen.provider_id@ == config.reserved.openai@
            ||| chosen.provider_id@ == config.reserved.amazon_bedrock@
            ||| chosen.provider_id@ == config.reserved.amazon_bedrock_runtime@
        }),
{
}

/// An untrusted acting provider never reviews its own commands.
pub proof fn law_untrusted_provider_never_reviews_itself<'a, S, M>(
    config: Config<S>,
    acting: ModelInfo<M>,
    session_effort: Option<ReasoningEffort>,
    default_model: Seq<char>,
    catalog: Seq<ModelPreset>,
    model_info: Option<ModelInfo<M>>,
    chosen: GuardianReviewerConfig<'a, S, M>,
)
    requires
        !config.acting_is_trusted(),
        resolves_to(
            config,
            acting,
            session_effort,
            default_model,
            catalog,
            model_info,
            Ok(ReviewerResolution::Resolved(chosen)),
        ),
    ensures
        chosen.provider_id@ != config.model_provider_id@,
        config.model_providers@.contains_key(chosen.provider_id@),
        *chosen.provider == config.model_providers@[chosen.provider_id@],
{
}

/// An untrusted acting provider is reviewed by OpenAI unless the owner named another provider.
pub proof fn law_untrusted_session_defaults_to_openai<'a, S, M>(
    config: Config<S>,
    acting: ModelInfo<M>,
    session_effort: Option<ReasoningEffort>,
    default_model: Seq<char>,
    catalog: Seq<ModelPreset>,
    model_info: Option<ModelInfo<M>>,
    chosen: GuardianReviewerConfig<'a, S, M>,
)
    requires
        !config.acting_is_trusted(),
        config.owner_provider() is None,
        resolves_to(
            config,
            acting,
            session_effort,
            default_model,
            catalog,
            model_info,
            Ok(ReviewerResolution::Resolved(chosen)),
        ),
    ensures
        chosen.provider_id@ == config.reserved.openai@,
{
}

/// Where the acting provider is untrusted, or is not the one that reviews, nothing of the acting
/// model counts, its override least of all: whatever it is, and whatever the session's level of
/// reasoning, the same choice is made.
pub proof fn law_foreign_model_has_no_part<'a, 'b, S, M>(
    config: Config<S>,
    acting: ModelInfo<M>,
    other: ModelInfo<M>,
    session_effort: Option<ReasoningEffort>,
    other_effort: Option<ReasoningEffort>,
    default_model: Seq<char>,
    catalog: Seq<ModelPreset>,
    model_info: Option<ModelInfo<M>>,
    a: Result<ReviewerResolution<'a, S, M>, ReviewerError>,
    b: Result<ReviewerResolution<'b, S, M>, ReviewerError>,
)
    requires
        !config.acting_is_trusted() || config.review_provider_id() != config.model_provider_id@,
        resolves_to(config, acting, session_effort, default_model, catalog, model_info, a),
        resolves_to(config, other, other_effort, default_model, catalog, model_info, b),
    ensures
        same_resolution(a, b),
{
}

/// Trust rests on every credential setting: where the reserved ids differ, a trusted provider
/// loses it by any one change among them.
pub proof fn law_one_changed_credential_revokes_trust<S>(
    reserved: ReservedProviderIds,
    provider_id: Seq<char>,
    provider: ModelProviderInfo<S>,
    secret: String,
)
    requires
        reserved.are_distinct(),
        trusted_provider(reserved, provider_id, provider),
    ensures
        !trusted_provider(
            reserved,
            provider_id,
            ModelProviderInfo { env_key: Some(secret), ..provider },
        ),
        !trusted_provider(
            reserved,
            provider_id,
            ModelProviderInfo { experimental_bearer_token: Some(secret), ..provider },
        ),
        !trusted_provider(
            reserved,
            provider_id,
            ModelProviderInfo { has_auth: !provider.has_auth, ..provider },
        ),
        !trusted_provider(
            reserved,
            provider_id,
            ModelProviderInfo { has_aws: !provider.has_aws, ..provider },
        ),
{
}

/// A model that must be in the offline catalog and is not is an error, outside the trusted OpenAI
/// sessions whose owner named neither provider nor model.
pub proof fn law_review_fails_closed<'a, S, M>(
    config: Config<S>,
    acting: ModelInfo<M>,
    session_effort: Option<ReasoningEffort>,
    default_model: Seq<char>,
    catalog: Seq<ModelPreset>,
    model_info: Option<ModelInfo<M>>,
    resolution: Result<ReviewerResolution<'a, S, M>, ReviewerError>,
)
    requires
        model_is_missing(config, acting, default_model, catalog),
        !config.may_fall_back(),
        resolves_to(
            config,
            acting,
            session_effort,
            default_model,
            catalog,
            model_info,
            resolution,
        ),
    ensures
        resolution is Err,
        config.review_provider_is_usable() ==> resolution->Err_0 is ModelNotAvailable,
{
}

/// No provider but OpenAI lets the acting model stand in for a missing one: Bedrock's identity
/// alone does not.
pub proof fn law_only_openai_sessions_fall_back<'a, S, M>(
    config: Config<S>,
    acting: ModelInfo<M>,
    session_effort: Option<ReasoningEffort>,
    default_model: Seq<char>,
    catalog: Seq<ModelPreset>,
    model_info: Option<ModelInfo<M>>,
    resolution: Result<ReviewerResolution<'a, S, M>, ReviewerError>,
)
    requires
        config.model_provider_id@ != config.reserved.openai@,
        model_is_missing(config, acting, default_model, catalog),
        resolves_to(
            config,
            acting,
            session_effort,
            default_model,
            catalog,
            model_info,
            resolution,
        ),
    ensures
        resolution is Err,
{
}

/// A trusted OpenAI session whose owner named neither provider nor model is reviewed by its own
/// model where the preferred one is missing.
pub proof fn law_openai_session_falls_back<'a, S, M>(
    config: Config<S>,
    acting: ModelInfo<M>,
    session_effort: Option<ReasoningEffort>,
    default_model: Seq<char>,
    catalog: Seq<ModelPreset>,
    model_info: Option<ModelInfo<M>>,
    resolution: Result<ReviewerResolution<'a, S, M>, ReviewerError>,
)
    requires
        config.may_fall_back(),
        model_is_missing(config, acting, default_model, catalog),
        resolves_to(
            config,
            acting,
            session_effort,
            default_model,
            catalog,
            model_info,
            resolution,
        ),
    ensures
        resolution is Ok,
        resolution->Ok_0 is Resolved,
        resolution->Ok_0->Resolved_0.model@ == acting.slug@,
        resolution->Ok_0->Resolved_0.provider_id@ == config.model_provider_id@,
        *resolution->Ok_0->Resolved_0.provider == config.model_provider,
{
}

/// The model that reviews is in the offline catalog, or was named by the catalog for a trusted
/// acting model, or is the acting model of a session that may fall back to it.
pub proof fn law_review_model_is_accounted_for<'a, S, M>(
    config: Config<S>,
    acting: ModelInfo<M>,
    session_effort: Option<ReasoningEffort>,
    default_model: Seq<char>,
    catalog: Seq<ModelPreset>,
    model_info: Option<ModelInfo<M>>,
    chosen: GuardianReviewerConfig<'a, S, M>,
)
    requires
        resolves_to(
            config,
            acting,
            session_effort,
            default_model,
            catalog,
            model_info,
            Ok(ReviewerResolution::Resolved(chosen)),
        ),
    ensures
        ({
            ||| in_catalog(catalog, chosen.model@)
            ||| {
                &&& config.owner_model() is None
                &&& config.acting_is_trusted()
                &&& catalog_override(config, acting) == Some(chosen.model@)
            }
            ||| config.may_fall_back() && chosen.model@ == acting.slug@
        }),
{
}

/// What the owner named is used: the provider, the model and the level of reasoning.
pub proof fn law_owner_wishes_win<'a, S, M>(
    config: Config<S>,
    acting: ModelInfo<M>,
    session_effort: Option<ReasoningEffort>,
    default_model: Seq<char>,
    catalog: Seq<ModelPreset>,
    model_info: Option<ModelInfo<M>>,
    chosen: GuardianReviewerConfig<'a, S, M>,
)
    requires
        resolves_to(
            config,
            acting,
            session_effort,
            default_model,
            catalog,
            model_info,
            Ok(ReviewerResolution::Resolved(chosen)),
        ),
    ensures
        config.owner_provider() is Some ==> Some(chosen.provider_id@) == config.owner_provider(),
        config.owner_model() is Some ==> Some(chosen.model@) == config.owner_model(),
        config.owner_effort() is Some ==> chosen.reasoning_effort == config.owner_effort(),
{
}

/// An owner's override is reported exactly where there is one, and it names the model that reviews.
pub proof fn law_override_is_reported<'a, S, M>(
    config: Config<S>,
    acting: ModelInfo<M>,
    session_effort: Option<ReasoningEffort>,
    default_model: Seq<char>,
    catalog: Seq<ModelPreset>,
    model_info: Option<ModelInfo<M>>,
    chosen: GuardianReviewerConfig<'a, S, M>,
)
    requires
        resolves_to(
            config,
            acting,
            session_effort,
            default_model,
            catalog,
            model_info,
            Ok(ReviewerResolution::Resolved(chosen)),
        ),
    ensures
        chosen.model_overridden == (config.owner_model() is Some),
        text_of(chosen.model_override) == config.owner_model(),
        chosen.model_override is Some ==> chosen.model_override->0@ == chosen.model@,
{
}

/// Once the metadata that was asked for is there, the choice is made, of the very model that the
/// metadata was asked for.
pub proof fn law_fetched_metadata_completes_the_choice<'a, 'b, S, M>(
    config: Config<S>,
    acting: ModelInfo<M>,
    session_effort: Option<ReasoningEffort>,
    default_model: Seq<char>,
    catalog: Seq<ModelPreset>,
    asked: String,
    model_info: ModelInfo<M>,
    resolution: Result<ReviewerResolution<'b, S, M>, ReviewerError>,
)
    requires
        resolves_to::<S, M>(
            config,
            acting,
            session_effort,
            default_model,
            catalog,
            None,
            Ok(ReviewerResolution::FetchModelInfo(asked)),
        ),
        resolves_to(
            config,
            acting,
            session_effort,
            default_model,
            catalog,
            Some(model_info),
            resolution,
        ),
    ensures
        resolution is Ok,
        resolution->Ok_0 is Resolved,
        resolution->Ok_0->Resolved_0.model@ == asked@,
        *resolution->Ok_0->Resolved_0.model_info == model_info,
{
}

/// The owner's policy addition has no part in the choice: configurations that agree on everything
/// else lead to the same one.
pub proof fn law_policy_has_no_part<'a, S, M>(
    config: Config<S>,
    other: Config<S>,
    acting: ModelInfo<M>,
    session_effort: Option<ReasoningEffort>,
    default_model: Seq<char>,
    catalog: Seq<ModelPreset>,
    model_info: Option<ModelInfo<M>>,
    resolution: Result<ReviewerResolution<'a, S, M>, ReviewerError>,
)
    requires
        other.reserved == config.reserved,
        other.model_provider_id == config.model_provider_id,
        other.model_provider == config.model_provider,
        other.model_providers == config.model_providers,
        other.owner_provider() == config.owner_provider(),
        other.owner_model() == config.owner_model(),
        other.owner_effort() == config.owner_effort(),
    ensures
        resolves_to(
            config,
            acting,
            session_effort,
            default_model,
            catalog,
            model_info,
            resolution,
        ) == resolves_to(
            other,
            acting,
            session_effort,
            default_model,
            catalog,
            model_info,
            resolution,
        ),
{
}

/// Two answers are the same, text for text.
pub open spec fn same_resolution<'a, 'b, S, M>(
    a: Result<ReviewerResolution<'a, S, M>, ReviewerError>,
    b: Result<ReviewerResolution<'b, S, M>, ReviewerError>,
) -> bool {
    match (a, b) {
        (
            Err(ReviewerError::ProviderNotConfigured { provider_id: p }),
            Err(ReviewerError::ProviderNotConfigured { provider_id: q }),
        ) => p@ == q@,
        (
            Err(ReviewerError::ProviderNotTrusted { provider_id: p }),
            Err(ReviewerError::ProviderNotTrusted { provider_id: q }),
        ) => p@ == q@,
        (
            Err(ReviewerError::ModelNotAvailable { model: m, provider_id: p }),
            Err(ReviewerError::ModelNotAvailable { model: n, provider_id: q }),
        ) => m@ == n@ && p@ == q@,
        (
            Ok(ReviewerResolution::FetchModelInfo(m)),
            Ok(ReviewerResolution::FetchModelInfo(n)),
        ) => m@ == n@,
        (Ok(ReviewerResolution::Resolved(c)), Ok(ReviewerResolution::Resolved(d))) => {
            &&& c.provider_id@ == d.provider_id@
            &&& *c.provider == *d.provider
            &&& c.model@ == d.model@
            &&& *c.model_info == *d.model_info
            &&& c.reasoning_effort == d.reasoning_effort
            &&& c.default_model_id@ == d.default_model_id@
            &&& c.catalog_contains_default == d.catalog_contains_default
            &&& c.model_overridden == d.model_overridden
            &&& text_of(c.model_override) == text_of(d.model_override)
        },
        _ => false,
    }
}

/// The choice is determined by what it is made from.
pub proof fn law_choice_is_determined<'a, 'b, S, M>(
    config: Config<S>,
    acting: ModelInfo<M>,
    session_effort: Option<ReasoningEffort>,
    default_model: Seq<char>,
    catalog: Seq<ModelPreset>,
    model_info: Option<ModelInfo<M>>,
    a: Result<ReviewerResolution<'a, S, M>, ReviewerError>,
    b: Result<ReviewerResolution<'b, S, M>, ReviewerError>,
)
    requires
        resolves_to(config, acting, session_effort, default_model, catalog, model_info, a),
        resolves_to(config, acting, session_effort, default_model, catalog, model_info, b),
    ensures
        same_resolution(a, b),
{
}

} // verus!
