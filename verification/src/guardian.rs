//! The choice of the provider and model that review a session's commands.

use crate::guardian_types::{
    text_of, Config, GuardianReviewerConfig, ModelInfo, ModelPreset, ModelProviderInfo,
    ReasoningEffort, ReasoningEffortPreset, ReservedProviderIds, ReviewerError, ReviewerResolution,
};
use vstd::prelude::*;
use vstd::string::*;

verus! {

/// OpenAI under its own id, with the session's credentials and no others.
pub open spec fn trusted_openai<S>(
    reserved: ReservedProviderIds,
    provider_id: Seq<char>,
    provider: ModelProviderInfo<S>,
) -> bool {
    &&& provider_id == reserved.openai@
    &&& provider.is_openai
    &&& provider.requires_openai_auth
    &&& provider.env_key is None
    &&& provider.experimental_bearer_token is None
    &&& !provider.has_auth
    &&& !provider.has_aws
}

/// Amazon Bedrock under one of its own ids, with AWS signing and no other credentials.
pub open spec fn trusted_bedrock<S>(
    reserved: ReservedProviderIds,
    provider_id: Seq<char>,
    provider: ModelProviderInfo<S>,
) -> bool {
    &&& provider_id == reserved.amazon_bedrock@ || provider_id == reserved.amazon_bedrock_runtime@
    &&& provider.is_amazon_bedrock
    &&& provider.has_aws
    &&& provider.env_key is None
    &&& provider.experimental_bearer_token is None
    &&& !provider.has_auth
}

/// The provider may review untrusted models.
pub open spec fn trusted_provider<S>(
    reserved: ReservedProviderIds,
    provider_id: Seq<char>,
    provider: ModelProviderInfo<S>,
) -> bool {
    trusted_openai(reserved, provider_id, provider) || trusted_bedrock(
        reserved,
        provider_id,
        provider,
    )
}

impl ReservedProviderIds {
    /// No two of the ids are the same.
    pub open spec fn are_distinct(self) -> bool {
        &&& self.openai@ != self.amazon_bedrock@
        &&& self.openai@ != self.amazon_bedrock_runtime@
        &&& self.amazon_bedrock@ != self.amazon_bedrock_runtime@
    }
}

/// Whether the provider identity is eligible to review untrusted models.
pub fn is_trusted_reviewer_provider<S>(
    reserved: &ReservedProviderIds,
    provider_id: &str,
    provider: &ModelProviderInfo<S>,
) -> (trusted: bool)
    ensures
        trusted == trusted_provider(*reserved, provider_id@, *provider),
{
    let provider_id = provider_id.to_owned();
    let trusted_openai = provider_id == reserved.openai && provider.is_openai
        && provider.requires_openai_auth && provider.env_key.is_none()
        && provider.experimental_bearer_token.is_none() && !provider.has_auth && !provider.has_aws;
    let trusted_bedrock = (provider_id == reserved.amazon_bedrock || provider_id
        == reserved.amazon_bedrock_runtime) && provider.is_amazon_bedrock && provider.has_aws
        && provider.env_key.is_none() && provider.experimental_bearer_token.is_none()
        && !provider.has_auth;
    trusted_openai || trusted_bedrock
}

impl<S> Config<S> {
    /// The acting provider may review.
    pub open spec fn acting_is_trusted(self) -> bool {
        trusted_provider(self.reserved, self.model_provider_id@, self.model_provider)
    }

    /// The provider that the owner named for reviews.
    pub open spec fn owner_provider(self) -> Option<Seq<char>> {
        match self.auto_review {
            Some(wishes) => text_of(wishes.model_provider),
            None => None,
        }
    }

    /// The model that the owner named for reviews.
    pub open spec fn owner_model(self) -> Option<Seq<char>> {
        match self.auto_review {
            Some(wishes) => text_of(wishes.model),
            None => None,
        }
    }

    /// The level of reasoning that the owner named for reviews.
    pub open spec fn owner_effort(self) -> Option<ReasoningEffort> {
        match self.auto_review {
            Some(wishes) => wishes.reasoning_effort,
            None => None,
        }
    }

    /// The id of the provider that is to review: the owner's choice, else the acting provider
    /// where it is trusted, else OpenAI.
    pub open spec fn review_provider_id(self) -> Seq<char> {
        match self.owner_provider() {
            Some(id) => id,
            None => if self.acting_is_trusted() {
                self.model_provider_id@
            } else {
                self.reserved.openai@
            },
        }
    }

    /// The provider with that id, where one is configured.
    pub open spec fn review_provider(self) -> Option<ModelProviderInfo<S>> {
        let id = self.review_provider_id();
        if id == self.model_provider_id@ {
            Some(self.model_provider)
        } else if self.model_providers@.contains_key(id) {
            Some(self.model_providers@[id])
        } else {
            None
        }
    }

    /// The provider that is to review is configured and trusted.
    pub open spec fn review_provider_is_usable(self) -> bool {
        match self.review_provider() {
            Some(provider) => trusted_provider(self.reserved, self.review_provider_id(), provider),
            None => false,
        }
    }

    /// The acting model's catalog entry may name the model that reviews.
    pub open spec fn catalog_may_override(self) -> bool {
        self.review_provider_id() == self.model_provider_id@ && self.acting_is_trusted()
    }

    /// A missing model may be replaced by the acting one: a trusted OpenAI session whose owner
    /// named neither provider nor model.
    pub open spec fn may_fall_back(self) -> bool {
        &&& self.owner_provider() is None
        &&& self.owner_model() is None
        &&& self.model_provider_id@ == self.reserved.openai@
        &&& self.acting_is_trusted()
    }
}

/// The model that the catalog names for reviews, where it may.
pub open spec fn catalog_override<S, M>(config: Config<S>, acting: ModelInfo<M>) -> Option<
    Seq<char>,
> {
    if config.catalog_may_override() {
        text_of(acting.auto_review_model_override)
    } else {
        None
    }
}

/// The model named by the owner, else by the catalog.
pub open spec fn named_model<S, M>(config: Config<S>, acting: ModelInfo<M>) -> Option<Seq<char>> {
    match config.owner_model() {
        Some(model) => Some(model),
        None => catalog_override(config, acting),
    }
}

/// The model that is to review: the named one, else the provider's preferred one.
pub open spec fn review_model<S, M>(
    config: Config<S>,
    acting: ModelInfo<M>,
    default_model: Seq<char>,
) -> Seq<char> {
    match named_model(config, acting) {
        Some(model) => model,
        None => default_model,
    }
}

/// Entry `i` of the catalog is the first one for `model`.
pub open spec fn first_preset(catalog: Seq<ModelPreset>, model: Seq<char>, i: int) -> bool {
    &&& 0 <= i < catalog.len()
    &&& catalog[i].model@ == model
    &&& forall|j: int| 0 <= j < i ==> (#[trigger] catalog[j]).model@ != model
}

/// The catalog has an entry for `model`.
pub open spec fn in_catalog(catalog: Seq<ModelPreset>, model: Seq<char>) -> bool {
    exists|i: int| 0 <= i < catalog.len() && (#[trigger] catalog[i]).model@ == model
}

/// The model must be in the catalog and is not: only a model that the catalog itself named for
/// the acting one may be missing.
pub open spec fn model_is_missing<S, M>(
    config: Config<S>,
    acting: ModelInfo<M>,
    default_model: Seq<char>,
    catalog: Seq<ModelPreset>,
) -> bool {
    &&& config.owner_model() is Some || catalog_override(config, acting) is None
    &&& !in_catalog(catalog, review_model(config, acting, default_model))
}

/// One of the levels is the low one.
pub open spec fn offers_low(levels: Seq<ReasoningEffortPreset>) -> bool {
    exists|i: int| 0 <= i < levels.len() && (#[trigger] levels[i]).effort is Low
}

/// The first of two that is there.
pub open spec fn first_of<T>(a: Option<T>, b: Option<T>) -> Option<T> {
    if a is Some {
        a
    } else {
        b
    }
}

/// The level that follows from the acting model: low where it offers it, else the session's own,
/// else the model's default.
pub open spec fn acting_effort<M>(
    acting: ModelInfo<M>,
    session_effort: Option<ReasoningEffort>,
) -> Option<ReasoningEffort> {
    if offers_low(acting.supported_reasoning_levels@) {
        Some(ReasoningEffort::Low)
    } else {
        first_of(session_effort, acting.default_reasoning_level)
    }
}

/// The level that follows from a catalog entry: low where it offers it, else its default.
pub open spec fn preset_effort(preset: ModelPreset) -> ReasoningEffort {
    if offers_low(preset.supported_reasoning_efforts@) {
        ReasoningEffort::Low
    } else {
        preset.default_reasoning_effort
    }
}

/// The level of a review by `model`: the owner's, else that of the catalog's first entry for the
/// model, else the one that follows from the acting model.
pub open spec fn review_effort<S, M>(
    config: Config<S>,
    acting: ModelInfo<M>,
    session_effort: Option<ReasoningEffort>,
    catalog: Seq<ModelPreset>,
    model: Seq<char>,
) -> Option<ReasoningEffort> {
    if config.owner_effort() is Some {
        config.owner_effort()
    } else if in_catalog(catalog, model) {
        Some(preset_effort(catalog[choose|i: int| first_preset(catalog, model, i)]))
    } else {
        acting_effort(acting, session_effort)
    }
}

impl<'a, S, M> GuardianReviewerConfig<'a, S, M> {
    /// The chosen provider is the one that the configuration calls for, and the preferred model
    /// is reported along with its presence in the catalog.
    pub open spec fn has_provider_of(
        self,
        config: Config<S>,
        default_model: Seq<char>,
        catalog: Seq<ModelPreset>,
    ) -> bool {
        &&& self.provider_id@ == config.review_provider_id()
        &&& Some(*self.provider) == config.review_provider()
        &&& self.default_model_id@ == default_model
        &&& self.catalog_contains_default == in_catalog(catalog, default_model)
    }

    /// The acting model reviews in place of a missing one.
    pub open spec fn falls_back(
        self,
        config: Config<S>,
        acting: ModelInfo<M>,
        session_effort: Option<ReasoningEffort>,
    ) -> bool {
        &&& self.model@ == acting.slug@
        &&& *self.model_info == acting
        &&& self.reasoning_effort == first_of(
            config.owner_effort(),
            acting_effort(acting, session_effort),
        )
        &&& !self.model_overridden
        &&& self.model_override is None
    }

    /// The model that is to review was found.
    pub open spec fn uses_review_model(
        self,
        config: Config<S>,
        acting: ModelInfo<M>,
        session_effort: Option<ReasoningEffort>,
        default_model: Seq<char>,
        catalog: Seq<ModelPreset>,
        model_info: ModelInfo<M>,
    ) -> bool {
        let model = review_model(config, acting, default_model);
        &&& self.model@ == model
        &&& *self.model_info == model_info
        &&& self.reasoning_effort == review_effort(config, acting, session_effort, catalog, model)
        &&& self.model_overridden == (config.owner_model() is Some)
        &&& text_of(self.model_override) == config.owner_model()
    }
}

/// What the choice comes to: which error on which inputs, and otherwise the chosen provider, model
/// and level of reasoning, or the model whose metadata is still to be fetched.
pub open spec fn resolves_to<'a, S, M>(
    config: Config<S>,
    acting: ModelInfo<M>,
    session_effort: Option<ReasoningEffort>,
    default_model: Seq<char>,
    catalog: Seq<ModelPreset>,
    model_info: Option<ModelInfo<M>>,
    resolution: Result<ReviewerResolution<'a, S, M>, ReviewerError>,
) -> bool {
    let missing = model_is_missing(config, acting, default_model, catalog);
    match resolution {
        Err(ReviewerError::ProviderNotConfigured { provider_id }) => {
            &&& config.review_provider() is None
            &&& provider_id@ == config.review_provider_id()
        },
        Err(ReviewerError::ProviderNotTrusted { provider_id }) => {
            &&& config.review_provider() is Some
            &&& !config.review_provider_is_usable()
            &&& provider_id@ == config.review_provider_id()
        },
        Err(ReviewerError::ModelNotAvailable { model, provider_id }) => {
            &&& config.review_provider_is_usable()
            &&& missing
            &&& !config.may_fall_back()
            &&& model@ == review_model(config, acting, default_model)
            &&& provider_id@ == config.review_provider_id()
        },
        Ok(ReviewerResolution::FetchModelInfo(model)) => {
            &&& config.review_provider_is_usable()
            &&& !missing
            &&& model_info is None
            &&& model@ == review_model(config, acting, default_model)
        },
        Ok(ReviewerResolution::Resolved(chosen)) => {
            &&& config.review_provider_is_usable()
            &&& chosen.has_provider_of(config, default_model, catalog)
            &&& if missing {
                &&& config.may_fall_back()
                &&& chosen.falls_back(config, acting, session_effort)
            } else {
                &&& model_info is Some
                &&& chosen.uses_review_model(
                    config,
                    acting,
                    session_effort,
                    default_model,
                    catalog,
                    model_info->0,
                )
            }
        },
    }
}

fn offers_low_effort(levels: &Vec<ReasoningEffortPreset>) -> (low: bool)
    ensures
        low == offers_low(levels@),
        low <==> exists|i: int| 0 <= i < levels@.len() && (#[trigger] levels@[i]).effort is Low,
{
    let mut i: usize = 0;
    while i < levels.len()
        invariant
            i <= levels@.len(),
            forall|j: int| 0 <= j < i ==> !((#[trigger] levels@[j]).effort is Low),
        decreases levels@.len() - i,
    {
        match levels[i].effort {
            ReasoningEffort::Low => {
                return true;
            },
            _ => {},
        }
        i = i + 1;
    }
    false
}

fn find_preset(catalog: &Vec<ModelPreset>, model: &String) -> (at: Option<usize>)
    ensures
        match at {
            Some(i) => first_preset(catalog@, model@, i as int),
            None => !in_catalog(catalog@, model@),
        },
{
    let mut i: usize = 0;
    while i < catalog.len()
        invariant
            i <= catalog@.len(),
            forall|j: int| 0 <= j < i ==> (#[trigger] catalog@[j]).model@ != model@,
        decreases catalog@.len() - i,
    {
        if catalog[i].model == *model {
            return Some(i);
        }
        i = i + 1;
    }
    None
}

fn acting_model_effort<M>(
    acting: &ModelInfo<M>,
    session_effort: Option<ReasoningEffort>,
) -> (effort: Option<ReasoningEffort>)
    ensures
        effort == acting_effort(*acting, session_effort),
{
    if offers_low_effort(&acting.supported_reasoning_levels) {
        return Some(ReasoningEffort::Low);
    }
    if session_effort.is_some() {
        return session_effort;
    }
    match &acting.default_reasoning_level {
        Some(effort) => Some(effort.clone()),
        None => None,
    }
}

fn owner_model_effort<S>(config: &Config<S>) -> (effort: Option<ReasoningEffort>)
    ensures
        effort == config.owner_effort(),
{
    match &config.auto_review {
        Some(wishes) => match &wishes.reasoning_effort {
            Some(effort) => Some(effort.clone()),
            None => None,
        },
        None => None,
    }
}

/// Selects the provider that reviews, so that it can be asked for its preferred model.
pub fn select_reviewer_provider<'a, S>(config: &'a Config<S>) -> (choice: Result<
    (String, &'a ModelProviderInfo<S>),
    ReviewerError,
>)
    ensures
        match choice {
            Ok((id, provider)) => {
                &&& config.review_provider_is_usable()
                &&& id@ == config.review_provider_id()
                &&& config.review_provider() == Some(*provider)
            },
            Err(ReviewerError::ProviderNotConfigured { provider_id }) => {
                &&& config.review_provider() is None
                &&& provider_id@ == config.review_provider_id()
            },
            Err(ReviewerError::ProviderNotTrusted { provider_id }) => {
                &&& config.review_provider() is Some
                &&& !config.review_provider_is_usable()
                &&& provider_id@ == config.review_provider_id()
            },
            Err(ReviewerError::ModelNotAvailable { .. }) => false,
        },
        (config.auto_review is None || config.auto_review->0.model_provider is None)
            && trusted_provider(
            config.reserved,
            config.model_provider_id@,
            config.model_provider,
        ) ==> {
            &&& choice is Ok
            &&& choice->Ok_0.0@ == config.model_provider_id@
            &&& *choice->Ok_0.1 == config.model_provider
        },
{
    let owner_choice: Option<&String> = match &config.auto_review {
        Some(wishes) => wishes.model_provider.as_ref(),
        None => None,
    };
    let provider_id: String = match owner_choice {
        Some(id) => id.clone(),
        None => if is_trusted_reviewer_provider(
            &config.reserved,
            config.model_provider_id.as_str(),
            &config.model_provider,
        ) {
            config.model_provider_id.clone()
        } else {
            config.reserved.openai.clone()
        },
    };
    let provider: &'a ModelProviderInfo<S> = if provider_id == config.model_provider_id {
        &config.model_provider
    } else {
        match config.model_providers.get(&provider_id) {
            Some(provider) => provider,
            None => {
                return Err(ReviewerError::ProviderNotConfigured { provider_id });
            },
        }
    };
    if !is_trusted_reviewer_provider(&config.reserved, provider_id.as_str(), provider) {
        return Err(ReviewerError::ProviderNotTrusted { provider_id });
    }
    Ok((provider_id, provider))
}

/// Chooses the trusted provider and model that review, without accepting an untrusted acting
/// model's override.
///
/// `default_model_id` is the model that the selected provider prefers for reviews and
/// `available_models` the offline catalog. `model_info` is the metadata of the model that is to
/// review, once fetched: without it the answer is `FetchModelInfo` wherever it is needed.
///
/// An untrusted acting provider uses the OpenAI provider by default. The model must be in the
/// offline catalog; absence is an error, so callers fail closed instead of silently reviewing
/// through the acting provider. Trusted OpenAI sessions keep their same-model fallback when the
/// owner named neither provider nor model.
pub fn resolve_guardian_reviewer<'a, S, M>(
    config: &'a Config<S>,
    acting_model_info: &'a ModelInfo<M>,
    acting_reasoning_effort: Option<ReasoningEffort>,
    default_model_id: String,
    available_models: &Vec<ModelPreset>,
    model_info: Option<&'a ModelInfo<M>>,
) -> (resolution: Result<ReviewerResolution<'a, S, M>, ReviewerError>)
    ensures
        resolves_to(
            *config,
            *acting_model_info,
            acting_reasoning_effort,
            default_model_id@,
            available_models@,
            match model_info {
                Some(model_info) => Some(*model_info),
                None => None,
            },
            resolution,
        ),
{
    let (provider_id, provider) = match select_reviewer_provider(config) {
        Ok(choice) => choice,
        Err(error) => {
            return Err(error);
        },
    };
    let owner_model: Option<&String> = match &config.auto_review {
        Some(wishes) => wishes.model.as_ref(),
        None => None,
    };
    let acting_is_trusted = is_trusted_reviewer_provider(
        &config.reserved,
        config.model_provider_id.as_str(),
        &config.model_provider,
    );
    let named_by_catalog: Option<&String> = if provider_id == config.model_provider_id
        && acting_is_trusted {
        acting_model_info.auto_review_model_override.as_ref()
    } else {
        None
    };
    let named: Option<&String> = if owner_model.is_some() {
        owner_model
    } else {
        named_by_catalog
    };
    let model: String = match named {
        Some(model) => model.clone(),
        None => default_model_id.clone(),
    };
    let catalog_contains_default = find_preset(available_models, &default_model_id).is_some();
    let found = find_preset(available_models, &model);
    let owner_effort = owner_model_effort(config);
    if (owner_model.is_some() || named_by_catalog.is_none()) && found.is_none() {
        let target_overridden = match &config.auto_review {
            Some(wishes) => wishes.model_provider.is_some() || wishes.model.is_some(),
            None => false,
        };
        // Bedrock also hosts open-weight models, so its provider identity alone cannot authorize
        // falling back to the acting model for review.
        if !target_overridden && config.model_provider_id == config.reserved.openai
            && acting_is_trusted {
            let reasoning_effort = match owner_effort {
                Some(effort) => Some(effort),
                None => acting_model_effort(acting_model_info, acting_reasoning_effort),
            };
            return Ok(
                ReviewerResolution::Resolved(
                    GuardianReviewerConfig {
                        provider_id,
                        provider,
                        model: acting_model_info.slug.clone(),
                        model_info: acting_model_info,
                        reasoning_effort,
                        default_model_id,
                        catalog_contains_default,
                        model_overridden: false,
                        model_override: None,
                    },
                ),
            );
        }
        return Err(ReviewerError::ModelNotAvailable { model, provider_id });
    }
    let model_info: &'a ModelInfo<M> = match model_info {
        Some(model_info) => model_info,
        None => {
            return Ok(ReviewerResolution::FetchModelInfo(model));
        },
    };
    let reasoning_effort = match owner_effort {
        Some(effort) => Some(effort),
        None => match found {
            Some(i) => {
                proof {
                    lemma_first_preset_is_unique(available_models@, model@, i as int);
                }
                let preset = &available_models[i];
                if offers_low_effort(&preset.supported_reasoning_efforts) {
                    Some(ReasoningEffort::Low)
                } else {
                    Some(preset.default_reasoning_effort.clone())
                }
            },
            // A model named by the catalog may be absent from it; the acting model's level then
            // applies.
            None => acting_model_effort(acting_model_info, acting_reasoning_effort),
        },
    };
    let model_override: Option<String> = match owner_model {
        Some(model) => Some(model.clone()),
        None => None,
    };
    Ok(
        ReviewerResolution::Resolved(
            GuardianReviewerConfig {
                provider_id,
                provider,
                model,
                model_info,
                reasoning_effort,
                default_model_id,
                catalog_contains_default,
                model_overridden: owner_model.is_some(),
                model_override,
            },
        ),
    )
}

pub(crate) proof fn lemma_first_preset_is_unique(catalog: Seq<ModelPreset>, model: Seq<char>, i: int)
    requires
        first_preset(catalog, model, i),
    ensures
        in_catalog(catalog, model),
        i == choose|j: int| first_preset(catalog, model, j),
{
    let j = choose|j: int| first_preset(catalog, model, j);
    assert(first_preset(catalog, model, j));
    if j < i {
        assert(catalog[j].model@ != model);
    }
    if i < j {
        assert(catalog[i].model@ != model);
    }
}

} // verus!
