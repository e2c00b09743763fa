//! What the choice of a Guardian review session is made from, and its outcome.

use crate::string_map::StringMap;
use crate::text::concat3;
use vstd::prelude::*;
use vstd::string::*;

verus! {

/// The text of an optional string.
pub open spec fn text_of(text: Option<String>) -> Option<Seq<char>> {
    match text {
        Some(text) => Some(text@),
        None => None,
    }
}

/// How much reasoning a model is asked for.
#[derive(Debug, PartialEq, Eq)]
pub enum ReasoningEffort {
    /// The level that reviews prefer.
    Low,
    /// The middle level.
    Medium,
    /// Any other level, by its name.
    Other(String),
}

impl Clone for ReasoningEffort {
    fn clone(&self) -> (copy: Self)
        ensures
            copy == *self,
    {
        match self {
            ReasoningEffort::Low => ReasoningEffort::Low,
            ReasoningEffort::Medium => ReasoningEffort::Medium,
            ReasoningEffort::Other(name) => ReasoningEffort::Other(name.clone()),
        }
    }
}

/// A level of reasoning that a model offers.
#[derive(Debug, PartialEq, Eq)]
pub struct ReasoningEffortPreset {
    /// The level.
    pub effort: ReasoningEffort,
}

/// The provider ids that the host keeps for its own providers.
#[derive(Debug, PartialEq, Eq)]
pub struct ReservedProviderIds {
    /// The id of the OpenAI provider.
    pub openai: String,
    /// The id of the Amazon Bedrock provider.
    pub amazon_bedrock: String,
    /// The id of the Amazon Bedrock runtime provider.
    pub amazon_bedrock_runtime: String,
}

/// What the choice reads of a model provider, and the rest of its settings.
#[derive(Debug, PartialEq, Eq)]
pub struct ModelProviderInfo<S> {
    /// Whether the provider identifies itself as OpenAI.
    pub is_openai: bool,
    /// Whether the provider identifies itself as Amazon Bedrock.
    pub is_amazon_bedrock: bool,
    /// Whether requests carry the OpenAI credentials of the session.
    pub requires_openai_auth: bool,
    /// The environment variable that holds an API key.
    pub env_key: Option<String>,
    /// A bearer token written into the configuration.
    pub experimental_bearer_token: Option<String>,
    /// Whether a command supplies the credentials.
    pub has_auth: bool,
    /// Whether AWS signing is configured.
    pub has_aws: bool,
    /// Everything else, carried along.
    pub settings: S,
}

/// The owner's wishes for automatic review.
#[derive(Debug, PartialEq, Eq)]
pub struct AutoReviewToml {
    /// The provider that reviews.
    pub model_provider: Option<String>,
    /// The model that reviews.
    pub model: Option<String>,
    /// The level of reasoning that reviews use.
    pub reasoning_effort: Option<ReasoningEffort>,
    /// An addition to the review policy.
    pub policy: Option<String>,
}

/// The part of a session's configuration that the choice depends on.
pub struct Config<S> {
    /// The reserved provider ids.
    pub reserved: ReservedProviderIds,
    /// The id of the acting provider.
    pub model_provider_id: String,
    /// The acting provider.
    pub model_provider: ModelProviderInfo<S>,
    /// Every configured provider, by its id.
    pub model_providers: StringMap<ModelProviderInfo<S>>,
    /// The owner's wishes.
    pub auto_review: Option<AutoReviewToml>,
}

/// What the choice reads of a model's metadata, and the rest of it.
#[derive(Debug, PartialEq, Eq)]
pub struct ModelInfo<M> {
    /// The model's name.
    pub slug: String,
    /// The model that the catalog names for reviews of this one.
    pub auto_review_model_override: Option<String>,
    /// The levels of reasoning that the model offers.
    pub supported_reasoning_levels: Vec<ReasoningEffortPreset>,
    /// The level of reasoning it uses unless told otherwise.
    pub default_reasoning_level: Option<ReasoningEffort>,
    /// Everything else, carried along.
    pub metadata: M,
}

/// An entry of the offline model catalog.
#[derive(Debug, PartialEq, Eq)]
pub struct ModelPreset {
    /// The model's name.
    pub model: String,
    /// The levels of reasoning that the model offers.
    pub supported_reasoning_efforts: Vec<ReasoningEffortPreset>,
    /// The level of reasoning it uses unless told otherwise.
    pub default_reasoning_effort: ReasoningEffort,
}

/// The provider and model selected for one Guardian review session.
#[derive(Clone, Debug, PartialEq, Eq)]
pub struct GuardianReviewerConfig<'a, S, M> {
    /// The id of the provider that reviews, one of the reserved ones.
    pub provider_id: String,
    /// The provider that reviews.
    pub provider: &'a ModelProviderInfo<S>,
    /// The model that reviews.
    pub model: String,
    /// The metadata of that model.
    pub model_info: &'a ModelInfo<M>,
    /// The level of reasoning of the review.
    pub reasoning_effort: Option<ReasoningEffort>,
    /// The model that the provider itself prefers for reviews.
    pub default_model_id: String,
    /// Whether the offline catalog has the preferred model.
    pub catalog_contains_default: bool,
    /// Whether the owner explicitly named the model.
    pub model_overridden: bool,
    /// The model that the owner named.
    pub model_override: Option<String>,
}

/// How the choice goes on.
#[derive(Debug, PartialEq, Eq)]
pub enum ReviewerResolution<'a, S, M> {
    /// The choice is made.
    Resolved(GuardianReviewerConfig<'a, S, M>),
    /// The metadata of this model is needed first.
    FetchModelInfo(String),
}

/// Why no review session can be had.
#[derive(Debug, PartialEq, Eq)]
pub enum ReviewerError {
    /// The provider is not among the configured ones.
    ProviderNotConfigured {
        /// The provider's id.
        provider_id: String,
    },
    /// The provider may not review.
    ProviderNotTrusted {
        /// The provider's id.
        provider_id: String,
    },
    /// The offline catalog lacks the model.
    ModelNotAvailable {
        /// The model.
        model: String,
        /// The id of the provider that was to run it.
        provider_id: String,
    },
}

impl ReviewerError {
    /// The text of the error, with `subject` for whoever was to review.
    pub open spec fn text(self, subject: Seq<char>) -> Seq<char> {
        match self {
            ReviewerError::ProviderNotConfigured { provider_id } => {
                subject + " provider `"@ + provider_id@ + "` is not configured"@
            },
            ReviewerError::ProviderNotTrusted { provider_id } => {
                subject + " provider `"@ + provider_id@ + "` is not trusted"@
            },
            ReviewerError::ModelNotAvailable { model, provider_id } => {
                subject + " model `"@ + model@ + "` is not available for provider `"@ + provider_id@
                    + "`"@
            },
        }
    }

    /// The error as it is shown, with `subject` for whoever was to review.
    pub fn message(&self, subject: &str) -> (text: String)
        ensures
            text@ == self.text(subject@),
    {
        match self {
            ReviewerError::ProviderNotConfigured { provider_id } => concat3(
                subject,
                " provider `",
                provider_id.as_str(),
            ).concat("` is not configured"),
            ReviewerError::ProviderNotTrusted { provider_id } => concat3(
                subject,
                " provider `",
                provider_id.as_str(),
            ).concat("` is not trusted"),
            ReviewerError::ModelNotAvailable { model, provider_id } => concat3(
                concat3(subject, " model `", model.as_str()).as_str(),
                "` is not available for provider `",
                provider_id.as_str(),
            ).concat("`"),
        }
    }
}

} // verus!
