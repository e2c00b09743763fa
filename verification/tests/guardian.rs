use codex_session::guardian::{
    is_trusted_reviewer_provider, resolve_guardian_reviewer, select_reviewer_provider,
};
use codex_session::guardian_types::{
    AutoReviewToml, Config, GuardianReviewerConfig, ModelInfo, ModelPreset, ModelProviderInfo,
    ReasoningEffort, ReasoningEffortPreset, ReservedProviderIds, ReviewerError, ReviewerResolution,
};
use codex_session::string_map::StringMap;

type Provider = ModelProviderInfo<String>;
type Info = ModelInfo<u32>;

fn reserved() -> ReservedProviderIds {
    ReservedProviderIds {
        openai: "openai".to_string(),
        amazon_bedrock: "amazon-bedrock".to_string(),
        amazon_bedrock_runtime: "amazon-bedrock-runtime".to_string(),
    }
}

fn openai() -> Provider {
    ModelProviderInfo {
        is_openai: true,
        is_amazon_bedrock: false,
        requires_openai_auth: true,
        env_key: None,
        experimental_bearer_token: None,
        has_auth: false,
        has_aws: false,
        settings: "OpenAI".to_string(),
    }
}

fn bedrock() -> Provider {
    ModelProviderInfo {
        is_openai: false,
        is_amazon_bedrock: true,
        requires_openai_auth: false,
        env_key: None,
        experimental_bearer_token: None,
        has_auth: false,
        has_aws: true,
        settings: "Amazon Bedrock".to_string(),
    }
}

fn fireworks() -> Provider {
    ModelProviderInfo {
        is_openai: false,
        is_amazon_bedrock: false,
        requires_openai_auth: false,
        env_key: Some("FIREWORKS_API_KEY".to_string()),
        experimental_bearer_token: None,
        has_auth: false,
        has_aws: false,
        settings: "Fireworks".to_string(),
    }
}

fn session(id: &str, provider: Provider) -> Config<String> {
    let mut model_providers = StringMap::new();
    model_providers.insert("openai".to_string(), openai());
    Config {
        reserved: reserved(),
        model_provider_id: id.to_string(),
        model_provider: provider,
        model_providers,
        auto_review: None,
    }
}

fn wishes(
    provider: Option<&str>,
    model: Option<&str>,
    effort: Option<ReasoningEffort>,
) -> Option<AutoReviewToml> {
    Some(AutoReviewToml {
        model_provider: provider.map(str::to_string),
        model: model.map(str::to_string),
        reasoning_effort: effort,
        policy: None,
    })
}

fn levels(efforts: Vec<ReasoningEffort>) -> Vec<ReasoningEffortPreset> {
    efforts.into_iter().map(|effort| ReasoningEffortPreset { effort }).collect()
}

fn info(slug: &str, review_model: Option<&str>, metadata: u32) -> Info {
    ModelInfo {
        slug: slug.to_string(),
        auto_review_model_override: review_model.map(str::to_string),
        supported_reasoning_levels: levels(vec![ReasoningEffort::Low, ReasoningEffort::Medium]),
        default_reasoning_level: Some(ReasoningEffort::Medium),
        metadata,
    }
}

fn preset(model: &str, efforts: Vec<ReasoningEffort>, default: ReasoningEffort) -> ModelPreset {
    ModelPreset {
        model: model.to_string(),
        supported_reasoning_efforts: levels(efforts),
        default_reasoning_effort: default,
    }
}

fn catalog() -> Vec<ModelPreset> {
    vec![
        preset("gpt-5.5", vec![ReasoningEffort::Low], ReasoningEffort::Medium),
        preset("gpt-5.2", vec![ReasoningEffort::Medium], ReasoningEffort::Medium),
        preset("codex-auto-review", vec![ReasoningEffort::Low], ReasoningEffort::Medium),
    ]
}

const PREFERRED: &str = "codex-auto-review";

fn resolve<'a>(
    config: &'a Config<String>,
    acting: &'a Info,
    effort: Option<ReasoningEffort>,
    models: &Vec<ModelPreset>,
    fetched: &'a Info,
) -> Result<GuardianReviewerConfig<'a, String, u32>, ReviewerError> {
    let first = resolve_guardian_reviewer(
        config,
        acting,
        effort.clone(),
        PREFERRED.to_string(),
        models,
        None,
    )?;
    let asked = match first {
        ReviewerResolution::Resolved(chosen) => return Ok(chosen),
        ReviewerResolution::FetchModelInfo(model) => model,
    };
    let second = resolve_guardian_reviewer(
        config,
        acting,
        effort,
        PREFERRED.to_string(),
        models,
        Some(fetched),
    )?;
    match second {
        ReviewerResolution::Resolved(chosen) => {
            assert_eq!(chosen.model, asked);
            assert_eq!(chosen.model_info, fetched);
            Ok(chosen)
        }
        ReviewerResolution::FetchModelInfo(model) => panic!("asked again for {}", model),
    }
}

#[test]
fn owner_configured_reviewer_model_overrides_acting_model_metadata() {
    let mut config = session("openai", openai());
    config.auto_review =
        wishes(Some("openai"), Some("codex-auto-review"), Some(ReasoningEffort::Low));
    let acting = info("gpt-5.5", Some("gpt-5.2"), 1);
    let fetched = info("codex-auto-review", None, 2);
    let options = resolve(&config, &acting, None, &catalog(), &fetched).unwrap();
    assert_eq!(Some(options.model), Some("codex-auto-review".to_string()));
    assert_eq!(options.model_override, Some("codex-auto-review".to_string()));
    assert!(options.model_overridden);
    assert!(options.catalog_contains_default);
}

#[test]
fn catalog_reviewer_override_is_used_for_trusted_parent() {
    let config = session("openai", openai());
    let acting = info("gpt-5.5", Some("gpt-5.2"), 1);
    let fetched = info("gpt-5.2", None, 2);
    let options = resolve(&config, &acting, None, &catalog(), &fetched).unwrap();
    assert_eq!(options.reasoning_effort, Some(ReasoningEffort::Medium));
    assert_eq!(options.model_override, None);
    assert!(!options.model_overridden);
    assert_eq!(Some(options.model), Some("gpt-5.2".to_string()));
}

#[test]
fn missing_catalog_reviewer_preserves_reasoning_fallback() {
    let config = session("openai", openai());
    let mut acting = info("gpt-5.5", Some("uncatalogued-review-model"), 1);
    acting.supported_reasoning_levels.clear();
    acting.default_reasoning_level = Some(ReasoningEffort::Medium);
    let fetched = info("uncatalogued-review-model", None, 2);
    let options = resolve(&config, &acting, None, &catalog(), &fetched).unwrap();
    assert_eq!(
        (Some(options.model), options.reasoning_effort),
        (Some("uncatalogued-review-model".to_string()), Some(ReasoningEffort::Medium)),
    );
}

#[test]
fn missing_owner_reviewer_override_is_not_exempted_by_catalog_override() {
    let mut config = session("openai", openai());
    config.auto_review = wishes(None, Some("missing-owner-review-model"), None);
    let acting = info("gpt-5.5", Some("gpt-5.2"), 1);
    let fetched = info("missing-owner-review-model", None, 2);
    let error = resolve(&config, &acting, None, &catalog(), &fetched)
        .err()
        .expect("missing owner model must fail during resolution");
    assert_eq!(
        error.message("Guardian"),
        "Guardian model `missing-owner-review-model` is not available for provider `openai`"
    );
}

#[test]
fn merged_config_reviewer_uses_reserved_provider_for_untrusted_parent() {
    let mut config = session("fireworks", fireworks());
    config.model_providers.insert("fireworks".to_string(), fireworks());
    config.auto_review =
        wishes(Some("openai"), Some("codex-auto-review"), Some(ReasoningEffort::Low));
    let acting = info("gpt-5.5", None, 1);
    let fetched = info("codex-auto-review", None, 2);
    let options = resolve(&config, &acting, None, &catalog(), &fetched).unwrap();
    assert_eq!(options.provider_id, "openai");
    assert_eq!(*options.provider, openai());
    assert_eq!(Some(options.model), Some("codex-auto-review".to_string()));
    assert_eq!(options.reasoning_effort, Some(ReasoningEffort::Low));
}

#[test]
fn policy_only_config_preserves_parent_model_fallback() {
    let mut config = session("openai", openai());
    config.auto_review = Some(AutoReviewToml {
        model_provider: None,
        model: None,
        reasoning_effort: None,
        policy: Some("Keep the local policy addition.".to_string()),
    });
    let mut acting = info("gpt-5.5", None, 1);
    acting.supported_reasoning_levels = levels(vec![ReasoningEffort::Medium]);
    let models = vec![preset("gpt-5.5", vec![ReasoningEffort::Medium], ReasoningEffort::Medium)];
    let fetched = info("unused", None, 2);
    let options = resolve(&config, &acting, None, &models, &fetched).unwrap();
    assert_eq!(options.model_info, &acting);
    assert_eq!(options.provider_id, "openai");
    assert_eq!(*options.provider, openai());
    assert_eq!(options.default_model_id, PREFERRED);
    assert!(!options.catalog_contains_default);
    assert!(!options.model_overridden);
    assert_eq!(options.model_override, None);
    assert_eq!(Some(options.model), Some("gpt-5.5".to_string()));
    assert_eq!(options.reasoning_effort, Some(ReasoningEffort::Medium));
}

#[test]
fn untrusted_session_goes_to_openai_and_ignores_the_acting_override() {
    let config = session("fireworks", fireworks());
    let acting = info("gpt-oss-120b", Some("gpt-oss-120b"), 1);
    let fetched = info("codex-auto-review", None, 2);
    let mut models = catalog();
    models.push(preset("gpt-oss-120b", vec![], ReasoningEffort::Medium));
    let options = resolve(&config, &acting, None, &models, &fetched).unwrap();
    assert_eq!(options.provider_id, "openai");
    assert_eq!(options.model, "codex-auto-review");
    assert!(!options.model_overridden);
    assert_eq!(options.reasoning_effort, Some(ReasoningEffort::Low));
}

#[test]
fn nothing_of_a_foreign_acting_model_counts() {
    let config = session("fireworks", fireworks());
    let fetched = info("codex-auto-review", None, 2);
    let acting = info("gpt-oss-120b", Some("gpt-oss-120b"), 1);
    let mut other = info("gpt-5.5", None, 3);
    other.supported_reasoning_levels.clear();
    other.default_reasoning_level = None;
    let one = resolve(&config, &acting, None, &catalog(), &fetched);
    let two = resolve(&config, &other, Some(ReasoningEffort::Medium), &catalog(), &fetched);
    let one = one.unwrap();
    assert_eq!(one.clone(), two.unwrap());
    assert_eq!(one.model, "codex-auto-review");
}

#[test]
fn untrusted_session_without_a_catalogued_model_is_refused() {
    let config = session("fireworks", fireworks());
    let acting = info("gpt-oss-120b", Some("gpt-oss-120b"), 1);
    let fetched = info("codex-auto-review", None, 2);
    let models = vec![preset("gpt-oss-120b", vec![], ReasoningEffort::Medium)];
    let error = resolve(&config, &acting, None, &models, &fetched).unwrap_err();
    assert_eq!(
        error,
        ReviewerError::ModelNotAvailable {
            model: "codex-auto-review".to_string(),
            provider_id: "openai".to_string(),
        }
    );
    assert!(error.message("Guardian").contains("is not available for provider `openai`"));
}

#[test]
fn untrusted_provider_under_the_openai_id_is_refused() {
    let mut provider = openai();
    provider.env_key = Some("PATH".to_string());
    let config = session("openai", provider);
    let error = select_reviewer_provider(&config).unwrap_err();
    assert_eq!(
        error,
        ReviewerError::ProviderNotTrusted { provider_id: "openai".to_string() }
    );
    assert_eq!(error.message("Guardian"), "Guardian provider `openai` is not trusted");
}

#[test]
fn owner_may_not_name_an_untrusted_provider() {
    let mut config = session("fireworks", fireworks());
    config.auto_review = wishes(Some("fireworks"), None, None);
    let acting = info("gpt-oss-120b", None, 1);
    let fetched = info("codex-auto-review", None, 2);
    let error = resolve(&config, &acting, None, &catalog(), &fetched).unwrap_err();
    assert_eq!(
        error,
        ReviewerError::ProviderNotTrusted { provider_id: "fireworks".to_string() }
    );
}

#[test]
fn unconfigured_provider_is_refused() {
    let mut config = session("openai", openai());
    config.auto_review = wishes(Some("elsewhere"), None, None);
    let acting = info("gpt-5.5", None, 1);
    let fetched = info("codex-auto-review", None, 2);
    let error = resolve(&config, &acting, None, &catalog(), &fetched).unwrap_err();
    assert_eq!(
        error,
        ReviewerError::ProviderNotConfigured { provider_id: "elsewhere".to_string() }
    );
    assert_eq!(error.message("Guardian"), "Guardian provider `elsewhere` is not configured");
}

#[test]
fn bedrock_session_never_reviews_with_its_own_model() {
    for id in ["amazon-bedrock", "amazon-bedrock-runtime"] {
        let config = session(id, bedrock());
        let acting = info("openai.gpt-oss-120b", None, 1);
        let fetched = info("codex-auto-review", None, 2);
        let models = vec![preset("openai.gpt-oss-120b", vec![], ReasoningEffort::Medium)];
        let error = resolve(&config, &acting, None, &models, &fetched).unwrap_err();
        assert!(error
            .message("Guardian")
            .contains(&format!("is not available for provider `{}`", id)));
    }
}

#[test]
fn bedrock_session_reviews_through_itself() {
    let config = session("amazon-bedrock", bedrock());
    let acting = info("openai.gpt-oss-120b", None, 1);
    let fetched = info("codex-auto-review", None, 2);
    let options = resolve(&config, &acting, None, &catalog(), &fetched).unwrap();
    assert_eq!(options.provider_id, "amazon-bedrock");
    assert_eq!(*options.provider, bedrock());
    assert_eq!(options.model, "codex-auto-review");
}

#[test]
fn override_counts_only_for_the_acting_provider() {
    let mut config = session("amazon-bedrock", bedrock());
    config.auto_review = wishes(Some("openai"), None, None);
    let acting = info("openai.gpt-oss-120b", Some("gpt-5.2"), 1);
    let fetched = info("codex-auto-review", None, 2);
    let options = resolve(&config, &acting, None, &catalog(), &fetched).unwrap();
    assert_eq!(options.provider_id, "openai");
    assert_eq!(options.model, "codex-auto-review");
    assert_eq!(options.model_override, None);
}

#[test]
fn owner_provider_alone_rules_out_the_fallback() {
    let mut config = session("openai", openai());
    config.auto_review = wishes(Some("openai"), None, None);
    let acting = info("gpt-5.5", None, 1);
    let fetched = info("codex-auto-review", None, 2);
    assert!(resolve(&config, &acting, None, &vec![], &fetched).is_err());
}

#[test]
fn fallback_effort_follows_owner_then_low_then_session_then_default() {
    let fetched = info("codex-auto-review", None, 2);
    let high = || ReasoningEffort::Other("high".to_string());

    let mut config = session("openai", openai());
    config.auto_review = wishes(None, None, Some(high()));
    let acting = info("gpt-5.5", None, 1);
    let options = resolve(&config, &acting, None, &vec![], &fetched).unwrap();
    assert_eq!(options.reasoning_effort, Some(high()));

    let config = session("openai", openai());
    let options = resolve(&config, &acting, Some(high()), &vec![], &fetched).unwrap();
    assert_eq!(options.reasoning_effort, Some(ReasoningEffort::Low));

    let mut acting = info("gpt-5.5", None, 1);
    acting.supported_reasoning_levels = levels(vec![high()]);
    let options = resolve(&config, &acting, Some(high()), &vec![], &fetched).unwrap();
    assert_eq!(options.reasoning_effort, Some(high()));

    let options = resolve(&config, &acting, None, &vec![], &fetched).unwrap();
    assert_eq!(options.reasoning_effort, Some(ReasoningEffort::Medium));

    acting.default_reasoning_level = None;
    let options = resolve(&config, &acting, None, &vec![], &fetched).unwrap();
    assert_eq!(options.reasoning_effort, None);
}

#[test]
fn first_catalog_entry_sets_the_effort() {
    let config = session("openai", openai());
    let acting = info("gpt-5.5", None, 1);
    let fetched = info("codex-auto-review", None, 2);
    let models = vec![
        preset("gpt-5.5", vec![], ReasoningEffort::Medium),
        preset("codex-auto-review", vec![], ReasoningEffort::Other("high".to_string())),
        preset("codex-auto-review", vec![ReasoningEffort::Low], ReasoningEffort::Medium),
    ];
    let options =
        resolve(&config, &acting, Some(ReasoningEffort::Medium), &models, &fetched).unwrap();
    assert_eq!(options.reasoning_effort, Some(ReasoningEffort::Other("high".to_string())));
}

#[test]
fn trust_needs_the_reserved_id_and_no_other_credentials() {
    let ids = reserved();
    assert!(is_trusted_reviewer_provider(&ids, "openai", &openai()));
    assert!(!is_trusted_reviewer_provider(&ids, "OpenAI", &openai()));
    assert!(!is_trusted_reviewer_provider(&ids, "amazon-bedrock", &openai()));
    assert!(is_trusted_reviewer_provider(&ids, "amazon-bedrock", &bedrock()));
    assert!(is_trusted_reviewer_provider(&ids, "amazon-bedrock-runtime", &bedrock()));
    assert!(!is_trusted_reviewer_provider(&ids, "openai", &bedrock()));
    assert!(!is_trusted_reviewer_provider(&ids, "fireworks", &fireworks()));

    for change in 0..6 {
        let mut provider = openai();
        match change {
            0 => provider.is_openai = false,
            1 => provider.requires_openai_auth = false,
            2 => provider.env_key = Some("KEY".to_string()),
            3 => provider.experimental_bearer_token = Some("token".to_string()),
            4 => provider.has_auth = true,
            _ => provider.has_aws = true,
        }
        assert!(!is_trusted_reviewer_provider(&ids, "openai", &provider));
    }
    for change in 0..5 {
        let mut provider = bedrock();
        match change {
            0 => provider.is_amazon_bedrock = false,
            1 => provider.has_aws = false,
            2 => provider.env_key = Some("KEY".to_string()),
            3 => provider.experimental_bearer_token = Some("token".to_string()),
            _ => provider.has_auth = true,
        }
        assert!(!is_trusted_reviewer_provider(&ids, "amazon-bedrock", &provider));
    }
}
