use pryx_host::catalog::{
    create_provider_with_catalog, resolve_catalog_url, ModelInfo, ModelLimit, ProviderCatalog,
    ProviderInfo,
};
use pryx_host::providers::{create_provider, ProviderError, ProviderKind};
use pryx_host::reliability::{create_resilient_provider, ReliabilityConfig};

/// A catalog holding the entries that the public models catalog publishes
/// for providers the built-in rules do not know.
fn sample_catalog() -> ProviderCatalog {
    let mut catalog = ProviderCatalog::new();
    let entry = |id: &str, name: &str, api: &str| ProviderInfo {
        id: id.to_string(),
        name: name.to_string(),
        api: Some(api.to_string()),
        env: vec![],
        models: vec![],
    };
    catalog.providers.push((
        "zai".to_string(),
        entry("zai", "Z.AI", "https://api.z.ai/api/paas/v4"),
    ));
    catalog.providers.push((
        "minimax-coding-plan".to_string(),
        entry(
            "minimax-coding-plan",
            "MiniMax Coding Plan",
            "https://api.minimax.io/anthropic/v1",
        ),
    ));
    catalog
}

#[test]
fn factory_openrouter() {
    assert!(create_provider("openrouter", Some("sk-test")).is_ok());
    assert!(create_provider("openrouter", None).is_ok());
}

#[test]
fn factory_anthropic() {
    assert!(create_provider("anthropic", Some("sk-test")).is_ok());
}

#[test]
fn factory_openai() {
    assert!(create_provider("openai", Some("sk-test")).is_ok());
}

#[test]
fn factory_ollama() {
    assert!(create_provider("ollama", None).is_ok());
}

#[test]
fn factory_venice() {
    assert!(create_provider("venice", Some("vn-key")).is_ok());
}

#[test]
fn factory_vercel() {
    assert!(create_provider("vercel", Some("key")).is_ok());
    assert!(create_provider("vercel-ai", Some("key")).is_ok());
}

#[test]
fn factory_cloudflare() {
    assert!(create_provider("cloudflare", Some("key")).is_ok());
    assert!(create_provider("cloudflare-ai", Some("key")).is_ok());
}

#[test]
fn factory_moonshot() {
    assert!(create_provider("moonshot", Some("key")).is_ok());
    assert!(create_provider("kimi", Some("key")).is_ok());
}

#[test]
fn factory_synthetic() {
    assert!(create_provider("synthetic", Some("key")).is_ok());
}

#[test]
fn factory_opencode() {
    assert!(create_provider("opencode", Some("key")).is_ok());
    assert!(create_provider("opencode-zen", Some("key")).is_ok());
}

#[test]
fn factory_glm() {
    assert!(create_provider("glm", Some("key")).is_ok());
    assert!(create_provider("zhipu", Some("key")).is_ok());
}

#[test]
fn factory_minimax() {
    assert!(create_provider("minimax", Some("key")).is_ok());
}

#[test]
fn factory_models_dev_resolves_anthropic() {
    assert!(create_provider("anthropic", Some("sk-ant-api03-test")).is_ok());
}

#[test]
fn factory_models_dev_custom_provider() {
    assert!(create_provider("custom:https://my-api.com", Some("key")).is_ok());
}

#[test]
fn factory_bedrock() {
    assert!(create_provider("bedrock", Some("key")).is_ok());
    assert!(create_provider("aws-bedrock", Some("key")).is_ok());
}

#[test]
fn factory_qianfan() {
    assert!(create_provider("qianfan", Some("key")).is_ok());
    assert!(create_provider("baidu", Some("key")).is_ok());
}

#[test]
fn factory_groq() {
    assert!(create_provider("groq", Some("key")).is_ok());
}

#[test]
fn factory_mistral() {
    assert!(create_provider("mistral", Some("key")).is_ok());
}

#[test]
fn factory_xai() {
    assert!(create_provider("xai", Some("key")).is_ok());
    assert!(create_provider("grok", Some("key")).is_ok());
}

#[test]
fn factory_deepseek() {
    assert!(create_provider("deepseek", Some("key")).is_ok());
}

#[test]
fn factory_together() {
    assert!(create_provider("together", Some("key")).is_ok());
    assert!(create_provider("together-ai", Some("key")).is_ok());
}

#[test]
fn factory_fireworks() {
    assert!(create_provider("fireworks", Some("key")).is_ok());
    assert!(create_provider("fireworks-ai", Some("key")).is_ok());
}

#[test]
fn factory_perplexity() {
    assert!(create_provider("perplexity", Some("key")).is_ok());
}

#[test]
fn factory_cohere() {
    assert!(create_provider("cohere", Some("key")).is_ok());
}

#[test]
fn factory_custom_url() {
    assert!(create_provider("custom:https://my-llm.example.com", Some("key")).is_ok());
}

#[test]
fn factory_custom_localhost() {
    assert!(create_provider("custom:http://localhost:1234", Some("key")).is_ok());
}

#[test]
fn factory_custom_no_key() {
    assert!(create_provider("custom:https://my-llm.example.com", None).is_ok());
}

#[test]
fn factory_zai() {
    let result = create_provider_with_catalog("zai", Some("key"), &sample_catalog());
    assert!(result.is_ok());
}

#[test]
fn factory_models_dev_resolves_unknown_provider() {
    let p = create_provider_with_catalog("minimax-coding-plan", Some("sk-test"), &sample_catalog());
    assert!(p.is_ok(), "Expected minimax-coding-plan to resolve from models.dev");
}

#[test]
fn factory_custom_empty_url_errors() {
    match create_provider("custom:", None) {
        Err(e) => assert!(
            e.message().contains("requires a URL"),
            "Expected 'requires a URL', got: {}",
            e.message()
        ),
        Ok(_) => panic!("Expected error for empty custom URL"),
    }
}

#[test]
fn factory_unknown_provider_errors() {
    let p = create_provider("nonexistent", None);
    assert!(p.is_err());
    let msg = p.err().unwrap().message();
    assert!(msg.contains("Unknown provider"));
    assert!(msg.contains("nonexistent"));
}

#[test]
fn factory_empty_name_errors() {
    assert!(create_provider("", None).is_err());
}

#[test]
fn resilient_provider_ignores_duplicate_and_invalid_fallbacks() {
    let reliability = ReliabilityConfig {
        provider_retries: 1,
        provider_backoff_ms: 100,
        fallback_providers: vec![
            "openrouter".into(),
            "nonexistent-provider".into(),
            "openai".into(),
            "openai".into(),
        ],
        channel_initial_backoff_secs: 2,
        channel_max_backoff_secs: 60,
        scheduler_poll_secs: 15,
        scheduler_retries: 2,
    };

    let provider =
        create_resilient_provider("openrouter", Some("sk-test"), &reliability, &ProviderCatalog::new());
    assert!(provider.is_ok());
    let chain = provider.unwrap();
    let names: Vec<&str> = chain.providers.iter().map(|(n, _)| n.as_str()).collect();
    assert_eq!(names, vec!["openrouter", "openai"]);
    assert_eq!(chain.retries, 1);
    assert_eq!(chain.backoff_ms, 100);
}

#[test]
fn resilient_provider_errors_for_invalid_primary() {
    let reliability = ReliabilityConfig::default();
    let provider = create_resilient_provider(
        "totally-invalid",
        Some("sk-test"),
        &reliability,
        &ProviderCatalog::new(),
    );
    assert!(provider.is_err());
}

#[test]
fn factory_all_providers_create_successfully() {
    let providers = [
        "openrouter",
        "anthropic",
        "openai",
        "ollama",
        "venice",
        "vercel",
        "cloudflare",
        "moonshot",
        "synthetic",
        "opencode",
        "zai",
        "glm",
        "minimax",
        "bedrock",
        "qianfan",
        "groq",
        "mistral",
        "xai",
        "deepseek",
        "together",
        "fireworks",
        "perplexity",
        "cohere",
    ];
    let catalog = sample_catalog();
    for name in providers {
        assert!(
            create_provider_with_catalog(name, Some("test-key"), &catalog).is_ok(),
            "Provider '{name}' should create successfully"
        );
    }
}

#[test]
fn compatible_provider_carries_endpoint_and_key() {
    let p = create_provider("kimi", Some("k1")).unwrap();
    assert_eq!(p.kind, ProviderKind::Compatible);
    assert_eq!(p.name, "Moonshot");
    assert_eq!(p.base_url.as_deref(), Some("https://api.moonshot.cn"));
    assert_eq!(p.api_key.as_deref(), Some("k1"));
}

#[test]
fn primary_provider_has_no_endpoint() {
    let p = create_provider("openai", Some("sk")).unwrap();
    assert_eq!(p.kind, ProviderKind::OpenAi);
    assert_eq!(p.name, "OpenAI");
    assert!(p.base_url.is_none());
}

#[test]
fn ollama_drops_empty_key() {
    let p = create_provider("ollama", Some("")).unwrap();
    assert_eq!(p.kind, ProviderKind::Ollama);
    assert!(p.api_key.is_none());
    let q = create_provider("ollama", Some("abc")).unwrap();
    assert_eq!(q.api_key.as_deref(), Some("abc"));
}

#[test]
fn custom_provider_uses_given_url() {
    let p = create_provider("custom:http://localhost:1234", None).unwrap();
    assert_eq!(p.name, "Custom");
    assert_eq!(p.base_url.as_deref(), Some("http://localhost:1234"));
    assert!(p.api_key.is_none());
}

#[test]
fn custom_without_url_is_missing_url() {
    assert!(matches!(create_provider("custom:", Some("k")), Err(ProviderError::MissingCustomUrl)));
}

#[test]
fn unknown_provider_error_names_it() {
    match create_provider("nonexistent", None) {
        Err(ProviderError::Unknown { name }) => assert_eq!(name, "nonexistent"),
        _ => panic!("expected an unknown provider"),
    }
}

#[test]
fn catalog_lookup_finds_entry() {
    let catalog = sample_catalog();
    assert_eq!(catalog.get("zai").map(|p| p.name.as_str()), Some("Z.AI"));
    assert!(catalog.get("absent").is_none());
}

#[test]
fn catalog_provider_gets_rewritten_endpoint() {
    let p = create_provider_with_catalog("minimax-coding-plan", Some("k"), &sample_catalog()).unwrap();
    assert_eq!(p.kind, ProviderKind::Compatible);
    assert_eq!(p.name, "MiniMax Coding Plan");
    assert_eq!(p.base_url.as_deref(), Some("https://platform.minimax.io"));
}

#[test]
fn catalog_does_not_override_builtin_rules() {
    let mut catalog = sample_catalog();
    catalog.providers.push((
        "groq".to_string(),
        ProviderInfo {
            id: "groq".to_string(),
            name: "Other Groq".to_string(),
            api: Some("https://elsewhere.example".to_string()),
            env: vec![],
            models: vec![],
        },
    ));
    let p = create_provider_with_catalog("groq", None, &catalog).unwrap();
    assert_eq!(p.name, "Groq");
}

#[test]
fn catalog_entry_without_api_is_unknown() {
    let mut catalog = ProviderCatalog::new();
    catalog.providers.push((
        "quiet".to_string(),
        ProviderInfo {
            id: "quiet".to_string(),
            name: "Quiet".to_string(),
            api: None,
            env: vec!["QUIET_KEY".to_string()],
            models: vec![(
                "m".to_string(),
                ModelInfo {
                    id: "m".to_string(),
                    name: "M".to_string(),
                    family: None,
                    tool_call: Some(true),
                    reasoning: None,
                    attachment: None,
                    temperature: None,
                    limit: Some(ModelLimit { context: Some(8192), output: Some(1024) }),
                    modalities: None,
                },
            )],
        },
    ));
    assert!(matches!(
        create_provider_with_catalog("quiet", None, &catalog),
        Err(ProviderError::Unknown { .. })
    ));
}

#[test]
fn catalog_url_rewrites() {
    assert_eq!(resolve_catalog_url("https://api.example.com/v1/"), "https://api.example.com");
    assert_eq!(resolve_catalog_url("https://api.example.com/v1/v1"), "https://api.example.com");
    assert_eq!(resolve_catalog_url("https://api.example.com/v4"), "https://api.example.com/v4");
    assert_eq!(resolve_catalog_url("https://x.com/api/paas///"), "https://x.com/api/paas");
    assert_eq!(
        resolve_catalog_url("https://api.minimaxi.com/anthropic/v1"),
        "https://platform.minimaxi.com"
    );
    assert_eq!(resolve_catalog_url("https://api.z.ai/api/paas/v4/"), "https://api.z.ai/api/paas/v4");
    assert_eq!(resolve_catalog_url("https://plain.example"), "https://plain.example");
}

#[test]
fn resilient_chain_uses_catalog_fallbacks() {
    let mut reliability = ReliabilityConfig::default();
    reliability.fallback_providers = vec!["zai".into(), "groq".into(), "zai".into()];
    let chain =
        create_resilient_provider("openai", Some("k"), &reliability, &sample_catalog()).unwrap();
    let names: Vec<&str> = chain.providers.iter().map(|(n, _)| n.as_str()).collect();
    assert_eq!(names, vec!["openai", "zai", "groq"]);
}
