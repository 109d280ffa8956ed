use shai_http::llm::providers::ollama::OllamaProvider;

#[test]
fn defaults_reach_the_server_on_this_machine() {
    let provider = OllamaProvider::new(None, None);
    assert_eq!(provider.base_url(), "http://localhost:11434/v1");
    assert_eq!(provider.api_key(), "ollama");
}

#[test]
fn settings_replace_the_defaults() {
    let provider =
        OllamaProvider::new(Some("http://gpu:11434/v1".to_string()), Some("secret".to_string()));
    assert_eq!(provider.base_url(), "http://gpu:11434/v1");
    assert_eq!(provider.api_key(), "secret");
    let provider = OllamaProvider::new(None, Some(String::new()));
    assert_eq!(provider.base_url(), "http://localhost:11434/v1");
    assert_eq!(provider.api_key(), "");
}

#[test]
fn there_is_always_a_provider_from_the_environment() {
    let provider = OllamaProvider::from_env(None, None).expect("the settings have defaults");
    assert_eq!(provider.base_url(), "http://localhost:11434/v1");
    assert_eq!(provider.api_key(), "ollama");
    let provider = OllamaProvider::from_env(Some("http://gpu/v1".to_string()), None).unwrap();
    assert_eq!(provider.base_url(), "http://gpu/v1");
    assert_eq!(provider.api_key(), "ollama");
}

#[test]
fn the_default_model_is_the_first_that_is_listed() {
    let models = vec!["llama3".to_string(), "mistral".to_string()];
    assert_eq!(OllamaProvider::default_model(&models), Ok("llama3".to_string()));
    assert_eq!(OllamaProvider::default_model(&Vec::new()), Err("no model available".to_string()));
}

#[test]
fn what_the_provider_says_of_itself() {
    let provider = OllamaProvider::new(None, None);
    assert_eq!(provider.name(), "ollama");
    assert!(provider.supports_functions("any".to_string()));
    assert!(provider.supports_structured_output(String::new()));
    let info = OllamaProvider::info();
    assert_eq!(info.name, "ollama");
    assert_eq!(info.display_name, "Ollama");
    assert_eq!(info.env_vars.len(), 2);
    assert_eq!(info.env_vars[0].name, "OLLAMA_BASE_URL");
    assert_eq!(
        info.env_vars[0].description,
        "Ollama API Base URL (default: http://localhost:11434/v1)"
    );
    assert!(!info.env_vars[0].required);
    assert_eq!(info.env_vars[1].name, "OLLAMA_API_KEY");
    assert_eq!(info.env_vars[1].description, "Ollama API Key (optional)");
    assert!(!info.env_vars[1].required);
}
