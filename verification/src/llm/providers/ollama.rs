//! The settings of the Ollama provider.

use vstd::prelude::*;

verus! {

/// Where an Ollama server is reached, and with which key.
#[derive(Debug)]
pub struct OllamaProvider {
    base_url: String,
    api_key: String,
}

/// A setting that the provider reads from the environment.
#[derive(Debug)]
pub struct EnvVar {
    pub name: &'static str,
    pub description: &'static str,
    pub required: bool,
}

/// What a provider says of itself.
#[derive(Debug)]
pub struct ProviderInfo {
    pub name: &'static str,
    pub display_name: &'static str,
    pub env_vars: Vec<EnvVar>,
}

/// The address of an Ollama server on this machine.
pub open spec fn default_base_url() -> Seq<char> {
    "http://localhost:11434/v1"@
}

/// The key that is sent where none is set.
pub open spec fn default_api_key() -> Seq<char> {
    "ollama"@
}

impl OllamaProvider {
    /// The address of the server.
    pub closed spec fn spec_base_url(self) -> Seq<char> {
        self.base_url@
    }

    /// The key that is sent to the server.
    pub closed spec fn spec_api_key(self) -> Seq<char> {
        self.api_key@
    }

    /// A provider for the server at `base_url`, by default the one on this machine, with
    /// `api_key`, by default `ollama`.
    pub fn new(base_url: Option<String>, api_key: Option<String>) -> (provider: Self)
        ensures
            provider.spec_base_url() == match base_url {
                Some(url) => url@,
                None => default_base_url(),
            },
            provider.spec_api_key() == match api_key {
                Some(key) => key@,
                None => default_api_key(),
            },
    {
        let api_key = match api_key {
            Some(key) => key,
            None => "ollama".to_owned(),
        };
        let base_url = match base_url {
            Some(url) => url,
            None => "http://localhost:11434/v1".to_owned(),
        };
        OllamaProvider { base_url, api_key }
    }

    /// A provider from the values of the settings `OLLAMA_BASE_URL` and `OLLAMA_API_KEY`.
    /// There always is one, since both settings have defaults.
    pub fn from_env(base_url: Option<String>, api_key: Option<String>) -> (provider: Option<Self>)
        ensures
            provider matches Some(provider) && provider.spec_base_url() == (match base_url {
                Some(url) => url@,
                None => default_base_url(),
            }) && provider.spec_api_key() == (match api_key {
                Some(key) => key@,
                None => default_api_key(),
            }),
    {
        Some(OllamaProvider::new(base_url, api_key))
    }

    /// The address of the server.
    pub fn base_url(&self) -> (url: &str)
        ensures
            url@ == self.spec_base_url(),
    {
        self.base_url.as_str()
    }

    /// The key that is sent to the server.
    pub fn api_key(&self) -> (key: &str)
        ensures
            key@ == self.spec_api_key(),
    {
        self.api_key.as_str()
    }

    /// The model that is used where a request names none: the first that the server lists.
    pub fn default_model(models: &Vec<String>) -> (model: Result<String, String>)
        ensures
            match model {
                Ok(id) => models@.len() > 0 && id@ == models@[0]@,
                Err(reason) => models@.len() == 0 && reason@ == "no model available"@,
            },
    {
        if models.len() > 0 {
            Ok(models[0].clone())
        } else {
            Err("no model available".to_owned())
        }
    }

    /// Whether `model` can call functions: every model is taken to.
    pub fn supports_functions(&self, model: String) -> (supported: bool)
        ensures
            supported,
    {
        true
    }

    /// Whether `model` can give structured output: every model is taken to.
    pub fn supports_structured_output(&self, model: String) -> (supported: bool)
        ensures
            supported,
    {
        true
    }

    /// The name of the provider.
    pub fn name(&self) -> (name: &'static str)
        ensures
            name@ == "ollama"@,
    {
        "ollama"
    }

    /// The provider's name and the settings that it reads, neither of which is required.
    pub fn info() -> (info: ProviderInfo)
        ensures
            info.name@ == "ollama"@,
            info.display_name@ == "Ollama"@,
            info.env_vars@.len() == 2,
            info.env_vars@[0].name@ == "OLLAMA_BASE_URL"@,
            info.env_vars@[0].description@
                == "Ollama API Base URL (default: http://localhost:11434/v1)"@,
            !info.env_vars@[0].required,
            info.env_vars@[1].name@ == "OLLAMA_API_KEY"@,
            info.env_vars@[1].description@ == "Ollama API Key (optional)"@,
            !info.env_vars@[1].required,
    {
        let mut env_vars = Vec::new();
        env_vars.push(
            EnvVar {
                name: "OLLAMA_BASE_URL",
                description: "Ollama API Base URL (default: http://localhost:11434/v1)",
                required: false,
            },
        );
        env_vars.push(
            EnvVar {
                name: "OLLAMA_API_KEY",
                description: "Ollama API Key (optional)",
                required: false,
            },
        );
        ProviderInfo { name: "ollama", display_name: "Ollama", env_vars }
    }
}

} // verus!
