//! The commands on the settings of a language model.

use crate::models::{LLMConfig, LLMProvider};
use crate::text::{same_text, texts};
use vstd::prelude::*;

verus! {

/// The names of the providers.
pub open spec fn provider_names() -> Seq<Seq<char>> {
    seq!["Ollama"@, "OpenAI"@, "GPT4All"@, "LMStudio"@, "Custom"@]
}

/// The provider that a name stands for.
pub open spec fn provider_named(name: Seq<char>) -> Option<LLMProvider> {
    if name == "Ollama"@ {
        Some(LLMProvider::Ollama)
    } else if name == "OpenAI"@ {
        Some(LLMProvider::OpenAI)
    } else if name == "GPT4All"@ {
        Some(LLMProvider::GPT4All)
    } else if name == "LMStudio"@ {
        Some(LLMProvider::LMStudio)
    } else if name == "Custom"@ {
        Some(LLMProvider::Custom)
    } else {
        None
    }
}

/// The address at which a provider is expected.
pub open spec fn default_address(provider: LLMProvider) -> Seq<char> {
    match provider {
        LLMProvider::Ollama => "http://localhost:11434"@,
        LLMProvider::OpenAI => "https://api.openai.com"@,
        LLMProvider::GPT4All => "http://localhost:4891"@,
        LLMProvider::LMStudio => "http://localhost:1234"@,
        LLMProvider::Custom => "http://localhost:8080"@,
    }
}

/// The model that is asked of a provider.
pub open spec fn default_model(provider: LLMProvider) -> Seq<char> {
    match provider {
        LLMProvider::Ollama => "llama3.2:3b"@,
        LLMProvider::OpenAI => "gpt-3.5-turbo"@,
        LLMProvider::GPT4All => "gpt4all-13b-snoozy"@,
        LLMProvider::LMStudio => "local-model"@,
        LLMProvider::Custom => "custom-model"@,
    }
}

/// The settings are in their ranges: an address and a model are named, the
/// timeout is from one second to ten minutes, the temperature from nought to
/// two, and the answer from one token to 8192.
pub open spec fn in_range(config: LLMConfig) -> bool {
    &&& config.base_url@.len() > 0
    &&& config.model_name@.len() > 0
    &&& 1 <= config.timeout_seconds <= 600
    &&& config.temperature <= 2000
    &&& 1 <= config.max_tokens <= 8192
}

/// The settings of the application at first.
pub fn get_default_llm_config() -> (r: Result<LLMConfig, String>)
    ensures
        r matches Ok(c) && c.provider == LLMProvider::Ollama && c.base_url@ == default_address(
            LLMProvider::Ollama,
        ) && c.model_name@ == default_model(LLMProvider::Ollama) && c.temperature == 700
            && c.max_tokens == 2048 && c.timeout_seconds == 120,
{
    Ok(LLMConfig::default())
}

/// The names of the providers.
pub fn get_available_llm_providers() -> (r: Result<Vec<String>, String>)
    ensures
        r matches Ok(names) && texts(names@) == provider_names(),
{
    let mut names: Vec<String> = Vec::new();
    names.push("Ollama".to_owned());
    names.push("OpenAI".to_owned());
    names.push("GPT4All".to_owned());
    names.push("LMStudio".to_owned());
    names.push("Custom".to_owned());
    assert(texts(names@) == provider_names());
    Ok(names)
}

/// The settings that a provider is used with at first. A name that stands
/// for no provider is an error.
pub fn get_provider_default_config(provider: &str) -> (r: Result<LLMConfig, String>)
    ensures
        r is Ok <==> provider_named(provider@) is Some,
        r matches Ok(c) ==> ({
            &&& Some(c.provider) == provider_named(provider@)
            &&& c.base_url@ == default_address(c.provider)
            &&& c.model_name@ == default_model(c.provider)
            &&& c.temperature == 700
            &&& c.max_tokens == 2048
            &&& c.timeout_seconds == (if c.provider == LLMProvider::OpenAI {
                60u64
            } else {
                120u64
            })
        }),
        r matches Err(message) ==> message@ == "Invalid provider"@,
{
    let provider_enum = if same_text(provider, "Ollama") {
        LLMProvider::Ollama
    } else if same_text(provider, "OpenAI") {
        LLMProvider::OpenAI
    } else if same_text(provider, "GPT4All") {
        LLMProvider::GPT4All
    } else if same_text(provider, "LMStudio") {
        LLMProvider::LMStudio
    } else if same_text(provider, "Custom") {
        LLMProvider::Custom
    } else {
        return Err("Invalid provider".to_owned());
    };
    let config = match provider_enum {
        LLMProvider::Ollama => LLMConfig {
            provider: LLMProvider::Ollama,
            base_url: "http://localhost:11434".to_owned(),
            model_name: "llama3.2:3b".to_owned(),
            temperature: 700,
            max_tokens: 2048,
            timeout_seconds: 120,
        },
        LLMProvider::OpenAI => LLMConfig {
            provider: LLMProvider::OpenAI,
            base_url: "https://api.openai.com".to_owned(),
            model_name: "gpt-3.5-turbo".to_owned(),
            temperature: 700,
            max_tokens: 2048,
            timeout_seconds: 60,
        },
        LLMProvider::GPT4All => LLMConfig {
            provider: LLMProvider::GPT4All,
            base_url: "http://localhost:4891".to_owned(),
            model_name: "gpt4all-13b-snoozy".to_owned(),
            temperature: 700,
            max_tokens: 2048,
            timeout_seconds: 120,
        },
        LLMProvider::LMStudio => LLMConfig {
            provider: LLMProvider::LMStudio,
            base_url: "http://localhost:1234".to_owned(),
            model_name: "local-model".to_owned(),
            temperature: 700,
            max_tokens: 2048,
            timeout_seconds: 120,
        },
        LLMProvider::Custom => LLMConfig {
            provider: LLMProvider::Custom,
            base_url: "http://localhost:8080".to_owned(),
            model_name: "custom-model".to_owned(),
            temperature: 700,
            max_tokens: 2048,
            timeout_seconds: 120,
        },
    };
    Ok(config)
}

/// Judges settings: settings out of their ranges are not valid, whatever the
/// provider says; settings in their ranges are valid exactly when the
/// provider is alive. `alive` is asked for only where the settings are in
/// their ranges.
pub fn validate_llm_config(config: &LLMConfig, alive: bool) -> (r: Result<bool, String>)
    ensures
        r matches Ok(valid) && valid == (in_range(*config) && alive),
{
    Ok(settings_in_range(config) && alive)
}

/// Whether the settings are in their ranges.
pub fn settings_in_range(config: &LLMConfig) -> (b: bool)
    ensures
        b == in_range(*config),
{
    if config.base_url.as_str().is_empty() || config.model_name.as_str().is_empty() {
        return false;
    }
    if config.timeout_seconds == 0 || config.timeout_seconds > 600 {
        return false;
    }
    if config.temperature > 2000 {
        return false;
    }
    if config.max_tokens == 0 || config.max_tokens > 8192 {
        return false;
    }
    true
}

} // verus!
