use meeting_summarizer::errors::ErrorKind;
use meeting_summarizer::models::{LLMConfig, LLMProvider};
use meeting_summarizer::services::llm_manager::{split_at_colons, LLMModelManager, ModelInfo};
use meeting_summarizer::services::model_downloader::{
    DownloadStatus, DownloadableModel, ModelDownloader, SystemCompatibility,
};
use meeting_summarizer::services::model_settings::{
    ModelPreference, ModelSettings, ModelSettingsManager, PerformancePriority,
};

fn ids(models: &[&DownloadableModel]) -> Vec<String> {
    models.iter().map(|m| m.id.clone()).collect()
}

fn preference(id: &str, enabled: bool, priority: u8) -> ModelPreference {
    ModelPreference { model_id: id.to_string(), custom_config: None, enabled, priority, notes: None }
}

#[test]
fn test_model_downloader() {
    let downloader = ModelDownloader::new();
    let models = downloader.get_downloadable_models();
    assert!(!models.is_empty());
    assert_eq!(
        ids(&models),
        vec![
            "ollama:llama3.2:1b",
            "ollama:llama3.2:3b",
            "ollama:llama3.2:7b",
            "ollama:mistral:7b",
            "ollama:codellama:7b"
        ]
    );
    assert!(models.windows(2).all(|w| w[0].popularity >= w[1].popularity));
    let first = models[0];
    assert_eq!(first.name, "Llama 3.2 1B");
    assert_eq!(first.provider, "Ollama");
    assert_eq!(first.file_size, Some(1_300_000_000));
    assert_eq!(first.download_command, "ollama pull llama3.2:1b");
    assert_eq!(first.requirements.min_memory_mb, 2048);
    assert_eq!(first.requirements.recommended_memory_mb, 4096);
    assert_eq!(first.requirements.disk_space_mb, 1500);
    assert!(!first.requirements.gpu_required);
    assert_eq!(first.requirements.supported_platforms, vec!["windows", "macos", "linux"]);
    assert_eq!(first.tags, vec!["汎用", "軽量", "高速"]);
    assert_eq!(first.popularity, 95);
    assert_eq!(models[4].download_command, "ollama pull codellama:7b");
    assert_eq!(ModelDownloader::default(), downloader);
}

#[test]
fn categories_read_memory_and_tags() {
    let d = ModelDownloader::new();
    assert_eq!(ids(&d.get_models_by_category("lightweight")), vec!["ollama:llama3.2:1b", "ollama:llama3.2:3b"]);
    assert_eq!(
        ids(&d.get_models_by_category("balanced")),
        vec!["ollama:llama3.2:7b", "ollama:mistral:7b", "ollama:codellama:7b"]
    );
    assert!(d.get_models_by_category("high-quality").is_empty());
    assert_eq!(ids(&d.get_models_by_category("code")), vec!["ollama:codellama:7b"]);
    assert_eq!(ids(&d.get_models_by_category("multilingual")), vec!["ollama:mistral:7b"]);
    assert_eq!(d.get_models_by_category("anything else").len(), 5);
}

#[test]
fn popular_models_are_the_first_of_the_catalog() {
    let d = ModelDownloader::new();
    assert_eq!(ids(&d.get_popular_models(2)), vec!["ollama:llama3.2:1b", "ollama:llama3.2:3b"]);
    assert!(d.get_popular_models(0).is_empty());
    assert_eq!(d.get_popular_models(99).len(), 5);
}

#[test]
fn search_ignores_case_and_reads_tags() {
    let d = ModelDownloader::new();
    assert_eq!(ids(&d.search_models("MISTRAL", &Vec::new())), vec!["ollama:mistral:7b"]);
    assert_eq!(d.search_models("llama", &Vec::new()).len(), 4);
    assert_eq!(d.search_models("", &Vec::new()).len(), 5);
    assert_eq!(ids(&d.search_models("コード生成", &Vec::new())), vec!["ollama:codellama:7b"]);
    assert_eq!(
        ids(&d.search_models("llama", &vec!["軽量".to_string(), "高品質".to_string()])),
        vec!["ollama:llama3.2:1b", "ollama:llama3.2:7b"]
    );
    assert!(d.search_models("llama", &vec!["多言語".to_string()]).is_empty());
    assert!(d.search_models("gpt", &Vec::new()).is_empty());
}

#[test]
fn system_requirements_are_checked_against_the_assumed_machine() {
    let d = ModelDownloader::new();
    let c = d.check_system_requirements("ollama:llama3.2:7b", "linux").unwrap();
    assert_eq!(
        c,
        SystemCompatibility {
            model_id: "ollama:llama3.2:7b".to_string(),
            memory_compatible: true,
            disk_compatible: true,
            platform_compatible: true,
            available_memory_mb: 16384,
            required_memory_mb: 8192,
            available_disk_mb: 100_000,
            required_disk_mb: 5000,
            warnings: Vec::new(),
        }
    );
    assert!(c.is_fully_compatible());
    let c = d.check_system_requirements("ollama:llama3.2:1b", "freebsd").unwrap();
    assert!(!c.platform_compatible);
    assert!(!c.is_fully_compatible());
    assert_eq!(
        d.check_system_requirements("ollama:none", "linux"),
        Err("Model not found: ollama:none".to_string())
    );
}

#[test]
fn full_compatibility_needs_all_three() {
    for bits in 0..8u8 {
        let c = SystemCompatibility {
            model_id: "m".to_string(),
            memory_compatible: bits & 1 != 0,
            disk_compatible: bits & 2 != 0,
            platform_compatible: bits & 4 != 0,
            available_memory_mb: 0,
            required_memory_mb: 0,
            available_disk_mb: 0,
            required_disk_mb: 0,
            warnings: Vec::new(),
        };
        assert_eq!(c.is_fully_compatible(), bits == 7);
    }
}

#[test]
fn warnings_name_what_is_short() {
    let d = ModelDownloader::new();
    let models = d.get_downloadable_models();
    let model = models[2];
    assert!(ModelDownloader::generate_compatibility_warnings(model, 16384, 10_000).is_empty());
    assert_eq!(
        ModelDownloader::generate_compatibility_warnings(model, 16383, 9_999),
        vec![
            "推奨メモリ容量 16384MB に対して利用可能メモリが 16383MB です。パフォーマンスが低下する可能性があります。",
            "ディスク容量に余裕がありません。10000MB 以上の空き容量を確保することを推奨します。"
        ]
    );
    let mut gpu = (*model).clone();
    gpu.requirements.gpu_required = true;
    assert_eq!(
        ModelDownloader::generate_compatibility_warnings(&gpu, 99_999, 99_999),
        vec!["このモデルはGPUアクセラレーションを推奨します。"]
    );
}

#[test]
fn gpt4all_addresses() {
    let d = ModelDownloader::new();
    assert_eq!(
        d.get_gpt4all_download_info("orca-mini-3b"),
        Ok("https://gpt4all.io/models/orca-mini-3b-gguf2-q4_0.gguf".to_string())
    );
    assert_eq!(
        d.get_gpt4all_download_info("vicuna-7b"),
        Ok("https://gpt4all.io/models/vicuna-7b-q4_0.gguf".to_string())
    );
    assert_eq!(
        d.get_gpt4all_download_info("falcon-7b"),
        Ok("https://gpt4all.io/models/falcon-7b-q4_0.gguf".to_string())
    );
    assert_eq!(d.get_gpt4all_download_info("gpt-5"), Err("Unknown GPT4All model: gpt-5".to_string()));
}

#[test]
fn ollama_download_needs_the_service() {
    let d = ModelDownloader::new();
    let p = d.start_download_ollama("mistral:7b", true).unwrap();
    assert_eq!(p.model_id, "ollama:mistral:7b");
    assert_eq!(p.status, DownloadStatus::Downloading);
    assert_eq!(p.progress, 0);
    assert_eq!(p.downloaded_bytes, 0);
    assert_eq!(p.total_bytes, Some(4_200_000_000));
    assert_eq!(p.speed_bps, None);
    assert_eq!(p.eta_seconds, None);
    assert_eq!(p.error_message, None);
    assert_eq!(d.start_download_ollama("unknown", true).unwrap().total_bytes, None);
    assert_eq!(d.start_download_ollama("mistral:7b", false).unwrap_err().kind(), ErrorKind::ConnectivityError);
}

#[test]
fn test_model_manager_initialization() {
    let manager = LLMModelManager::new();
    assert!(manager.get_cached_models().is_empty());
    assert!(manager.get_cached_benchmarks().is_empty());
    assert_eq!(LLMModelManager::default(), manager);
}

#[test]
fn parameter_count_is_read_off_the_name() {
    let count = |n: &str| LLMModelManager::extract_parameter_count(n);
    assert_eq!(count("llama2:70b"), Some("70B".to_string()));
    assert_eq!(count("Llama-2-70-B"), Some("70B".to_string()));
    assert_eq!(count("codellama:34b"), Some("34B".to_string()));
    assert_eq!(count("llama2:13B"), Some("13B".to_string()));
    assert_eq!(count("mistral:7b"), Some("7B".to_string()));
    assert_eq!(count("llama3.2:3b"), Some("3B".to_string()));
    assert_eq!(count("llama3.2:1b"), Some("1B".to_string()));
    assert_eq!(count("orca-mini"), None);
    // `170b` holds `70b`.
    assert_eq!(count("x-170b"), Some("70B".to_string()));
}

#[test]
fn quantization_is_read_off_the_name() {
    let quant = |n: &str| LLMModelManager::extract_quantization(n);
    assert_eq!(quant("mistral-7b.Q8_0.gguf"), Some("Q8_0".to_string()));
    assert_eq!(quant("mistral-7b.q5_k_m.gguf"), Some("Q5_K_M".to_string()));
    assert_eq!(quant("mistral-7b.Q4_K_M.gguf"), Some("Q4_K_M".to_string()));
    assert_eq!(quant("mistral-7b.q4_0"), Some("Q4_0".to_string()));
    assert_eq!(quant("mistral-7b.Q2_K"), Some("Q2_K".to_string()));
    assert_eq!(quant("mistral-7b"), None);
}

#[test]
fn memory_estimate_scales_with_the_quantization() {
    let memory = |n: &str| LLMModelManager::estimate_memory_requirement(n);
    assert_eq!(memory("llama:70b"), Some(140_000));
    assert_eq!(memory("llama:70b-q2_k"), Some(42_000));
    assert_eq!(memory("llama:34b-q4_0"), Some(34_000));
    assert_eq!(memory("llama:13b-q4_k_m"), Some(13_000));
    assert_eq!(memory("llama:7b-q5_k_m"), Some(9_100));
    assert_eq!(memory("llama:3b-q8_0"), Some(4_800));
    assert_eq!(memory("llama:1b"), Some(2_000));
    assert_eq!(memory("llama:1b-q2_k"), Some(600));
    assert_eq!(memory("orca-mini"), None);
}

#[test]
fn context_length_is_read_off_the_name() {
    let context = |n: &str| LLMModelManager::get_context_length_for_model(n);
    assert_eq!(context("Llama3.2:3b"), Some(128_000));
    assert_eq!(context("llama2:7b"), Some(4096));
    assert_eq!(context("mistral:7b"), Some(8192));
    // A name with `llama` in it is a Llama before it is anything else.
    assert_eq!(context("codellama:7b"), Some(4096));
    assert_eq!(context("phi"), Some(2048));
}

#[test]
fn identifiers_are_split_at_colons() {
    assert_eq!(split_at_colons("ollama:llama3.2:3b"), vec!["ollama", "llama3.2", "3b"]);
    assert_eq!(split_at_colons("ollama"), vec!["ollama"]);
    assert_eq!(split_at_colons(""), vec![""]);
    assert_eq!(split_at_colons(":"), vec!["", ""]);
    assert_eq!(split_at_colons("a::b"), vec!["a", "", "b"]);
}

#[test]
fn config_for_a_model_needs_provider_and_name() {
    let c = LLMModelManager::create_config_for_model("gpt4all:orca-mini").unwrap();
    assert_eq!(
        c,
        LLMConfig {
            provider: LLMProvider::GPT4All,
            base_url: "http://localhost:4891".to_string(),
            model_name: "orca-mini".to_string(),
            temperature: 700,
            max_tokens: 2048,
            timeout_seconds: 120,
        }
    );
    let c = LLMModelManager::create_config_for_model("ollama:mistral").unwrap();
    assert_eq!((c.provider, c.base_url.as_str()), (LLMProvider::Ollama, "http://localhost:11434"));
    let c = LLMModelManager::create_config_for_model("lmstudio:local").unwrap();
    assert_eq!((c.provider, c.base_url.as_str()), (LLMProvider::LMStudio, "http://localhost:1234"));
    for bad in ["ollama", "ollama:llama3.2:3b", "openai:gpt-4", ":x", ""] {
        let r = LLMModelManager::create_config_for_model(bad);
        assert_eq!(r.unwrap_err().kind(), ErrorKind::ConfigurationError, "{:?}", bad);
    }
}

#[test]
fn test_model_recommendations() {
    let manager = LLMModelManager::new();
    assert_eq!(manager.get_recommended_models("summarization"), vec!["ollama:llama3.2:3b", "ollama:mistral:7b"]);
    assert_eq!(manager.get_recommended_models("テキスト要約"), vec!["ollama:llama3.2:3b", "ollama:mistral:7b"]);
    assert_eq!(manager.get_recommended_models("japanese"), vec!["ollama:llama3.2:3b", "gpt4all:orca-mini"]);
    assert_eq!(manager.get_recommended_models("会議記録"), vec!["ollama:llama3.2:3b", "gpt4all:orca-mini"]);
    assert_eq!(manager.get_recommended_models("速度重視"), vec!["ollama:llama3.2:1b", "gpt4all:orca-mini"]);
    assert_eq!(
        manager.get_recommended_models("quality"),
        vec!["ollama:llama3.2:7b", "lmstudio:mistral-7b-instruct"]
    );
    assert_eq!(manager.get_recommended_models("other"), vec!["ollama:llama3.2:3b"]);
}

#[test]
fn remembered_models_are_kept_once_per_identifier() {
    let model = |id: &str, available: bool| ModelInfo {
        id: id.to_string(),
        name: id.to_string(),
        provider: LLMProvider::Ollama,
        description: String::new(),
        parameter_count: None,
        quantization: None,
        memory_required: None,
        context_length: None,
        is_available: available,
        download_url: None,
        file_size: None,
    };
    let mut manager = LLMModelManager::new();
    manager.remember_model(model("a", true));
    manager.remember_model(model("b", true));
    manager.remember_model(model("a", false));
    let cached = manager.get_cached_models();
    assert_eq!(cached.len(), 2);
    assert_eq!(cached[0], model("a", false));
    assert_eq!(cached[1], model("b", true));
}

#[test]
fn test_model_settings_manager() {
    let manager = ModelSettingsManager::new("settings/model_settings.json".to_string());
    let settings = manager.get_settings();
    assert_eq!(settings.default_model, Some("ollama:llama3.2:3b".to_string()));
    assert!(settings.model_preferences.is_empty());
    assert!(!settings.auto_switch_enabled);
    assert_eq!(settings.performance_priority, PerformancePriority::Balance);
    assert_eq!(manager.get_settings_path(), "settings/model_settings.json");
    assert_eq!(manager.get_optimal_model("speed"), Some("ollama:llama3.2:1b".to_string()));
    assert_eq!(manager.get_optimal_model("quality"), Some("ollama:llama3.2:7b".to_string()));
    assert_eq!(manager.get_optimal_model("summarization"), Some("ollama:llama3.2:3b".to_string()));
    assert_eq!(manager.get_optimal_model("unknown"), Some("ollama:llama3.2:3b".to_string()));
}

#[test]
fn optimal_model_skips_what_is_switched_off() {
    let mut s = ModelSettings::default();
    s.set_model_preference("ollama:llama3.2:1b".to_string(), preference("ollama:llama3.2:1b", false, 5));
    // The model for speed is switched off; balance tries 3b and 7b, which have no preference.
    assert_eq!(s.get_optimal_model("speed"), Some("ollama:llama3.2:3b".to_string()));
    s.set_model_preference("ollama:llama3.2:7b".to_string(), preference("ollama:llama3.2:7b", true, 5));
    assert_eq!(s.get_optimal_model("speed"), Some("ollama:llama3.2:7b".to_string()));
    s.performance_priority = PerformancePriority::Memory;
    assert_eq!(s.get_optimal_model("speed"), Some("ollama:llama3.2:3b".to_string()));
    s.set_model_preference("gpt4all:orca-mini".to_string(), preference("gpt4all:orca-mini", true, 1));
    assert_eq!(s.get_optimal_model("speed"), Some("gpt4all:orca-mini".to_string()));
    s.set_model_preference("ollama:llama3.2:1b".to_string(), preference("ollama:llama3.2:1b", true, 5));
    assert_eq!(s.get_optimal_model("speed"), Some("ollama:llama3.2:1b".to_string()));
    s.default_model = None;
    s.performance_priority = PerformancePriority::Quality;
    assert_eq!(s.get_optimal_model("unknown"), Some("ollama:llama3.2:7b".to_string()));
    s.remove_model_preference("ollama:llama3.2:7b");
    assert_eq!(s.get_optimal_model("unknown"), None);
}

#[test]
fn settings_are_written_by_key() {
    let mut s = ModelSettings::default();
    s.set_default_model("x:y".to_string());
    assert_eq!(s.default_model, Some("x:y".to_string()));
    s.set_use_case_default("speed".to_string(), "x:fast".to_string());
    assert_eq!(s.use_case_defaults.len(), 4);
    assert_eq!(s.use_case_defaults[2].model_id, "x:fast");
    s.set_use_case_default("code".to_string(), "x:code".to_string());
    assert_eq!(s.use_case_defaults.len(), 5);
    assert_eq!(s.use_case_defaults[4].use_case, "code");
    s.set_model_preference("a:b".to_string(), preference("a:b", true, 3));
    s.set_model_preference("a:b".to_string(), preference("a:b", false, 4));
    assert_eq!(s.model_preferences.len(), 1);
    assert_eq!(s.model_preferences[0].preference.priority, 4);
    s.remove_model_preference("none");
    assert_eq!(s.model_preferences.len(), 1);
    s.remove_model_preference("a:b");
    assert!(s.model_preferences.is_empty());
    s.reset_to_defaults();
    assert_eq!(s, ModelSettings::default());
}

#[test]
fn manager_replaces_its_settings() {
    let mut manager = ModelSettingsManager::new("p".to_string());
    let mut other = ModelSettings::default();
    other.auto_switch_enabled = true;
    manager.replace_settings(other.clone());
    assert_eq!(manager.get_settings(), &other);
}
