//! What is known of the language models on this machine: their sizes, their
//! needs, and which of them suits which use.

use crate::errors::{AppError, AppResult};
use crate::models::{LLMConfig, LLMProvider};
use crate::platform::{json_leaf_at, read_json, JsonLeaf, JsonLeafView};
use crate::services::whisper::HttpOutcome;
use crate::text::texts;
use crate::text::{
    chars_of, contains_chars, contains_seq, decimal, decimal_seq, find_chars, find_from, join2,
    lowercase_of, same_text, slice_chars, string_of, to_lowercase, to_uppercase, uppercase_of,
};
use vstd::string::StringExecFns;
use vstd::prelude::*;

verus! {

/// A model that a provider offers.
#[derive(Debug, Clone, PartialEq, Eq)]
pub struct ModelInfo {
    pub id: String,
    pub name: String,
    pub provider: LLMProvider,
    pub description: String,
    /// The number of parameters, as in `7B`.
    pub parameter_count: Option<String>,
    /// The quantization, as in `Q4_0`.
    pub quantization: Option<String>,
    /// In mebibytes.
    pub memory_required: Option<u64>,
    pub context_length: Option<u32>,
    pub is_available: bool,
    pub download_url: Option<String>,
    /// In bytes.
    pub file_size: Option<u64>,
}

/// What a run of a model showed.
#[derive(Debug, Clone, PartialEq, Eq)]
pub struct ModelBenchmark {
    pub model_id: String,
    /// Tokens per second, in thousandths.
    pub inference_speed: Option<u64>,
    /// In mebibytes.
    pub memory_usage: Option<u64>,
    /// In thousandths, from 0 to 1000.
    pub quality_score: Option<u16>,
    pub last_benchmarked: i64,
}

/// What a model can do.
#[derive(Debug, Clone, PartialEq, Eq)]
pub struct ModelCapabilities {
    pub supports_summarization: bool,
    pub supports_japanese: bool,
    pub supports_streaming: bool,
    pub supports_function_calling: bool,
    pub max_context_tokens: u32,
    pub recommended_use_cases: Vec<String>,
}

/// The parameter count that a lower-case model name tells: the first of
/// 70, 34, 13, 7, 3 and 1 billion whose mark, as in `7b` or `7-b`, stands in
/// the name.
pub open spec fn parameter_count_in(lower: Seq<char>) -> Option<Seq<char>> {
    if contains_seq(lower, "70b"@) || contains_seq(lower, "70-b"@) {
        Some("70B"@)
    } else if contains_seq(lower, "34b"@) || contains_seq(lower, "34-b"@) {
        Some("34B"@)
    } else if contains_seq(lower, "13b"@) || contains_seq(lower, "13-b"@) {
        Some("13B"@)
    } else if contains_seq(lower, "7b"@) || contains_seq(lower, "7-b"@) {
        Some("7B"@)
    } else if contains_seq(lower, "3b"@) || contains_seq(lower, "3-b"@) {
        Some("3B"@)
    } else if contains_seq(lower, "1b"@) || contains_seq(lower, "1-b"@) {
        Some("1B"@)
    } else {
        None
    }
}

/// The quantization that an upper-case model name tells.
pub open spec fn quantization_in(upper: Seq<char>) -> Option<Seq<char>> {
    if contains_seq(upper, "Q8_0"@) {
        Some("Q8_0"@)
    } else if contains_seq(upper, "Q5_K_M"@) {
        Some("Q5_K_M"@)
    } else if contains_seq(upper, "Q4_K_M"@) {
        Some("Q4_K_M"@)
    } else if contains_seq(upper, "Q4_0"@) {
        Some("Q4_0"@)
    } else if contains_seq(upper, "Q2_K"@) {
        Some("Q2_K"@)
    } else {
        None
    }
}

/// The memory in mebibytes that a model of this parameter count takes at 16
/// bits per parameter.
pub open spec fn base_memory(parameter_count: Seq<char>) -> Option<u64> {
    if parameter_count == "70B"@ {
        Some(140000u64)
    } else if parameter_count == "34B"@ {
        Some(68000u64)
    } else if parameter_count == "13B"@ {
        Some(26000u64)
    } else if parameter_count == "7B"@ {
        Some(14000u64)
    } else if parameter_count == "3B"@ {
        Some(6000u64)
    } else if parameter_count == "1B"@ {
        Some(2000u64)
    } else {
        None
    }
}

/// The hundredths of the base memory that a quantization leaves: 30 for
/// `Q2_K`, 50 for the 4-bit ones, 65 for `Q5_K_M`, 80 for `Q8_0`, and all of
/// it without a known quantization.
pub open spec fn memory_percent(quantization: Option<Seq<char>>) -> int {
    if quantization == Some("Q2_K"@) {
        30
    } else if quantization == Some("Q4_0"@) || quantization == Some("Q4_K_M"@) {
        50
    } else if quantization == Some("Q5_K_M"@) {
        65
    } else if quantization == Some("Q8_0"@) {
        80
    } else {
        100
    }
}

/// The memory in mebibytes that the model of this name is estimated to need:
/// none where the name tells no parameter count.
pub open spec fn estimated_memory(model_name: Seq<char>) -> Option<u64> {
    match parameter_count_in(lowercase_of(model_name)) {
        Some(count) => match base_memory(count) {
            Some(base) => Some(
                (base * memory_percent(quantization_in(uppercase_of(model_name))) / 100) as u64,
            ),
            None => None,
        },
        None => None,
    }
}

/// The context length of the model of this lower-case name.
pub open spec fn context_length_in(lower: Seq<char>) -> u32 {
    if contains_seq(lower, "llama"@) && contains_seq(lower, "3.2"@) {
        128000
    } else if contains_seq(lower, "llama"@) {
        4096
    } else if contains_seq(lower, "mistral"@) {
        8192
    } else if contains_seq(lower, "codellama"@) {
        16384
    } else {
        2048
    }
}

/// The models that are recommended for a use.
pub open spec fn recommended_for(use_case: Seq<char>) -> Seq<Seq<char>> {
    if use_case == "summarization"@ || use_case == "テキスト要約"@ {
        seq!["ollama:llama3.2:3b"@, "ollama:mistral:7b"@]
    } else if use_case == "japanese"@ || use_case == "会議記録"@ {
        seq!["ollama:llama3.2:3b"@, "gpt4all:orca-mini"@]
    } else if use_case == "speed"@ || use_case == "高速処理"@ || use_case == "速度重視"@ {
        seq!["ollama:llama3.2:1b"@, "gpt4all:orca-mini"@]
    } else if use_case == "quality"@ || use_case == "高品質分析"@ || use_case == "高品質"@ {
        seq!["ollama:llama3.2:7b"@, "lmstudio:mistral-7b-instruct"@]
    } else {
        seq!["ollama:llama3.2:3b"@]
    }
}

/// The parts of `s` between its colons.
pub open spec fn colon_parts(s: Seq<char>) -> Seq<Seq<char>>
    decreases s.len(),
{
    let i = find_from(s, seq![':'], 0);
    if i < 0 || i >= s.len() {
        seq![s]
    } else {
        seq![s.subrange(0, i)] + colon_parts(s.subrange(i + 1, s.len() as int))
    }
}

/// The provider that a word names.
pub open spec fn provider_named(word: Seq<char>) -> Option<LLMProvider> {
    if word == "ollama"@ {
        Some(LLMProvider::Ollama)
    } else if word == "gpt4all"@ {
        Some(LLMProvider::GPT4All)
    } else if word == "lmstudio"@ {
        Some(LLMProvider::LMStudio)
    } else {
        None
    }
}

/// The address at which a provider listens on this machine.
pub open spec fn local_address(provider: LLMProvider) -> Seq<char> {
    match provider {
        LLMProvider::Ollama => "http://localhost:11434"@,
        LLMProvider::GPT4All => "http://localhost:4891"@,
        _ => "http://localhost:1234"@,
    }
}

fn has(hay: &Vec<char>, needle: &str) -> (r: bool)
    ensures
        r == contains_seq(hay@, needle@),
{
    let n = chars_of(needle);
    contains_chars(hay, &n)
}

/// Splits a text at its colons.
pub fn split_at_colons(s: &str) -> (out: Vec<String>)
    ensures
        texts(out@) == colon_parts(s@),
        out@.len() >= 1,
{
    let v = chars_of(s);
    let mut colon: Vec<char> = Vec::new();
    colon.push(':');
    assert(colon@ == seq![':']);
    let mut out: Vec<String> = Vec::new();
    let mut start: usize = 0;
    assert(v@.subrange(0, v.len() as int) == v@);
    assert(texts(out@) == Seq::<Seq<char>>::empty());
    loop
        invariant_except_break
            start <= v.len(),
            colon_parts(s@) == texts(out@) + colon_parts(v@.subrange(start as int, v.len() as int)),
        invariant
            colon@ == seq![':'],
            v@ == s@,
        ensures
            texts(out@) == colon_parts(s@),
            out@.len() >= 1,
        decreases v.len() - start,
    {
        let rest = slice_chars(&v, start, v.len());
        let ghost before = out@;
        match find_chars(&rest, &colon, 0) {
            Some(i) => {
                proof {
                    crate::text::lemma_find_from(rest@, colon@, 0);
                    assert(i < rest@.len());
                }
                let part = slice_chars(&rest, 0, i);
                out.push(string_of(&part));
                assert(texts(out@) == texts(before).push(part@));
                assert(rest@.subrange(i + 1, rest@.len() as int) == v@.subrange(
                    start + i + 1,
                    v.len() as int,
                ));
                assert(texts(before).push(part@) + colon_parts(
                    v@.subrange(start + i + 1, v.len() as int),
                ) == texts(before) + (seq![part@] + colon_parts(
                    v@.subrange(start + i + 1, v.len() as int),
                )));
                start = start + i + 1;
            },
            None => {
                out.push(string_of(&rest));
                assert(texts(out@) == texts(before).push(rest@));
                assert(texts(before).push(rest@) == texts(before) + seq![rest@]);
                assert(texts(out@).len() == out@.len());
                break;
            },
        }
    }
    out
}

/// The catalog of models that were found, and of the runs that were made.
#[derive(Debug, Clone, PartialEq, Eq)]
pub struct LLMModelManager {
    models_cache: Vec<ModelInfo>,
    benchmarks_cache: Vec<ModelBenchmark>,
}

impl LLMModelManager {
    /// The models that are known, each identifier once, in the order in which
    /// they were first seen.
    pub closed spec fn models(&self) -> Seq<ModelInfo> {
        self.models_cache@
    }

    /// The runs that are known, each model once.
    pub closed spec fn benchmarks(&self) -> Seq<ModelBenchmark> {
        self.benchmarks_cache@
    }

    /// A manager that knows no model.
    pub fn new() -> (m: Self)
        ensures
            m.models().len() == 0,
            m.benchmarks().len() == 0,
    {
        LLMModelManager { models_cache: Vec::new(), benchmarks_cache: Vec::new() }
    }

    /// The parameter count that the name of a model tells.
    pub fn extract_parameter_count(model_name: &str) -> (r: Option<String>)
        ensures
            match r {
                Some(count) => parameter_count_in(lowercase_of(model_name@)) == Some(count@),
                None => parameter_count_in(lowercase_of(model_name@)) is None,
            },
    {
        let lower = chars_of(to_lowercase(model_name).as_str());
        if has(&lower, "70b") || has(&lower, "70-b") {
            Some("70B".to_owned())
        } else if has(&lower, "34b") || has(&lower, "34-b") {
            Some("34B".to_owned())
        } else if has(&lower, "13b") || has(&lower, "13-b") {
            Some("13B".to_owned())
        } else if has(&lower, "7b") || has(&lower, "7-b") {
            Some("7B".to_owned())
        } else if has(&lower, "3b") || has(&lower, "3-b") {
            Some("3B".to_owned())
        } else if has(&lower, "1b") || has(&lower, "1-b") {
            Some("1B".to_owned())
        } else {
            None
        }
    }

    /// The quantization that the name of a model tells.
    pub fn extract_quantization(model_name: &str) -> (r: Option<String>)
        ensures
            match r {
                Some(q) => quantization_in(uppercase_of(model_name@)) == Some(q@),
                None => quantization_in(uppercase_of(model_name@)) is None,
            },
    {
        let upper = chars_of(to_uppercase(model_name).as_str());
        if has(&upper, "Q8_0") {
            Some("Q8_0".to_owned())
        } else if has(&upper, "Q5_K_M") {
            Some("Q5_K_M".to_owned())
        } else if has(&upper, "Q4_K_M") {
            Some("Q4_K_M".to_owned())
        } else if has(&upper, "Q4_0") {
            Some("Q4_0".to_owned())
        } else if has(&upper, "Q2_K") {
            Some("Q2_K".to_owned())
        } else {
            None
        }
    }

    /// The memory in mebibytes that the model of this name is estimated to
    /// need.
    pub fn estimate_memory_requirement(model_name: &str) -> (r: Option<u64>)
        ensures
            r == estimated_memory(model_name@),
    {
        let count = match LLMModelManager::extract_parameter_count(model_name) {
            Some(c) => c,
            None => {
                return None;
            },
        };
        let quantization = LLMModelManager::extract_quantization(model_name);
        let base: u64 = if same_text(count.as_str(), "70B") {
            140000
        } else if same_text(count.as_str(), "34B") {
            68000
        } else if same_text(count.as_str(), "13B") {
            26000
        } else if same_text(count.as_str(), "7B") {
            14000
        } else if same_text(count.as_str(), "3B") {
            6000
        } else if same_text(count.as_str(), "1B") {
            2000
        } else {
            return None;
        };
        let percent: u64 = match &quantization {
            Some(q) => {
                if same_text(q.as_str(), "Q2_K") {
                    30
                } else if same_text(q.as_str(), "Q4_0") || same_text(q.as_str(), "Q4_K_M") {
                    50
                } else if same_text(q.as_str(), "Q5_K_M") {
                    65
                } else if same_text(q.as_str(), "Q8_0") {
                    80
                } else {
                    100
                }
            },
            None => 100,
        };
        Some(base * percent / 100)
    }

    /// The context length of the model of this name.
    pub fn get_context_length_for_model(model_name: &str) -> (r: Option<u32>)
        ensures
            r == Some(context_length_in(lowercase_of(model_name@))),
    {
        let lower = chars_of(to_lowercase(model_name).as_str());
        if has(&lower, "llama") && has(&lower, "3.2") {
            Some(128000)
        } else if has(&lower, "llama") {
            Some(4096)
        } else if has(&lower, "mistral") {
            Some(8192)
        } else if has(&lower, "codellama") {
            Some(16384)
        } else {
            Some(2048)
        }
    }

    /// The settings with which the model `model_id` is run. The identifier
    /// is a provider and a model name with one colon between them; any other
    /// form, and a provider that is not known, is a configuration error.
    pub fn create_config_for_model(model_id: &str) -> (r: AppResult<LLMConfig>)
        ensures
            r is Ok <==> colon_parts(model_id@).len() == 2 && provider_named(
                colon_parts(model_id@)[0],
            ) is Some,
            r matches Ok(c) ==> ({
                &&& Some(c.provider) == provider_named(colon_parts(model_id@)[0])
                &&& c.base_url@ == local_address(c.provider)
                &&& c.model_name@ == colon_parts(model_id@)[1]
                &&& c.temperature == 700
                &&& c.max_tokens == 2048
                &&& c.timeout_seconds == 120
            }),
            r matches Err(e) ==> e is ConfigurationError,
    {
        let parts = split_at_colons(model_id);
        assert(texts(parts@).len() == parts@.len());
        if parts.len() != 2 {
            return Err(
                AppError::ConfigurationError {
                    message: join2("Invalid model ID format: ", model_id),
                },
            );
        }
        assert(texts(parts@)[0] == parts@[0]@);
        assert(texts(parts@)[1] == parts@[1]@);
        let provider = if same_text(parts[0].as_str(), "ollama") {
            LLMProvider::Ollama
        } else if same_text(parts[0].as_str(), "gpt4all") {
            LLMProvider::GPT4All
        } else if same_text(parts[0].as_str(), "lmstudio") {
            LLMProvider::LMStudio
        } else {
            return Err(
                AppError::ConfigurationError {
                    message: join2("Unsupported provider: ", parts[0].as_str()),
                },
            );
        };
        let base_url = match provider {
            LLMProvider::Ollama => "http://localhost:11434",
            LLMProvider::GPT4All => "http://localhost:4891",
            _ => "http://localhost:1234",
        };
        Ok(
            LLMConfig {
                provider,
                base_url: base_url.to_owned(),
                model_name: parts[1].clone(),
                temperature: 700,
                max_tokens: 2048,
                timeout_seconds: 120,
            },
        )
    }

    /// The models that are recommended for a use.
    pub fn get_recommended_models(&self, use_case: &str) -> (out: Vec<String>)
        ensures
            texts(out@) == recommended_for(use_case@),
    {
        let mut out: Vec<String> = Vec::new();
        if same_text(use_case, "summarization") || same_text(use_case, "テキスト要約") {
            out.push("ollama:llama3.2:3b".to_owned());
            out.push("ollama:mistral:7b".to_owned());
        } else if same_text(use_case, "japanese") || same_text(use_case, "会議記録") {
            out.push("ollama:llama3.2:3b".to_owned());
            out.push("gpt4all:orca-mini".to_owned());
        } else if same_text(use_case, "speed") || same_text(use_case, "高速処理") || same_text(
            use_case,
            "速度重視",
        ) {
            out.push("ollama:llama3.2:1b".to_owned());
            out.push("gpt4all:orca-mini".to_owned());
        } else if same_text(use_case, "quality") || same_text(use_case, "高品質分析") || same_text(
            use_case,
            "高品質",
        ) {
            out.push("ollama:llama3.2:7b".to_owned());
            out.push("lmstudio:mistral-7b-instruct".to_owned());
        } else {
            out.push("ollama:llama3.2:3b".to_owned());
        }
        assert(texts(out@) == recommended_for(use_case@));
        out
    }

    /// The models that are known.
    pub fn get_cached_models(&self) -> (out: &Vec<ModelInfo>)
        ensures
            out@ == self.models(),
    {
        &self.models_cache
    }

    /// The runs that are known.
    pub fn get_cached_benchmarks(&self) -> (out: &Vec<ModelBenchmark>)
        ensures
            out@ == self.benchmarks(),
    {
        &self.benchmarks_cache
    }

    /// Takes note of a model: it takes the place of the known model with the
    /// same identifier, or comes last where there is none.
    pub fn remember_model(&mut self, model: ModelInfo)
        ensures
            final(self).benchmarks() == old(self).benchmarks(),
            final(self).models() == with_model(old(self).models(), model),
    {
        let mut i: usize = 0;
        while i < self.models_cache.len()
            invariant
                i <= self.models_cache.len(),
                *self == *old(self),
                forall|k: int| 0 <= k < i ==> (#[trigger] self.models()[k]).id@ != model.id@,
            decreases self.models_cache.len() - i,
        {
            if same_text(self.models_cache[i].id.as_str(), model.id.as_str()) {
                proof {
                    lemma_first_with_id(self.models(), model.id@, i as int);
                }
                self.models_cache.set(i, model);
                return;
            }
            i = i + 1;
        }
        proof {
            lemma_no_id(self.models(), model.id@);
        }
        self.models_cache.push(model);
    }
}

/// The text of an optional string.
pub open spec fn optional_text(s: Option<String>) -> Option<Seq<char>> {
    match s {
        Some(t) => Some(t@),
        None => None,
    }
}

/// Where the list of models stands in the answer of a provider.
pub open spec fn list_pointer(provider: LLMProvider) -> Seq<char> {
    match provider {
        LLMProvider::Ollama => "/models"@,
        _ => "/data"@,
    }
}

/// The member of an item that holds the name of the model.
pub open spec fn name_member(provider: LLMProvider) -> Seq<char> {
    match provider {
        LLMProvider::Ollama => "/name"@,
        _ => "/id"@,
    }
}

/// The word that stands before the name in the identifier of a model.
pub open spec fn id_prefix(provider: LLMProvider) -> Seq<char> {
    match provider {
        LLMProvider::Ollama => "ollama:"@,
        LLMProvider::GPT4All => "gpt4all:"@,
        _ => "lmstudio:"@,
    }
}

/// The words that stand before the name in the description of a model.
pub open spec fn description_prefix(provider: LLMProvider) -> Seq<char> {
    match provider {
        LLMProvider::Ollama => "Ollama model: "@,
        LLMProvider::GPT4All => "GPT4All model: "@,
        _ => "LM Studio model: "@,
    }
}

/// The pointer to item `i` of the list at `list`.
pub open spec fn item_pointer(list: Seq<char>, i: nat) -> Seq<char> {
    list + seq!['/'] + decimal_seq(i)
}

/// The name of item `i` in the answer `body` of a provider, if the item has
/// one.
pub open spec fn item_name(provider: LLMProvider, body: Seq<char>, i: nat) -> Option<Seq<char>> {
    match json_leaf_at(body, item_pointer(list_pointer(provider), i) + name_member(provider)) {
        JsonLeafView::Text(t) => Some(t),
        _ => None,
    }
}

/// The size of item `i` in the answer `body`: only Ollama tells it.
pub open spec fn item_size(provider: LLMProvider, body: Seq<char>, i: nat) -> Option<u64> {
    if provider == LLMProvider::Ollama {
        match json_leaf_at(body, item_pointer(list_pointer(provider), i) + "/size"@) {
            JsonLeafView::Number(n) => Some(n),
            _ => None,
        }
    } else {
        None
    }
}

/// The number of items in the answer `body` of a provider; none where the
/// answer holds no list.
pub open spec fn item_count(provider: LLMProvider, body: Seq<char>) -> nat {
    match json_leaf_at(body, list_pointer(provider)) {
        JsonLeafView::List(n) => n,
        _ => 0,
    }
}

/// The items among the first `n` that have a name, in order.
pub open spec fn named_items(provider: LLMProvider, body: Seq<char>, n: nat) -> Seq<nat>
    decreases n,
{
    if n == 0 {
        Seq::empty()
    } else if item_name(provider, body, (n - 1) as nat) is Some {
        named_items(provider, body, (n - 1) as nat).push((n - 1) as nat)
    } else {
        named_items(provider, body, (n - 1) as nat)
    }
}

/// The model `m` is what item `i` of the answer `body` tells of a model of
/// the provider: its name with the provider's word before it as identifier,
/// what the name tells of parameters, quantization, memory and context, and
/// the size that the item gives.
pub open spec fn describes(m: ModelInfo, provider: LLMProvider, body: Seq<char>, i: nat) -> bool {
    &&& item_name(provider, body, i) matches Some(name)
    &&& m.id@ == id_prefix(provider) + name
    &&& m.name@ == name
    &&& m.provider == provider
    &&& m.description@ == description_prefix(provider) + name
    &&& optional_text(m.parameter_count) == parameter_count_in(lowercase_of(name))
    &&& optional_text(m.quantization) == (if provider == LLMProvider::GPT4All {
        Some("Q4_0"@)
    } else {
        quantization_in(uppercase_of(name))
    })
    &&& m.memory_required == estimated_memory(name)
    &&& m.context_length == (match provider {
        LLMProvider::Ollama => Some(context_length_in(lowercase_of(name))),
        LLMProvider::GPT4All => Some(2048u32),
        _ => Some(4096u32),
    })
    &&& m.is_available
    &&& m.download_url is None
    &&& m.file_size == item_size(provider, body, i)
}

/// Whether a provider lists its models.
pub open spec fn lists_models(provider: LLMProvider) -> bool {
    provider == LLMProvider::Ollama || provider == LLMProvider::GPT4All || provider
        == LLMProvider::LMStudio
}

impl LLMModelManager {
    /// The models that the answer `body` of a provider lists: one for each
    /// item that has a name, in order. A provider that lists no models, and
    /// an answer without a list, gives none.
    pub fn discover_models(provider: LLMProvider, body: &str) -> (out: Vec<ModelInfo>)
        ensures
            !lists_models(provider) ==> out@.len() == 0,
            lists_models(provider) ==> out@.len() == named_items(
                provider,
                body@,
                item_count(provider, body@),
            ).len() && forall|k: int|
                0 <= k < out@.len() ==> describes(
                    #[trigger] out@[k],
                    provider,
                    body@,
                    named_items(provider, body@, item_count(provider, body@))[k],
                ),
    {
        let mut out: Vec<ModelInfo> = Vec::new();
        let list: &str = match provider {
            LLMProvider::Ollama => "/models",
            LLMProvider::GPT4All => "/data",
            LLMProvider::LMStudio => "/data",
            _ => {
                return out;
            },
        };
        let member: &str = match provider {
            LLMProvider::Ollama => "/name",
            _ => "/id",
        };
        let count: usize = match read_json(body, list) {
            JsonLeaf::List(n) => n,
            _ => 0,
        };
        let mut i: usize = 0;
        while i < count
            invariant
                i <= count,
                count == item_count(provider, body@),
                lists_models(provider),
                list@ == list_pointer(provider),
                member@ == name_member(provider),
                out@.len() == named_items(provider, body@, i as nat).len(),
                forall|k: int|
                    0 <= k < out@.len() ==> describes(
                        #[trigger] out@[k],
                        provider,
                        body@,
                        named_items(provider, body@, i as nat)[k],
                    ),
            decreases count - i,
        {
            let mut item = list.to_owned();
            item.append("/");
            item.append(decimal(i as u64).as_str());
            proof {
                reveal_strlit("/");
                assert("/"@ =~= seq!['/']);
                assert(item@ == item_pointer(list_pointer(provider), i as nat));
            }
            let name_pointer = join2(item.as_str(), member);
            match read_json(body, name_pointer.as_str()) {
                JsonLeaf::Text(name) => {
                    let file_size: Option<u64> = match provider {
                        LLMProvider::Ollama => {
                            let size_pointer = join2(item.as_str(), "/size");
                            match read_json(body, size_pointer.as_str()) {
                                JsonLeaf::Number(n) => Some(n),
                                _ => None,
                            }
                        },
                        _ => None,
                    };
                    let id_prefix: &str = match provider {
                        LLMProvider::Ollama => "ollama:",
                        LLMProvider::GPT4All => "gpt4all:",
                        _ => "lmstudio:",
                    };
                    let description_prefix: &str = match provider {
                        LLMProvider::Ollama => "Ollama model: ",
                        LLMProvider::GPT4All => "GPT4All model: ",
                        _ => "LM Studio model: ",
                    };
                    let quantization = match provider {
                        LLMProvider::GPT4All => Some("Q4_0".to_owned()),
                        _ => LLMModelManager::extract_quantization(name.as_str()),
                    };
                    let context_length = match provider {
                        LLMProvider::Ollama => LLMModelManager::get_context_length_for_model(
                            name.as_str(),
                        ),
                        LLMProvider::GPT4All => Some(2048),
                        _ => Some(4096),
                    };
                    let model = ModelInfo {
                        id: join2(id_prefix, name.as_str()),
                        name: name.clone(),
                        provider,
                        description: join2(description_prefix, name.as_str()),
                        parameter_count: LLMModelManager::extract_parameter_count(name.as_str()),
                        quantization,
                        memory_required: LLMModelManager::estimate_memory_requirement(
                            name.as_str(),
                        ),
                        context_length,
                        is_available: true,
                        download_url: None,
                        file_size,
                    };
                    assert(describes(model, provider, body@, i as nat));
                    out.push(model);
                },
                _ => {},
            }
            i = i + 1;
        }
        out
    }

    /// Takes note of the models that were found, each in turn, and hands
    /// them back.
    pub fn discover_available_models(&mut self, found: Vec<ModelInfo>) -> (r: AppResult<
        Vec<ModelInfo>,
    >)
        ensures
            r == Ok::<Vec<ModelInfo>, AppError>(found),
            final(self).benchmarks() == old(self).benchmarks(),
            final(self).models() == remembered(old(self).models(), found@),
    {
        let mut i: usize = 0;
        assert(found@.take(0) == Seq::<ModelInfo>::empty());
        while i < found.len()
            invariant
                i <= found.len(),
                self.benchmarks() == old(self).benchmarks(),
                self.models() == remembered(old(self).models(), found@.take(i as int)),
            decreases found.len() - i,
        {
            proof {
                let next = found@.take(i + 1);
                assert(next.drop_last() == found@.take(i as int));
                assert(next.last() == found@[i as int]);
            }
            let m = &found[i];
            let copy = ModelInfo {
                id: m.id.clone(),
                name: m.name.clone(),
                provider: m.provider,
                description: m.description.clone(),
                parameter_count: m.parameter_count.clone(),
                quantization: m.quantization.clone(),
                memory_required: m.memory_required,
                context_length: m.context_length,
                is_available: m.is_available,
                download_url: m.download_url.clone(),
                file_size: m.file_size,
            };
            assert(copy == *m);
            self.remember_model(copy);
            i = i + 1;
        }
        assert(found@.take(found.len() as int) == found@);
        Ok(found)
    }

    /// The address that a test prompt is sent to. Only Ollama, GPT4All and LM
    /// Studio can be tested; any other provider is a configuration error.
    pub fn inference_endpoint(config: &LLMConfig) -> (r: AppResult<String>)
        ensures
            r is Ok <==> lists_models(config.provider),
            r matches Ok(url) ==> url@ == config.base_url@ + (if config.provider
                == LLMProvider::Ollama {
                "/api/generate"@
            } else {
                "/v1/chat/completions"@
            }),
            r matches Err(e) ==> e is ConfigurationError,
    {
        match config.provider {
            LLMProvider::Ollama => Ok(join2(config.base_url.as_str(), "/api/generate")),
            LLMProvider::GPT4All => Ok(join2(config.base_url.as_str(), "/v1/chat/completions")),
            LLMProvider::LMStudio => Ok(join2(config.base_url.as_str(), "/v1/chat/completions")),
            _ => Err(
                AppError::ConfigurationError {
                    message: "Unsupported provider for benchmarking".to_owned(),
                },
            ),
        }
    }

    /// Reads the text out of the answer to a test prompt. An answer of
    /// success without text is an empty text, not an error.
    pub fn run_inference_test(config: &LLMConfig, outcome: &HttpOutcome) -> (r: AppResult<String>)
        ensures
            match *outcome {
                HttpOutcome::Unreachable(_) => r matches Err(e) && e is ConnectivityError,
                HttpOutcome::TimedOut => r matches Err(e) && e is ConnectivityError,
                HttpOutcome::Answered { success, body } => if !lists_models(config.provider) {
                    r matches Err(e) && e is ConfigurationError
                } else if !success {
                    r matches Err(e) && e is ConnectivityError
                } else {
                    r matches Ok(text) && text@ == (match json_leaf_at(
                        body@,
                        if config.provider == LLMProvider::Ollama {
                            "/response"@
                        } else {
                            "/choices/0/message/content"@
                        },
                    ) {
                        JsonLeafView::Text(t) => t,
                        _ => Seq::empty(),
                    })
                },
            },
    {
        match outcome {
            HttpOutcome::Unreachable(reason) => Err(
                AppError::ConnectivityError { message: join2("HTTP error: ", reason.as_str()) },
            ),
            HttpOutcome::TimedOut => Err(
                AppError::ConnectivityError { message: "HTTP error: timed out".to_owned() },
            ),
            HttpOutcome::Answered { success, body } => {
                let pointer: &str = match config.provider {
                    LLMProvider::Ollama => "/response",
                    LLMProvider::GPT4All => "/choices/0/message/content",
                    LLMProvider::LMStudio => "/choices/0/message/content",
                    _ => {
                        return Err(
                            AppError::ConfigurationError {
                                message: "Unsupported provider for benchmarking".to_owned(),
                            },
                        );
                    },
                };
                if !*success {
                    return Err(
                        AppError::ConnectivityError { message: join2("HTTP error: ", body.as_str()) },
                    );
                }
                match read_json(body.as_str(), pointer) {
                    JsonLeaf::Text(t) => Ok(t),
                    _ => Ok(String::new()),
                }
            },
        }
    }

    /// Makes the record of a run of the model `model_id` that answered with
    /// `answer_bytes` bytes in `elapsed_ms`, and takes note of it in place of
    /// an older record of the model.
    ///
    /// The speed is in thousandths of a token per second, at four bytes to
    /// the token, and unknown for a run of no time. The memory is what the
    /// run added, never less than nothing.
    pub fn benchmark_model(
        &mut self,
        model_id: &str,
        answer_bytes: usize,
        elapsed_ms: u64,
        memory_before: u64,
        memory_after: u64,
        now: i64,
    ) -> (r: AppResult<ModelBenchmark>)
        ensures
            r matches Ok(b) && b.model_id@ == model_id@ && b.inference_speed == measured_speed(
                answer_bytes,
                elapsed_ms,
            ) && b.memory_usage == Some(
                if memory_after >= memory_before {
                    (memory_after - memory_before) as u64
                } else {
                    0u64
                },
            ) && b.quality_score is None && b.last_benchmarked == now,
            final(self).models() == old(self).models(),
            final(self).benchmarks().len() >= 1,
            exists|k: int|
                0 <= k < final(self).benchmarks().len() && (
                #[trigger] final(self).benchmarks()[k]).model_id@ == model_id@
                    && final(self).benchmarks()[k].last_benchmarked == now,
    {
        let tokens: u128 = (answer_bytes as u128) / 4;
        let speed: Option<u64> = if elapsed_ms == 0 {
            None
        } else {
            let scaled: u128 = tokens * 1000000 / (elapsed_ms as u128);
            if scaled > u64::MAX as u128 {
                Some(u64::MAX)
            } else {
                Some(scaled as u64)
            }
        };
        let memory: u64 = if memory_after >= memory_before {
            memory_after - memory_before
        } else {
            0
        };
        let benchmark = ModelBenchmark {
            model_id: model_id.to_owned(),
            inference_speed: speed,
            memory_usage: Some(memory),
            quality_score: None,
            last_benchmarked: now,
        };
        let kept = ModelBenchmark {
            model_id: model_id.to_owned(),
            inference_speed: speed,
            memory_usage: Some(memory),
            quality_score: None,
            last_benchmarked: now,
        };
        let mut i: usize = 0;
        let mut placed = false;
        while i < self.benchmarks_cache.len() && !placed
            invariant
                i <= self.benchmarks_cache.len(),
                self.models() == old(self).models(),
                kept.model_id@ == model_id@,
                kept.last_benchmarked == now,
                placed ==> exists|k: int|
                    0 <= k < self.benchmarks().len() && (#[trigger] self.benchmarks()[k]).model_id@
                        == model_id@ && self.benchmarks()[k].last_benchmarked == now,
                !placed ==> self.benchmarks_cache@.len() == old(self).benchmarks_cache@.len(),
            decreases self.benchmarks_cache.len() - i + (if placed {
                0int
            } else {
                1int
            }),
        {
            if same_text(self.benchmarks_cache[i].model_id.as_str(), model_id) {
                let replacement = ModelBenchmark {
                    model_id: model_id.to_owned(),
                    inference_speed: speed,
                    memory_usage: Some(memory),
                    quality_score: None,
                    last_benchmarked: now,
                };
                self.benchmarks_cache.set(i, replacement);
                assert(self.benchmarks()[i as int].model_id@ == model_id@);
                placed = true;
            } else {
                i = i + 1;
            }
        }
        if !placed {
            self.benchmarks_cache.push(kept);
            assert(self.benchmarks()[self.benchmarks().len() - 1].model_id@ == model_id@);
        }
        Ok(benchmark)
    }
}

/// The speed of a run in thousandths of a token per second, at four bytes
/// to the token; unknown for a run of no time, and cut down to what fits in
/// 64 bits.
pub open spec fn measured_speed(answer_bytes: usize, elapsed_ms: u64) -> Option<u64> {
    if elapsed_ms == 0 {
        None
    } else {
        let scaled = (answer_bytes as int / 4) * 1000000 / (elapsed_ms as int);
        if scaled > u64::MAX {
            Some(u64::MAX)
        } else {
            Some(scaled as u64)
        }
    }
}

/// `models` after note was taken of one more model: it takes the place of
/// the first model with its identifier, or comes last.
pub open spec fn with_model(models: Seq<ModelInfo>, model: ModelInfo) -> Seq<ModelInfo> {
    match first_with_id(models, model.id@) {
        Some(i) => models.update(i, model),
        None => models.push(model),
    }
}

/// `models` after note was taken of each of `found`, in order.
pub open spec fn remembered(models: Seq<ModelInfo>, found: Seq<ModelInfo>) -> Seq<ModelInfo>
    decreases found.len(),
{
    if found.len() == 0 {
        models
    } else {
        with_model(remembered(models, found.drop_last()), found.last())
    }
}

/// The first position in `models` of a model with the identifier `id`.
pub open spec fn first_with_id(models: Seq<ModelInfo>, id: Seq<char>) -> Option<int> {
    if exists|i: int| 0 <= i < models.len() && (#[trigger] models[i]).id@ == id {
        Some(
            choose|i: int|
                0 <= i < models.len() && (#[trigger] models[i]).id@ == id && forall|j: int|
                    0 <= j < i ==> (#[trigger] models[j]).id@ != id,
        )
    } else {
        None
    }
}

proof fn lemma_first_with_id(models: Seq<ModelInfo>, id: Seq<char>, i: int)
    requires
        0 <= i < models.len(),
        models[i].id@ == id,
        forall|j: int| 0 <= j < i ==> (#[trigger] models[j]).id@ != id,
    ensures
        first_with_id(models, id) == Some(i),
{
    let k = choose|k: int|
        0 <= k < models.len() && (#[trigger] models[k]).id@ == id && forall|j: int|
            0 <= j < k ==> (#[trigger] models[j]).id@ != id;
    assert(0 <= k < models.len() && models[k].id@ == id && forall|j: int|
        0 <= j < k ==> (#[trigger] models[j]).id@ != id);
    if k < i {
        assert(models[k].id@ != id);
    } else if i < k {
        assert(models[i].id@ != id);
    }
}

proof fn lemma_no_id(models: Seq<ModelInfo>, id: Seq<char>)
    requires
        forall|j: int| 0 <= j < models.len() ==> (#[trigger] models[j]).id@ != id,
    ensures
        first_with_id(models, id) is None,
{
}

impl Default for LLMModelManager {
    fn default() -> (m: Self)
        ensures
            m.models().len() == 0,
            m.benchmarks().len() == 0,
    {
        LLMModelManager::new()
    }
}

} // verus!
