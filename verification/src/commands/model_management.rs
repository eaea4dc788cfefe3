//! What the name of a language model tells of its uses and its speed.

use crate::models::LLMProvider;
use crate::platform::{read_json, JsonLeaf};
use crate::services::llm_manager::{
    colon_parts, item_count, item_name, split_at_colons, ModelCapabilities,
};
use crate::services::whisper::HttpOutcome;
use crate::text::{
    chars_of, contains_chars, contains_seq, decimal, lowercase_of, same_text, texts,
    to_lowercase,
};
use vstd::prelude::*;
use vstd::string::StringExecFns;

verus! {

/// The uses that the lower-case name of a model recommends it for: two for
/// each mark that stands in the name, in the order of the marks, and the
/// summary of texts for every model.
pub open spec fn use_cases_of(model_name: Seq<char>) -> Seq<Seq<char>> {
    (if contains_seq(model_name, "3b"@) || contains_seq(model_name, "1b"@) {
        seq!["速度重視"@, "軽量タスク"@]
    } else {
        Seq::<Seq<char>>::empty()
    }) + (if contains_seq(model_name, "7b"@) {
        seq!["バランス型"@, "一般的な要約"@]
    } else {
        Seq::<Seq<char>>::empty()
    }) + (if contains_seq(model_name, "13b"@) || contains_seq(model_name, "70b"@) {
        seq!["高品質"@, "複雑な分析"@]
    } else {
        Seq::<Seq<char>>::empty()
    }) + (if contains_seq(model_name, "code"@) {
        seq!["コード生成"@, "技術文書"@]
    } else {
        Seq::<Seq<char>>::empty()
    }) + (if contains_seq(model_name, "instruct"@) || contains_seq(model_name, "chat"@) {
        seq!["会話"@, "指示応答"@]
    } else {
        Seq::<Seq<char>>::empty()
    }) + seq!["テキスト要約"@]
}

/// The part of a model identifier after its first colon; nothing where it
/// has no colon.
pub open spec fn name_part(model_id: Seq<char>) -> Seq<char> {
    if colon_parts(model_id).len() >= 2 {
        colon_parts(model_id)[1]
    } else {
        Seq::empty()
    }
}

/// The tokens that a model of this name writes in a second: 50 for one
/// billion parameters, 30 for three, 15 for seven, 8 for thirteen, 2 for
/// seventy, and 20 where the name tells no size.
pub open spec fn tokens_per_second(model_name: Seq<char>) -> int {
    if contains_seq(model_name, "1b"@) {
        50
    } else if contains_seq(model_name, "3b"@) {
        30
    } else if contains_seq(model_name, "7b"@) {
        15
    } else if contains_seq(model_name, "13b"@) {
        8
    } else if contains_seq(model_name, "70b"@) {
        2
    } else {
        20
    }
}

/// The milliseconds that a model of this name is estimated to take for a
/// text of `text_length` characters, at four characters to the token,
/// rounded down.
pub open spec fn processing_millis(model_name: Seq<char>, text_length: u32) -> int {
    (text_length * 250) / tokens_per_second(model_name)
}

fn has(hay: &Vec<char>, needle: &str) -> (r: bool)
    ensures
        r == contains_seq(hay@, needle@),
{
    let n = chars_of(needle);
    contains_chars(hay, &n)
}

fn push_pair(out: &mut Vec<String>, a: &str, b: &str)
    ensures
        texts(final(out)@) == texts(old(out)@) + seq![a@, b@],
{
    out.push(a.to_owned());
    out.push(b.to_owned());
    assert(texts(out@) == texts(old(out)@) + seq![a@, b@]);
}

/// The uses that the lower-case name of a model recommends it for.
pub fn get_use_cases_for_model(model_name: &str) -> (out: Vec<String>)
    ensures
        texts(out@) == use_cases_of(model_name@),
{
    let name = chars_of(model_name);
    let mut out: Vec<String> = Vec::new();
    assert(texts(out@) == Seq::<Seq<char>>::empty());
    if has(&name, "3b") || has(&name, "1b") {
        push_pair(&mut out, "速度重視", "軽量タスク");
    }
    if has(&name, "7b") {
        push_pair(&mut out, "バランス型", "一般的な要約");
    }
    if has(&name, "13b") || has(&name, "70b") {
        push_pair(&mut out, "高品質", "複雑な分析");
    }
    if has(&name, "code") {
        push_pair(&mut out, "コード生成", "技術文書");
    }
    if has(&name, "instruct") || has(&name, "chat") {
        push_pair(&mut out, "会話", "指示応答");
    }
    let ghost before = out@;
    out.push("テキスト要約".to_owned());
    assert(texts(out@) == texts(before) + seq!["テキスト要約"@]);
    out
}

/// What the model `model_id` can do, read off the lower-case form of its
/// name: it summarizes and streams; it knows Japanese where it is a Llama or
/// a Mistral; it calls functions where it is a Llama of generation three;
/// its context is long where it is of version 3.2.
pub fn get_model_capabilities(model_id: &str) -> (r: Result<ModelCapabilities, String>)
    ensures
        r matches Ok(c) && ({
            let lower = lowercase_of(name_part(model_id@));
            &&& c.supports_summarization
            &&& c.supports_japanese == (contains_seq(lower, "llama"@) || contains_seq(
                lower,
                "mistral"@,
            ))
            &&& c.supports_streaming
            &&& c.supports_function_calling == (contains_seq(lower, "llama"@) && contains_seq(
                lower,
                "3."@,
            ))
            &&& c.max_context_tokens == (if contains_seq(lower, "3.2"@) {
                128000u32
            } else {
                4096u32
            })
            &&& texts(c.recommended_use_cases@) == use_cases_of(lower)
        }),
{
    let parts = split_at_colons(model_id);
    assert(texts(parts@).len() == parts@.len());
    let lower_text = if parts.len() >= 2 {
        assert(texts(parts@)[1] == parts@[1]@);
        to_lowercase(parts[1].as_str())
    } else {
        to_lowercase("")
    };
    proof {
        reveal_strlit("");
        assert(""@ =~= Seq::<char>::empty());
    }
    let lower = chars_of(lower_text.as_str());
    Ok(
        ModelCapabilities {
            supports_summarization: true,
            supports_japanese: has(&lower, "llama") || has(&lower, "mistral"),
            supports_streaming: true,
            supports_function_calling: has(&lower, "llama") && has(&lower, "3."),
            max_context_tokens: if has(&lower, "3.2") {
                128000
            } else {
                4096
            },
            recommended_use_cases: get_use_cases_for_model(lower_text.as_str()),
        },
    )
}

/// The milliseconds that the model `model_id` is estimated to take for a
/// text of `text_length` characters.
pub fn estimate_processing_time(model_id: &str, text_length: u32) -> (r: Result<u64, String>)
    ensures
        r matches Ok(millis) && millis == processing_millis(name_part(model_id@), text_length),
{
    let parts = split_at_colons(model_id);
    assert(texts(parts@).len() == parts@.len());
    let name: Vec<char> = if parts.len() >= 2 {
        assert(texts(parts@)[1] == parts@[1]@);
        chars_of(parts[1].as_str())
    } else {
        Vec::new()
    };
    let rate: u64 = if has(&name, "1b") {
        50
    } else if has(&name, "3b") {
        30
    } else if has(&name, "7b") {
        15
    } else if has(&name, "13b") {
        8
    } else if has(&name, "70b") {
        2
    } else {
        20
    };
    Ok((text_length as u64) * 250 / rate)
}

/// The prompt that a model is tested with where none is given.
pub const DEFAULT_BENCHMARK_PROMPT: &'static str =
    "以下のテキストを要約してください：今日は天気が良く、散歩に出かけました。公園では桜が咲いていて、とても美しかったです。";

/// The prompt that a model is tested with.
pub fn benchmark_model(test_prompt: Option<String>) -> (prompt: String)
    ensures
        prompt@ == (match test_prompt {
            Some(p) => p@,
            None => DEFAULT_BENCHMARK_PROMPT@,
        }),
{
    match test_prompt {
        Some(p) => p,
        None => DEFAULT_BENCHMARK_PROMPT.to_owned(),
    }
}

/// How to find out whether a model can be used.
#[derive(Debug, Clone, PartialEq, Eq)]
pub enum AvailabilityCheck {
    /// The identifier names no provider that can be asked: the model cannot
    /// be used.
    Unavailable,
    /// Ask Ollama to show the model.
    AskOllama { model_name: String },
    /// Ask the provider for its models and look for the name among them.
    AskList { provider: LLMProvider, model_name: String },
}

/// How to find out whether the model `model_id` can be used: by its
/// provider, where the identifier is a provider and a name with one colon
/// between them.
pub fn validate_model_availability(model_id: &str) -> (check: AvailabilityCheck)
    ensures
        match check {
            AvailabilityCheck::Unavailable => colon_parts(model_id@).len() != 2 || (colon_parts(
                model_id@,
            )[0] != "ollama"@ && colon_parts(model_id@)[0] != "gpt4all"@ && colon_parts(
                model_id@,
            )[0] != "lmstudio"@),
            AvailabilityCheck::AskOllama { model_name } => colon_parts(model_id@).len() == 2
                && colon_parts(model_id@)[0] == "ollama"@ && model_name@ == colon_parts(
                model_id@,
            )[1],
            AvailabilityCheck::AskList { provider, model_name } => colon_parts(model_id@).len()
                == 2 && model_name@ == colon_parts(model_id@)[1] && colon_parts(model_id@)[0]
                != "ollama"@ && ((provider == LLMProvider::GPT4All && colon_parts(model_id@)[0]
                == "gpt4all"@) || (provider == LLMProvider::LMStudio && colon_parts(model_id@)[0]
                == "lmstudio"@)),
        },
{
    let parts = split_at_colons(model_id);
    assert(texts(parts@).len() == parts@.len());
    if parts.len() != 2 {
        return AvailabilityCheck::Unavailable;
    }
    assert(texts(parts@)[0] == parts@[0]@);
    assert(texts(parts@)[1] == parts@[1]@);
    if same_text(parts[0].as_str(), "ollama") {
        AvailabilityCheck::AskOllama { model_name: parts[1].clone() }
    } else if same_text(parts[0].as_str(), "gpt4all") {
        AvailabilityCheck::AskList { provider: LLMProvider::GPT4All, model_name: parts[1].clone() }
    } else if same_text(parts[0].as_str(), "lmstudio") {
        AvailabilityCheck::AskList { provider: LLMProvider::LMStudio, model_name: parts[1].clone() }
    } else {
        AvailabilityCheck::Unavailable
    }
}

/// Whether Ollama has the model, by its answer to the request to show it:
/// only an answer of success counts.
pub fn validate_ollama_model(outcome: &HttpOutcome) -> (b: bool)
    ensures
        b == (*outcome matches HttpOutcome::Answered { success, .. } && success),
{
    match outcome {
        HttpOutcome::Answered { success, .. } => *success,
        _ => false,
    }
}

/// Whether one of the models that the answer `body` lists has the name.
pub open spec fn is_listed(provider: LLMProvider, body: Seq<char>, model_name: Seq<char>) -> bool {
    exists|i: nat|
        i < item_count(provider, body) && #[trigger] item_name(provider, body, i) == Some(
            model_name,
        )
}

/// Whether a provider that lists its models has the model, by its answer:
/// an answer of success that lists a model of the name.
pub fn validate_listed_model(provider: LLMProvider, model_name: &str, outcome: &HttpOutcome) -> (b:
    bool)
    ensures
        b == (*outcome matches HttpOutcome::Answered { success, body } && success && is_listed(
            provider,
            body@,
            model_name@,
        )),
{
    match outcome {
        HttpOutcome::Answered { success, body } => {
            if !*success {
                return false;
            }
            let list: &str = match provider {
                LLMProvider::Ollama => "/models",
                _ => "/data",
            };
            let member: &str = match provider {
                LLMProvider::Ollama => "/name",
                _ => "/id",
            };
            let count: usize = match read_json(body.as_str(), list) {
                JsonLeaf::List(n) => n,
                _ => 0,
            };
            let mut i: usize = 0;
            while i < count
                invariant
                    i <= count,
                    count == item_count(provider, body@),
                    list@ == crate::services::llm_manager::list_pointer(provider),
                    member@ == crate::services::llm_manager::name_member(provider),
                    *outcome == (HttpOutcome::Answered { success: *success, body: *body }),
                    *success,
                    forall|k: nat|
                        k < i ==> #[trigger] item_name(provider, body@, k) != Some(model_name@),
                decreases count - i,
            {
                let mut pointer = list.to_owned();
                pointer.append("/");
                pointer.append(decimal(i as u64).as_str());
                pointer.append(member);
                proof {
                    reveal_strlit("/");
                    assert("/"@ =~= seq!['/']);
                }
                match read_json(body.as_str(), pointer.as_str()) {
                    JsonLeaf::Text(id) => {
                        if same_text(id.as_str(), model_name) {
                            assert(item_name(provider, body@, i as nat) == Some(model_name@));
                            return true;
                        }
                    },
                    _ => {},
                }
                i = i + 1;
            }
            false
        },
        _ => false,
    }
}

} // verus!
