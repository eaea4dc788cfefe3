//! The commands on the user's choice of models.

use crate::services::model_settings::{
    complaints, ModelPreference, ModelSettings, PerformancePriority,
};
use crate::text::{chars_of, contains_chars, contains_seq, same_text, texts};
use vstd::prelude::*;

verus! {

/// The memory that a machine is taken to have where it is not told, in
/// mebibytes.
pub const ASSUMED_MEMORY_MB: u32 = 8192;

/// The priority that a word names.
pub open spec fn priority_named(word: Seq<char>) -> Option<PerformancePriority> {
    if word == "speed"@ {
        Some(PerformancePriority::Speed)
    } else if word == "quality"@ {
        Some(PerformancePriority::Quality)
    } else if word == "balance"@ {
        Some(PerformancePriority::Balance)
    } else if word == "memory"@ {
        Some(PerformancePriority::Memory)
    } else {
        None
    }
}

/// The priority that a word names; a word that names none is an error.
pub fn set_performance_priority(priority: &str) -> (r: Result<PerformancePriority, String>)
    ensures
        r is Ok <==> priority_named(priority@) is Some,
        r matches Ok(p) ==> priority_named(priority@) == Some(p),
        r matches Err(message) ==> message@ == "Invalid performance priority"@,
{
    if same_text(priority, "speed") {
        Ok(PerformancePriority::Speed)
    } else if same_text(priority, "quality") {
        Ok(PerformancePriority::Quality)
    } else if same_text(priority, "balance") {
        Ok(PerformancePriority::Balance)
    } else if same_text(priority, "memory") {
        Ok(PerformancePriority::Memory)
    } else {
        Err("Invalid performance priority".to_owned())
    }
}

/// The preference that a request asks for. A priority above ten is an error.
pub fn add_model_preference(model_id: String, enabled: bool, priority: u8, notes: Option<String>) -> (r:
    Result<ModelPreference, String>)
    ensures
        r is Ok <==> priority <= 10,
        r matches Ok(p) ==> p.model_id == model_id && p.custom_config is None && p.enabled
            == enabled && p.priority == priority && p.notes == notes,
        r matches Err(message) ==> message@ == "Priority must be between 1 and 10"@,
{
    if priority > 10 {
        return Err("Priority must be between 1 and 10".to_owned());
    }
    Ok(ModelPreference { model_id, custom_config: None, enabled, priority, notes })
}

/// Takes settings that were read from outside: they are refused where
/// anything is wrong with them, merged into the settings that are held where
/// `merge_with_existing` says so, and put in their place where not.
pub fn import_model_settings(
    settings: &mut ModelSettings,
    imported: ModelSettings,
    merge_with_existing: bool,
) -> (r: Result<(), String>)
    ensures
        r is Ok <==> complaints(imported).len() == 0,
        r is Err ==> *final(settings) == *old(settings),
        r is Ok && !merge_with_existing ==> *final(settings) == imported,
        r is Ok && merge_with_existing ==> ({
            &&& final(settings).default_model == (if imported.default_model is Some {
                imported.default_model
            } else {
                old(settings).default_model
            })
            &&& final(settings).use_case_defaults@
                == crate::services::model_settings::merged_use_cases(
                old(settings).use_case_defaults@,
                imported.use_case_defaults@,
            )
            &&& final(settings).model_preferences@
                == crate::services::model_settings::merged_preferences(
                old(settings).model_preferences@,
                imported.model_preferences@,
            )
            &&& final(settings).auto_switch_enabled == imported.auto_switch_enabled
            &&& final(settings).performance_priority == imported.performance_priority
        }),
{
    let errors = imported.validate();
    assert(texts(errors@).len() == errors@.len());
    if errors.len() > 0 {
        return Err("Settings validation failed".to_owned());
    }
    if merge_with_existing {
        settings.merge_with(imported);
    } else {
        *settings = imported;
    }
    Ok(())
}

/// The models for a text of `text_length` characters before the use is
/// looked at.
///
/// A short text, of less than 1000 characters, takes the two smallest
/// models first where speed counts for more than seven tenths, then the
/// small one. A text of less than 10000 characters takes the small and the
/// middle model, and the large one where speed counts for less than half
/// and the machine has 16000 MB. A longer text takes the large model first
/// where the machine has 16000 MB, then the small and the middle one.
pub open spec fn recommended_by_length(text_length: u32, memory_mb: u32, speed_priority: u16) -> Seq<
    Seq<char>,
> {
    if text_length < 1000 {
        (if speed_priority > 700 {
            seq!["ollama:llama3.2:1b"@, "gpt4all:orca-mini"@]
        } else {
            Seq::<Seq<char>>::empty()
        }) + seq!["ollama:llama3.2:3b"@]
    } else if text_length < 10000 {
        seq!["ollama:llama3.2:3b"@, "ollama:mistral:7b"@] + (if speed_priority < 500 && memory_mb
            >= 16000 {
            seq!["ollama:llama3.2:7b"@]
        } else {
            Seq::<Seq<char>>::empty()
        })
    } else {
        (if memory_mb >= 16000 {
            seq!["ollama:llama3.2:7b"@]
        } else {
            Seq::<Seq<char>>::empty()
        }) + seq!["ollama:llama3.2:3b"@, "ollama:mistral:7b"@]
    }
}

/// Whether a model knows Japanese, by its name.
pub open spec fn knows_japanese(model: Seq<char>) -> bool {
    contains_seq(model, "llama"@) || contains_seq(model, "mistral"@)
}

/// The models for a use: for Japanese only those that know it; for code the
/// code model first; else as they are.
pub open spec fn recommended_for_use(models: Seq<Seq<char>>, use_case: Seq<char>) -> Seq<Seq<char>> {
    if use_case == "japanese"@ {
        models.filter(|m: Seq<char>| knows_japanese(m))
    } else if use_case == "code"@ {
        seq!["ollama:codellama:7b"@] + models
    } else {
        models
    }
}

/// `models` without repeats that follow each other.
pub open spec fn without_repeats(models: Seq<Seq<char>>) -> Seq<Seq<char>>
    decreases models.len(),
{
    if models.len() <= 1 {
        models
    } else if models[models.len() - 2] == models.last() {
        without_repeats(models.drop_last())
    } else {
        without_repeats(models.drop_last()).push(models.last())
    }
}

/// The first five of `models`.
pub open spec fn first_five(models: Seq<Seq<char>>) -> Seq<Seq<char>> {
    if models.len() > 5 {
        models.take(5)
    } else {
        models
    }
}

/// The models that are recommended for a use and a text on a machine.
pub open spec fn performance_recommendations(
    use_case: Seq<char>,
    text_length: u32,
    memory_mb: u32,
    speed_priority: u16,
) -> Seq<Seq<char>> {
    first_five(
        without_repeats(
            recommended_for_use(
                recommended_by_length(text_length, memory_mb, speed_priority),
                use_case,
            ),
        ),
    )
}

fn knows(model: &str) -> (b: bool)
    ensures
        b == knows_japanese(model@),
{
    let m = chars_of(model);
    let llama = chars_of("llama");
    let mistral = chars_of("mistral");
    contains_chars(&m, &llama) || contains_chars(&m, &mistral)
}

fn by_length(text_length: u32, memory_mb: u32, speed_priority: u16) -> (out: Vec<String>)
    ensures
        texts(out@) == recommended_by_length(text_length, memory_mb, speed_priority),
{
    let mut out: Vec<String> = Vec::new();
    if text_length < 1000 {
        if speed_priority > 700 {
            out.push("ollama:llama3.2:1b".to_owned());
            out.push("gpt4all:orca-mini".to_owned());
        }
        out.push("ollama:llama3.2:3b".to_owned());
    } else if text_length < 10000 {
        out.push("ollama:llama3.2:3b".to_owned());
        out.push("ollama:mistral:7b".to_owned());
        if speed_priority < 500 && memory_mb >= 16000 {
            out.push("ollama:llama3.2:7b".to_owned());
        }
    } else {
        if memory_mb >= 16000 {
            out.push("ollama:llama3.2:7b".to_owned());
        }
        out.push("ollama:llama3.2:3b".to_owned());
        out.push("ollama:mistral:7b".to_owned());
    }
    assert(texts(out@) == recommended_by_length(text_length, memory_mb, speed_priority));
    out
}

fn for_use(models: Vec<String>, use_case: &str) -> (out: Vec<String>)
    ensures
        texts(out@) == recommended_for_use(texts(models@), use_case@),
{
    if same_text(use_case, "japanese") {
        let mut out: Vec<String> = Vec::new();
        let mut i: usize = 0;
        assert(texts(models@).take(0).filter(|m: Seq<char>| knows_japanese(m)) == Seq::<
            Seq<char>,
        >::empty());
        assert(texts(out@) == Seq::<Seq<char>>::empty());
        while i < models.len()
            invariant
                i <= models.len(),
                texts(out@) == texts(models@).take(i as int).filter(
                    |m: Seq<char>| knows_japanese(m),
                ),
            decreases models.len() - i,
        {
            proof {
                let next = texts(models@).take(i + 1);
                assert(next.drop_last() == texts(models@).take(i as int));
                assert(next.last() == models@[i as int]@);
                reveal(Seq::filter);
            }
            if knows(models[i].as_str()) {
                let ghost before = out@;
                out.push(models[i].clone());
                assert(texts(out@) == texts(before).push(models@[i as int]@));
            }
            i = i + 1;
        }
        assert(texts(models@).take(models.len() as int) == texts(models@));
        out
    } else if same_text(use_case, "code") {
        let mut out = models;
        out.insert(0, "ollama:codellama:7b".to_owned());
        assert(texts(out@) == seq!["ollama:codellama:7b"@] + texts(models@));
        out
    } else {
        models
    }
}

fn drop_repeats(models: Vec<String>) -> (out: Vec<String>)
    ensures
        texts(out@) == without_repeats(texts(models@)),
{
    let mut out: Vec<String> = Vec::new();
    let mut i: usize = 0;
    assert(texts(models@).take(0) == Seq::<Seq<char>>::empty());
    assert(texts(out@) == Seq::<Seq<char>>::empty());
    while i < models.len()
        invariant
            i <= models.len(),
            texts(out@) == without_repeats(texts(models@).take(i as int)),
        decreases models.len() - i,
    {
        proof {
            let next = texts(models@).take(i + 1);
            assert(next.drop_last() == texts(models@).take(i as int));
            assert(next.last() == models@[i as int]@);
            if i > 0 {
                assert(next[next.len() - 2] == models@[i - 1]@);
            }
        }
        if i == 0 || !same_text(models[i - 1].as_str(), models[i].as_str()) {
            let ghost before = out@;
            out.push(models[i].clone());
            assert(texts(out@) == texts(before).push(models@[i as int]@));
            proof {
                if i == 0 {
                    let next = texts(models@).take(1);
                    assert(next == seq![models@[0]@]);
                }
            }
        }
        i = i + 1;
    }
    assert(texts(models@).take(models.len() as int) == texts(models@));
    out
}

/// The models that are recommended for a use and a text of `text_length`
/// characters, on a machine with `available_memory_mb` of memory, or 8192 MB
/// where that is not told, where speed counts for `speed_priority`
/// thousandths.
pub fn get_performance_recommendations(
    use_case: &str,
    text_length: u32,
    available_memory_mb: Option<u32>,
    speed_priority: u16,
) -> (r: Result<Vec<String>, String>)
    ensures
        r matches Ok(models) && texts(models@) == performance_recommendations(
            use_case@,
            text_length,
            match available_memory_mb {
                Some(m) => m,
                None => ASSUMED_MEMORY_MB,
            },
            speed_priority,
        ),
{
    let memory_mb: u32 = match available_memory_mb {
        Some(m) => m,
        None => ASSUMED_MEMORY_MB,
    };
    let first = by_length(text_length, memory_mb, speed_priority);
    let second = for_use(first, use_case);
    let mut third = drop_repeats(second);
    let ghost whole = texts(third@);
    if third.len() > 5 {
        third.truncate(5);
        assert(texts(third@) == whole.take(5));
    }
    Ok(third)
}

} // verus!
