//! The commands on the catalog of models.

use crate::errors::AppResult;
use crate::services::llm_manager::{colon_parts, split_at_colons};
use crate::services::model_downloader::{
    fits, DownloadProgress, DownloadableModel, ModelDownloader, SystemCompatibility,
};
use crate::text::{join2, same_text, texts};
use vstd::prelude::*;

verus! {

/// The number of popular models that is shown where none is asked for.
pub const DEFAULT_POPULAR: u32 = 10;

/// The categories of models.
pub open spec fn categories() -> Seq<Seq<char>> {
    seq!["lightweight"@, "balanced"@, "high-quality"@, "code"@, "multilingual"@]
}

/// The tags of models.
pub open spec fn tags() -> Seq<Seq<char>> {
    seq![
        "汎用"@,
        "軽量"@,
        "高速"@,
        "バランス"@,
        "推奨"@,
        "高品質"@,
        "多言語"@,
        "効率的"@,
        "コード生成"@,
        "プログラミング"@,
    ]
}

/// The models that suit a machine with so much memory, in mebibytes.
pub open spec fn recommended_for_memory(available_memory: u64) -> Seq<Seq<char>> {
    if available_memory >= 32768 {
        seq!["ollama:llama3.2:7b"@, "ollama:mistral:7b"@, "ollama:codellama:7b"@]
    } else if available_memory >= 16384 {
        seq!["ollama:llama3.2:3b"@, "ollama:llama3.2:7b"@, "ollama:mistral:7b"@]
    } else if available_memory >= 8192 {
        seq!["ollama:llama3.2:1b"@, "ollama:llama3.2:3b"@]
    } else {
        seq!["ollama:llama3.2:1b"@]
    }
}

/// The seconds that `bytes` take over a line of `kilobits_per_second`, where
/// a megabit is taken as a mebibyte of eight bits; rounded down.
pub open spec fn download_seconds(bytes: u64, kilobits_per_second: u64) -> int {
    (bytes * 8 * 1000) / (kilobits_per_second * 1048576)
}

/// The categories of models.
pub fn get_model_categories() -> (r: Result<Vec<String>, String>)
    ensures
        r matches Ok(list) && texts(list@) == categories(),
{
    let mut list: Vec<String> = Vec::new();
    list.push("lightweight".to_owned());
    list.push("balanced".to_owned());
    list.push("high-quality".to_owned());
    list.push("code".to_owned());
    list.push("multilingual".to_owned());
    assert(texts(list@) == categories());
    Ok(list)
}

/// The tags of models.
pub fn get_model_tags() -> (r: Result<Vec<String>, String>)
    ensures
        r matches Ok(list) && texts(list@) == tags(),
{
    let mut list: Vec<String> = Vec::new();
    list.push("汎用".to_owned());
    list.push("軽量".to_owned());
    list.push("高速".to_owned());
    list.push("バランス".to_owned());
    list.push("推奨".to_owned());
    list.push("高品質".to_owned());
    list.push("多言語".to_owned());
    list.push("効率的".to_owned());
    list.push("コード生成".to_owned());
    list.push("プログラミング".to_owned());
    assert(texts(list@) == tags());
    Ok(list)
}

/// The models that suit a machine with `available_memory` mebibytes.
pub fn get_recommended_models_for_system(available_memory: u64) -> (r: Result<Vec<String>, String>)
    ensures
        r matches Ok(list) && texts(list@) == recommended_for_memory(available_memory),
{
    let mut list: Vec<String> = Vec::new();
    if available_memory >= 32768 {
        list.push("ollama:llama3.2:7b".to_owned());
        list.push("ollama:mistral:7b".to_owned());
        list.push("ollama:codellama:7b".to_owned());
    } else if available_memory >= 16384 {
        list.push("ollama:llama3.2:3b".to_owned());
        list.push("ollama:llama3.2:7b".to_owned());
        list.push("ollama:mistral:7b".to_owned());
    } else if available_memory >= 8192 {
        list.push("ollama:llama3.2:1b".to_owned());
        list.push("ollama:llama3.2:3b".to_owned());
    } else {
        list.push("ollama:llama3.2:1b".to_owned());
    }
    assert(texts(list@) == recommended_for_memory(available_memory));
    Ok(list)
}

/// The most popular models: as many as are asked for, or ten.
pub fn get_popular_models(downloader: &ModelDownloader, limit: Option<u32>) -> (out: Vec<
    &DownloadableModel,
>)
    ensures
        crate::services::model_downloader::owned(out@) == downloader.catalog().take(
            {
                let wanted = match limit {
                    Some(l) => l,
                    None => DEFAULT_POPULAR,
                };
                if wanted < downloader.catalog().len() {
                    wanted as int
                } else {
                    downloader.catalog().len() as int
                }
            },
        ),
{
    let wanted: u32 = match limit {
        Some(l) => l,
        None => DEFAULT_POPULAR,
    };
    downloader.get_popular_models(wanted as usize)
}

/// The model `model_id` of the catalog.
pub fn find_model<'a>(downloader: &'a ModelDownloader, model_id: &str) -> (r: Option<
    &'a DownloadableModel,
>)
    ensures
        match r {
            Some(m) => exists|i: int|
                0 <= i < downloader.catalog().len() && *m == #[trigger] downloader.catalog()[i]
                    && m.id@ == model_id@ && forall|j: int|
                    0 <= j < i ==> (#[trigger] downloader.catalog()[j]).id@ != model_id@,
            None => forall|i: int|
                0 <= i < downloader.catalog().len() ==> (#[trigger] downloader.catalog()[i]).id@
                    != model_id@,
        },
{
    let models = downloader.get_popular_models(usize::MAX);
    assert(crate::services::model_downloader::owned(models@) == downloader.catalog());
    assert(models@.len() == downloader.catalog().len());
    let mut i: usize = 0;
    while i < models.len()
        invariant
            i <= models.len(),
            models@.len() == downloader.catalog().len(),
            crate::services::model_downloader::owned(models@) == downloader.catalog(),
            forall|j: int| 0 <= j < i ==> (#[trigger] downloader.catalog()[j]).id@ != model_id@,
        decreases models.len() - i,
    {
        assert(crate::services::model_downloader::owned(models@)[i as int] == *models@[i as int]);
        if same_text(models[i].id.as_str(), model_id) {
            return Some(models[i]);
        }
        i = i + 1;
    }
    None
}

/// The command that downloads the model `model_id`; a model that is not in
/// the catalog is an error that names it.
pub fn get_download_command(downloader: &ModelDownloader, model_id: &str) -> (r: Result<
    String,
    String,
>)
    ensures
        match r {
            Ok(command) => exists|i: int|
                0 <= i < downloader.catalog().len() && (#[trigger] downloader.catalog()[i]).id@
                    == model_id@ && command@ == downloader.catalog()[i].download_command@
                    && forall|j: int|
                    0 <= j < i ==> (#[trigger] downloader.catalog()[j]).id@ != model_id@,
            Err(message) => message@ == "Model not found: "@ + model_id@ && forall|i: int|
                0 <= i < downloader.catalog().len() ==> (#[trigger] downloader.catalog()[i]).id@
                    != model_id@,
        },
{
    match find_model(downloader, model_id) {
        Some(m) => Ok(m.download_command.clone()),
        None => Err(join2("Model not found: ", model_id)),
    }
}

/// Model `i` of the catalog is the first with the identifier `model_id`.
pub open spec fn is_model_at(catalog: Seq<DownloadableModel>, i: int, model_id: Seq<char>) -> bool {
    &&& 0 <= i < catalog.len()
    &&& catalog[i].id@ == model_id
    &&& forall|j: int| 0 <= j < i ==> (#[trigger] catalog[j]).id@ != model_id
}

/// The seconds that the download of the model `model_id` is estimated to
/// take over a line of `kilobits_per_second`. A model that is not in the
/// catalog, a model of unknown size, and a line of no speed is an error.
pub fn estimate_download_time(
    downloader: &ModelDownloader,
    model_id: &str,
    kilobits_per_second: u64,
) -> (r: Result<u64, String>)
    ensures
        r is Ok <==> kilobits_per_second > 0 && exists|i: int|
            is_model_at(downloader.catalog(), i, model_id@) && (
            #[trigger] downloader.catalog()[i]).file_size is Some,
        r matches Ok(seconds) ==> exists|i: int|
            is_model_at(downloader.catalog(), i, model_id@) && (
            #[trigger] downloader.catalog()[i]).file_size is Some && seconds == download_seconds(
                downloader.catalog()[i].file_size->0,
                kilobits_per_second,
            ),
{
    proof {
        assert forall|i: int, k: int|
            is_model_at(downloader.catalog(), i, model_id@) && is_model_at(
                downloader.catalog(),
                k,
                model_id@,
            ) implies i == k by {
            if i < k {
                assert(downloader.catalog()[i].id@ != model_id@);
            } else if k < i {
                assert(downloader.catalog()[k].id@ != model_id@);
            }
        }
    }
    let model = match find_model(downloader, model_id) {
        Some(m) => m,
        None => {
            return Err(join2("Model not found: ", model_id));
        },
    };
    let bytes: u64 = match model.file_size {
        Some(b) => b,
        None => {
            return Err("Model file size unknown".to_owned());
        },
    };
    if kilobits_per_second == 0 {
        return Err("Connection speed must be positive".to_owned());
    }
    let bits: u128 = (bytes as u128) * 8000;
    let per_second: u128 = (kilobits_per_second as u128) * 1048576;
    let seconds: u128 = bits / per_second;
    assert(seconds <= u64::MAX) by {
        assert(bits <= 0xFFFF_FFFF_FFFF_FFFF * 8000);
        assert(per_second >= 1048576);
        assert(bits / per_second <= bits / 1048576) by (nonlinear_arith)
            requires
                per_second >= 1048576,
                bits >= 0,
        ;
    }
    Ok(seconds as u64)
}

/// What a request to download the model `model_id` comes to: the name of
/// the Ollama model to pull. An identifier that is not a provider and a name
/// with one colon between them, and a provider other than Ollama, is an
/// error.
pub fn start_model_download(model_id: &str) -> (r: Result<String, String>)
    ensures
        r is Ok <==> colon_parts(model_id@).len() == 2 && colon_parts(model_id@)[0]
            == "ollama"@,
        r matches Ok(name) ==> name@ == colon_parts(model_id@)[1],
        r matches Err(message) ==> message@ == (if colon_parts(model_id@).len() != 2 {
            "Invalid model ID format"@
        } else {
            "Download not supported for provider: "@ + colon_parts(model_id@)[0]
        }),
{
    let parts = split_at_colons(model_id);
    assert(texts(parts@).len() == parts@.len());
    if parts.len() != 2 {
        return Err("Invalid model ID format".to_owned());
    }
    assert(texts(parts@)[0] == parts@[0]@);
    assert(texts(parts@)[1] == parts@[1]@);
    if same_text(parts[0].as_str(), "ollama") {
        Ok(parts[1].clone())
    } else {
        Err(join2("Download not supported for provider: ", parts[0].as_str()))
    }
}

/// The compatibility that stands for a model that could not be checked: it
/// fits nowhere, and the one warning says why.
pub open spec fn unchecked(c: SystemCompatibility, model_id: Seq<char>, reason: Seq<char>) -> bool {
    &&& c.model_id@ == model_id
    &&& !c.memory_compatible
    &&& !c.disk_compatible
    &&& !c.platform_compatible
    &&& c.available_memory_mb == 0
    &&& c.required_memory_mb == 0
    &&& c.available_disk_mb == 0
    &&& c.required_disk_mb == 0
    &&& texts(c.warnings@) == seq!["Requirements check failed: "@ + reason]
}

/// One model with how it fits the machine.
#[derive(Debug, Clone, PartialEq, Eq)]
pub struct CheckedModel {
    pub model_id: String,
    pub compatibility: SystemCompatibility,
}

/// Checks each of the models against the machine, in order. A model that is
/// not in the catalog is listed as fitting nowhere.
pub fn validate_model_download_requirements(
    downloader: &ModelDownloader,
    model_ids: Vec<String>,
    platform: &str,
) -> (r: Result<Vec<CheckedModel>, String>)
    ensures
        r matches Ok(results) && results@.len() == model_ids@.len() && forall|k: int|
            0 <= k < results@.len() ==> {
                let entry = #[trigger] results@[k];
                &&& entry.model_id@ == model_ids@[k]@
                &&& (exists|i: int|
                    0 <= i < downloader.catalog().len() && fits(
                        entry.compatibility,
                        #[trigger] downloader.catalog()[i],
                        model_ids@[k]@,
                        platform@,
                    )) || unchecked(
                    entry.compatibility,
                    model_ids@[k]@,
                    "Model not found: "@ + model_ids@[k]@,
                )
            },
{
    let mut results: Vec<CheckedModel> = Vec::new();
    let mut k: usize = 0;
    while k < model_ids.len()
        invariant
            k <= model_ids.len(),
            results@.len() == k,
            forall|n: int|
                0 <= n < k ==> {
                    let entry = #[trigger] results@[n];
                    &&& entry.model_id@ == model_ids@[n]@
                    &&& (exists|i: int|
                        0 <= i < downloader.catalog().len() && fits(
                            entry.compatibility,
                            #[trigger] downloader.catalog()[i],
                            model_ids@[n]@,
                            platform@,
                        )) || unchecked(
                        entry.compatibility,
                        model_ids@[n]@,
                        "Model not found: "@ + model_ids@[n]@,
                    )
                },
        decreases model_ids.len() - k,
    {
        let model_id = model_ids[k].clone();
        let compatibility = match downloader.check_system_requirements(model_id.as_str(), platform) {
            Ok(c) => c,
            Err(reason) => {
                let mut warnings: Vec<String> = Vec::new();
                warnings.push(join2("Requirements check failed: ", reason.as_str()));
                assert(texts(warnings@) == seq!["Requirements check failed: "@ + reason@]);
                SystemCompatibility {
                    model_id: model_id.clone(),
                    memory_compatible: false,
                    disk_compatible: false,
                    platform_compatible: false,
                    available_memory_mb: 0,
                    required_memory_mb: 0,
                    available_disk_mb: 0,
                    required_disk_mb: 0,
                    warnings,
                }
            },
        };
        results.push(CheckedModel { model_id, compatibility });
        k = k + 1;
    }
    Ok(results)
}

/// What became of the start of a download, for the user.
pub fn download_started(outcome: AppResult<DownloadProgress>) -> (r: Result<DownloadProgress, String>)
    ensures
        match (outcome, r) {
            (Ok(p), Ok(q)) => p == q,
            (Err(e), Err(message)) => message@ == e.spec_description(),
            _ => false,
        },
{
    match outcome {
        Ok(p) => Ok(p),
        Err(e) => Err(e.to_string()),
    }
}

} // verus!
