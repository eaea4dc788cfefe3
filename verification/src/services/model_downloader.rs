//! The catalog of language models that can be downloaded, and the checks of
//! a model against the machine.

use crate::errors::{AppError, AppResult};
use crate::text::texts;
use crate::text::{
    chars_of, contains_chars, contains_seq, decimal, decimal_seq, decimal_wide, join2, join3,
    lowercase_of, same_text, to_lowercase,
};
use vstd::prelude::*;

verus! {

/// A model that can be downloaded.
#[derive(Debug, Clone, PartialEq, Eq)]
pub struct DownloadableModel {
    pub id: String,
    pub name: String,
    pub description: String,
    pub provider: String,
    pub file_size: Option<u64>,
    pub download_command: String,
    pub requirements: ModelRequirements,
    pub tags: Vec<String>,
    /// How much the model is asked for; larger is more.
    pub popularity: u32,
}

/// What a model needs of the machine.
#[derive(Debug, Clone, PartialEq, Eq)]
pub struct ModelRequirements {
    pub min_memory_mb: u64,
    pub recommended_memory_mb: u64,
    pub disk_space_mb: u64,
    pub gpu_required: bool,
    pub supported_platforms: Vec<String>,
}

/// Where a download stands.
#[derive(Debug, Clone, Copy, PartialEq, Eq, Structural)]
pub enum DownloadStatus {
    Pending,
    Downloading,
    Installing,
    Completed,
    Failed,
    Cancelled,
}

/// The progress of a download.
#[derive(Debug, Clone, PartialEq, Eq)]
pub struct DownloadProgress {
    pub model_id: String,
    pub status: DownloadStatus,
    /// In thousandths of the whole.
    pub progress: u16,
    pub downloaded_bytes: u64,
    pub total_bytes: Option<u64>,
    /// Bytes per second.
    pub speed_bps: Option<u64>,
    pub eta_seconds: Option<u64>,
    pub error_message: Option<String>,
}

/// How a model fits the machine.
#[derive(Debug, Clone, PartialEq, Eq)]
pub struct SystemCompatibility {
    pub model_id: String,
    pub memory_compatible: bool,
    pub disk_compatible: bool,
    pub platform_compatible: bool,
    pub available_memory_mb: u64,
    pub required_memory_mb: u64,
    pub available_disk_mb: u64,
    pub required_disk_mb: u64,
    pub warnings: Vec<String>,
}

impl SystemCompatibility {
    /// The model fits in memory, on disk and on the platform.
    pub open spec fn spec_is_fully_compatible(&self) -> bool {
        self.memory_compatible && self.disk_compatible && self.platform_compatible
    }

    /// Whether the model fits in memory, on disk and on the platform.
    #[verifier::when_used_as_spec(spec_is_fully_compatible)]
    pub fn is_fully_compatible(&self) -> (b: bool)
        ensures
            b == self.spec_is_fully_compatible(),
    {
        self.memory_compatible && self.disk_compatible && self.platform_compatible
    }
}

/// The memory that the machine is taken to have, in mebibytes.
pub const AVAILABLE_MEMORY_MB: u64 = 16384;

/// The disk space that the machine is taken to have, in mebibytes.
pub const AVAILABLE_DISK_MB: u64 = 100000;

/// The identifiers of the models in the catalog, most popular first.
pub open spec fn catalog_ids() -> Seq<Seq<char>> {
    seq![
        "ollama:llama3.2:1b"@,
        "ollama:llama3.2:3b"@,
        "ollama:llama3.2:7b"@,
        "ollama:mistral:7b"@,
        "ollama:codellama:7b"@,
    ]
}

/// The popularity of the models in the catalog.
pub open spec fn catalog_popularity() -> Seq<u32> {
    seq![95u32, 90u32, 85u32, 80u32, 75u32]
}

/// The least memory that the models in the catalog need, in mebibytes.
pub open spec fn catalog_min_memory() -> Seq<u64> {
    seq![2048u64, 4096u64, 8192u64, 8192u64, 8192u64]
}

/// The memory that is recommended for the models in the catalog.
pub open spec fn catalog_recommended_memory() -> Seq<u64> {
    seq![4096u64, 6144u64, 16384u64, 16384u64, 16384u64]
}

/// The disk space that the models in the catalog need, in mebibytes.
pub open spec fn catalog_disk_space() -> Seq<u64> {
    seq![1500u64, 2500u64, 5000u64, 5200u64, 4500u64]
}

/// The sizes of the files of the models in the catalog, in bytes.
pub open spec fn catalog_file_sizes() -> Seq<u64> {
    seq![1300000000u64, 2000000000u64, 4100000000u64, 4200000000u64, 3800000000u64]
}

/// The list is the catalog: five models with the identifiers, popularity,
/// needs and sizes above, each from Ollama, for the three desktop platforms,
/// none in need of a GPU, with the command that pulls it.
pub open spec fn is_catalog(models: Seq<DownloadableModel>) -> bool {
    &&& models.len() == 5
    &&& forall|i: int|
        0 <= i < 5 ==> {
            let m = #[trigger] models[i];
            &&& m.id@ == catalog_ids()[i]
            &&& m.provider@ == "Ollama"@
            &&& m.popularity == catalog_popularity()[i]
            &&& m.file_size == Some(catalog_file_sizes()[i])
            &&& m.requirements.min_memory_mb == catalog_min_memory()[i]
            &&& m.requirements.recommended_memory_mb == catalog_recommended_memory()[i]
            &&& m.requirements.disk_space_mb == catalog_disk_space()[i]
            &&& !m.requirements.gpu_required
            &&& texts(m.requirements.supported_platforms@) == seq![
                "windows"@,
                "macos"@,
                "linux"@,
            ]
            &&& m.download_command@ == "ollama pull "@ + m.id@.subrange(7, m.id@.len() as int)
        }
}

/// The models behind a list of references.
pub open spec fn owned(refs: Seq<&DownloadableModel>) -> Seq<DownloadableModel> {
    refs.map_values(|m: &DownloadableModel| *m)
}

/// The models are in order of popularity, most popular first.
pub open spec fn by_popularity(models: Seq<DownloadableModel>) -> bool {
    forall|i: int, j: int|
        0 <= i < j < models.len() ==> (#[trigger] models[i]).popularity >= (
        #[trigger] models[j]).popularity
}

fn desktop_platforms() -> (out: Vec<String>)
    ensures
        texts(out@) == seq!["windows"@, "macos"@, "linux"@],
{
    let mut out: Vec<String> = Vec::new();
    out.push("windows".to_owned());
    out.push("macos".to_owned());
    out.push("linux".to_owned());
    assert(texts(out@) == seq!["windows"@, "macos"@, "linux"@]);
    out
}

fn tags_of(a: &str, b: &str, c: Option<&str>) -> (out: Vec<String>)
    ensures
        out@.len() == (if c is Some {
            3int
        } else {
            2int
        }),
        out@[0]@ == a@,
        out@[1]@ == b@,
        c matches Some(t) ==> out@[2]@ == t@,
{
    let mut out: Vec<String> = Vec::new();
    out.push(a.to_owned());
    out.push(b.to_owned());
    match c {
        Some(t) => {
            out.push(t.to_owned());
        },
        None => {},
    }
    out
}

fn ollama_model(
    tag: &str,
    name: &str,
    description: &str,
    file_size: u64,
    min_memory_mb: u64,
    recommended_memory_mb: u64,
    disk_space_mb: u64,
    tags: Vec<String>,
    popularity: u32,
) -> (m: DownloadableModel)
    ensures
        m.id@ == "ollama:"@ + tag@,
        m.name@ == name@,
        m.description@ == description@,
        m.provider@ == "Ollama"@,
        m.file_size == Some(file_size),
        m.download_command@ == "ollama pull "@ + tag@,
        m.requirements.min_memory_mb == min_memory_mb,
        m.requirements.recommended_memory_mb == recommended_memory_mb,
        m.requirements.disk_space_mb == disk_space_mb,
        !m.requirements.gpu_required,
        texts(m.requirements.supported_platforms@) == seq!["windows"@, "macos"@, "linux"@],
        m.tags == tags,
        m.popularity == popularity,
{
    DownloadableModel {
        id: join2("ollama:", tag),
        name: name.to_owned(),
        description: description.to_owned(),
        provider: "Ollama".to_owned(),
        file_size: Some(file_size),
        download_command: join2("ollama pull ", tag),
        requirements: ModelRequirements {
            min_memory_mb,
            recommended_memory_mb,
            disk_space_mb,
            gpu_required: false,
            supported_platforms: desktop_platforms(),
        },
        tags,
        popularity,
    }
}

/// The catalog of models.
#[derive(Debug, PartialEq, Eq)]
pub struct ModelDownloader {
    model_catalog: Vec<DownloadableModel>,
}

/// How a category reads a model: by the memory it needs at least, or by its
/// tags. A category that is not known takes every model.
pub open spec fn in_category(model: DownloadableModel, category: Seq<char>) -> bool {
    if category == "lightweight"@ {
        model.requirements.min_memory_mb <= 4096
    } else if category == "balanced"@ {
        4096 < model.requirements.min_memory_mb <= 8192
    } else if category == "high-quality"@ {
        model.requirements.min_memory_mb > 8192
    } else if category == "code"@ {
        texts(model.tags@).contains("コード生成"@)
    } else if category == "multilingual"@ {
        texts(model.tags@).contains("多言語"@)
    } else {
        true
    }
}

/// Whether a model answers a search: the query, in lower case, stands in the
/// lower-case name or description, and, where tags are asked for, the model
/// has one of them.
pub open spec fn answers_search(model: DownloadableModel, query: Seq<char>, tags: Seq<String>) -> bool {
    &&& contains_seq(lowercase_of(model.name@), lowercase_of(query)) || contains_seq(
        lowercase_of(model.description@),
        lowercase_of(query),
    )
    &&& tags.len() == 0 || exists|i: int|
        0 <= i < tags.len() && texts(model.tags@).contains((#[trigger] tags[i])@)
}

/// The warnings for a model on a machine with the given memory and disk
/// space: one where the memory is below the recommendation, one where the
/// disk has less than twice the space that the model takes, one where the
/// model wants a GPU.
pub open spec fn warnings_for(
    model: DownloadableModel,
    available_memory: u64,
    available_disk: u64,
) -> Seq<Seq<char>> {
    (if available_memory < model.requirements.recommended_memory_mb {
        seq![
            "推奨メモリ容量 "@ + decimal_seq(model.requirements.recommended_memory_mb as nat)
                + "MB に対して利用可能メモリが "@ + decimal_seq(available_memory as nat)
                + "MB です。パフォーマンスが低下する可能性があります。"@,
        ]
    } else {
        Seq::<Seq<char>>::empty()
    }) + (if available_disk < model.requirements.disk_space_mb * 2 {
        seq![
            "ディスク容量に余裕がありません。"@ + decimal_seq(
                (model.requirements.disk_space_mb * 2) as nat,
            ) + "MB 以上の空き容量を確保することを推奨します。"@,
        ]
    } else {
        Seq::<Seq<char>>::empty()
    }) + (if model.requirements.gpu_required {
        seq!["このモデルはGPUアクセラレーションを推奨します。"@]
    } else {
        Seq::<Seq<char>>::empty()
    })
}

/// Whether `needle` is one of the texts of `list`.
pub fn has_text(list: &Vec<String>, needle: &str) -> (r: bool)
    ensures
        r == texts(list@).contains(needle@),
{
    let mut i: usize = 0;
    while i < list.len()
        invariant
            i <= list.len(),
            forall|k: int| 0 <= k < i ==> texts(list@)[k] != needle@,
        decreases list.len() - i,
    {
        assert(texts(list@)[i as int] == list@[i as int]@);
        if same_text(list[i].as_str(), needle) {
            return true;
        }
        i = i + 1;
    }
    assert(texts(list@).len() == list@.len());
    false
}

/// The address from which a GPT4All model is downloaded.
pub open spec fn gpt4all_address(model_name: Seq<char>) -> Option<Seq<char>> {
    if model_name == "orca-mini-3b"@ {
        Some("https://gpt4all.io/models/orca-mini-3b-gguf2-q4_0.gguf"@)
    } else if model_name == "vicuna-7b"@ {
        Some("https://gpt4all.io/models/vicuna-7b-q4_0.gguf"@)
    } else if model_name == "falcon-7b"@ {
        Some("https://gpt4all.io/models/falcon-7b-q4_0.gguf"@)
    } else {
        None
    }
}

impl ModelDownloader {
    /// The models of the catalog, in its order.
    pub closed spec fn catalog(&self) -> Seq<DownloadableModel> {
        self.model_catalog@
    }

    /// The catalog holds the five models and is in order of popularity.
    pub open spec fn wf(&self) -> bool {
        is_catalog(self.catalog()) && by_popularity(self.catalog())
    }

    /// Every catalog is the catalog, in order of popularity.
    #[verifier::type_invariant]
    closed spec fn inv(self) -> bool {
        is_catalog(self.model_catalog@) && by_popularity(self.model_catalog@)
    }

    /// The catalog.
    pub fn new() -> (d: Self)
        ensures
            d.wf(),
    {
        ModelDownloader { model_catalog: ModelDownloader::initialize_catalog() }
    }

    fn initialize_catalog() -> (models: Vec<DownloadableModel>)
        ensures
            is_catalog(models@),
            by_popularity(models@),
    {
        let mut models: Vec<DownloadableModel> = Vec::new();
        models.push(
            ollama_model(
                "llama3.2:1b",
                "Llama 3.2 1B",
                "軽量で高速な汎用言語モデル",
                1300000000,
                2048,
                4096,
                1500,
                tags_of("汎用", "軽量", Some("高速")),
                95,
            ),
        );
        models.push(
            ollama_model(
                "llama3.2:3b",
                "Llama 3.2 3B",
                "バランスの取れた汎用言語モデル",
                2000000000,
                4096,
                6144,
                2500,
                tags_of("汎用", "バランス", Some("推奨")),
                90,
            ),
        );
        models.push(
            ollama_model(
                "llama3.2:7b",
                "Llama 3.2 7B",
                "高品質な出力を生成する汎用言語モデル",
                4100000000,
                8192,
                16384,
                5000,
                tags_of("汎用", "高品質", None),
                85,
            ),
        );
        models.push(
            ollama_model(
                "mistral:7b",
                "Mistral 7B",
                "効率的で多言語対応の言語モデル",
                4200000000,
                8192,
                16384,
                5200,
                tags_of("多言語", "効率的", None),
                80,
            ),
        );
        models.push(
            ollama_model(
                "codellama:7b",
                "Code Llama 7B",
                "コード生成に特化した言語モデル",
                3800000000,
                8192,
                16384,
                4500,
                tags_of("コード生成", "プログラミング", None),
                75,
            ),
        );
        proof {
            reveal_strlit("ollama:");
            reveal_strlit("ollama:llama3.2:1b");
            reveal_strlit("ollama:llama3.2:3b");
            reveal_strlit("ollama:llama3.2:7b");
            reveal_strlit("ollama:mistral:7b");
            reveal_strlit("ollama:codellama:7b");
            reveal_strlit("llama3.2:1b");
            reveal_strlit("llama3.2:3b");
            reveal_strlit("llama3.2:7b");
            reveal_strlit("mistral:7b");
            reveal_strlit("codellama:7b");
            assert("ollama:llama3.2:1b"@ =~= "ollama:"@ + "llama3.2:1b"@);
            assert("ollama:llama3.2:3b"@ =~= "ollama:"@ + "llama3.2:3b"@);
            assert("ollama:llama3.2:7b"@ =~= "ollama:"@ + "llama3.2:7b"@);
            assert("ollama:mistral:7b"@ =~= "ollama:"@ + "mistral:7b"@);
            assert("ollama:codellama:7b"@ =~= "ollama:"@ + "codellama:7b"@);
            assert(("ollama:"@ + "llama3.2:1b"@).subrange(7, 18) =~= "llama3.2:1b"@);
            assert(("ollama:"@ + "llama3.2:3b"@).subrange(7, 18) =~= "llama3.2:3b"@);
            assert(("ollama:"@ + "llama3.2:7b"@).subrange(7, 18) =~= "llama3.2:7b"@);
            assert(("ollama:"@ + "mistral:7b"@).subrange(7, 17) =~= "mistral:7b"@);
            assert(("ollama:"@ + "codellama:7b"@).subrange(7, 19) =~= "codellama:7b"@);
        }
        models
    }

    /// The models of the catalog, most popular first.
    pub fn get_downloadable_models(&self) -> (out: Vec<&DownloadableModel>)
        ensures
            self.wf(),
            owned(out@) == self.catalog(),
            by_popularity(owned(out@)),
    {
        self.get_popular_models(self.model_catalog.len())
    }

    /// The models of a category, in the order of the catalog.
    pub fn get_models_by_category(&self, category: &str) -> (out: Vec<&DownloadableModel>)
        ensures
            owned(out@) == self.catalog().filter(|m: DownloadableModel| in_category(m, category@)),
    {
        let mut out: Vec<&DownloadableModel> = Vec::new();
        let kind: u8 = if same_text(category, "lightweight") {
            0
        } else if same_text(category, "balanced") {
            1
        } else if same_text(category, "high-quality") {
            2
        } else if same_text(category, "code") {
            3
        } else if same_text(category, "multilingual") {
            4
        } else {
            5
        };
        let mut i: usize = 0;
        assert(self.catalog().take(0).filter(|m: DownloadableModel| in_category(m, category@))
            == Seq::<DownloadableModel>::empty());
        assert(owned(out@) == Seq::<DownloadableModel>::empty());
        while i < self.model_catalog.len()
            invariant
                i <= self.model_catalog.len(),
                kind == (if category@ == "lightweight"@ {
                    0u8
                } else if category@ == "balanced"@ {
                    1u8
                } else if category@ == "high-quality"@ {
                    2u8
                } else if category@ == "code"@ {
                    3u8
                } else if category@ == "multilingual"@ {
                    4u8
                } else {
                    5u8
                }),
                owned(out@) == self.catalog().take(i as int).filter(
                    |m: DownloadableModel| in_category(m, category@),
                ),
            decreases self.model_catalog.len() - i,
        {
            let m = &self.model_catalog[i];
            let take: bool = if kind == 0 {
                m.requirements.min_memory_mb <= 4096
            } else if kind == 1 {
                m.requirements.min_memory_mb > 4096 && m.requirements.min_memory_mb <= 8192
            } else if kind == 2 {
                m.requirements.min_memory_mb > 8192
            } else if kind == 3 {
                has_text(&m.tags, "コード生成")
            } else if kind == 4 {
                has_text(&m.tags, "多言語")
            } else {
                true
            };
            proof {
                assert(self.catalog().take(i + 1).drop_last() == self.catalog().take(i as int));
                reveal(Seq::filter);
            }
            if take {
                let ghost before = out@;
                out.push(m);
                assert(owned(out@) == owned(before).push(*m));
            }
            i = i + 1;
        }
        assert(self.catalog().take(self.model_catalog.len() as int) == self.catalog());
        out
    }

    /// The first `limit` models of the catalog, most popular first.
    pub fn get_popular_models(&self, limit: usize) -> (out: Vec<&DownloadableModel>)
        ensures
            self.wf(),
            owned(out@) == self.catalog().take(
                if limit < self.catalog().len() {
                    limit as int
                } else {
                    self.catalog().len() as int
                },
            ),
            by_popularity(owned(out@)),
    {
        proof {
            use_type_invariant(self);
        }
        let mut out: Vec<&DownloadableModel> = Vec::new();
        let mut i: usize = 0;
        assert(owned(out@) == self.catalog().take(0));
        while i < self.model_catalog.len() && i < limit
            invariant
                i <= self.model_catalog.len(),
                i <= limit,
                owned(out@) == self.catalog().take(i as int),
            decreases self.model_catalog.len() - i,
        {
            let ghost before = out@;
            out.push(&self.model_catalog[i]);
            assert(owned(out@) == owned(before).push(self.catalog()[i as int]));
            assert(self.catalog().take(i + 1) == self.catalog().take(i as int).push(
                self.catalog()[i as int],
            ));
            i = i + 1;
        }
        assert(self.catalog().take(self.catalog().len() as int) == self.catalog());
        out
    }

    /// The models that answer a search, in the order of the catalog.
    pub fn search_models(&self, query: &str, tags: &Vec<String>) -> (out: Vec<&DownloadableModel>)
        ensures
            owned(out@) == self.catalog().filter(
                |m: DownloadableModel| answers_search(m, query@, tags@),
            ),
    {
        let query_lower = to_lowercase(query);
        let q = chars_of(query_lower.as_str());
        let mut out: Vec<&DownloadableModel> = Vec::new();
        let mut i: usize = 0;
        assert(self.catalog().take(0).filter(
            |m: DownloadableModel| answers_search(m, query@, tags@),
        ) == Seq::<DownloadableModel>::empty());
        assert(owned(out@) == Seq::<DownloadableModel>::empty());
        while i < self.model_catalog.len()
            invariant
                i <= self.model_catalog.len(),
                q@ == lowercase_of(query@),
                owned(out@) == self.catalog().take(i as int).filter(
                    |m: DownloadableModel| answers_search(m, query@, tags@),
                ),
            decreases self.model_catalog.len() - i,
        {
            let m = &self.model_catalog[i];
            let name = chars_of(to_lowercase(m.name.as_str()).as_str());
            let description = chars_of(to_lowercase(m.description.as_str()).as_str());
            let text_match: bool = contains_chars(&name, &q) || contains_chars(&description, &q);
            let mut tag_match: bool = tags.len() == 0;
            let mut k: usize = 0;
            while k < tags.len()
                invariant
                    k <= tags.len(),
                    tag_match <==> tags.len() == 0 || exists|j: int|
                        0 <= j < k && texts(m.tags@).contains((#[trigger] tags@[j])@),
                decreases tags.len() - k,
            {
                if has_text(&m.tags, tags[k].as_str()) {
                    tag_match = true;
                }
                k = k + 1;
            }
            proof {
                assert(self.catalog().take(i + 1).drop_last() == self.catalog().take(i as int));
                reveal(Seq::filter);
            }
            if text_match && tag_match {
                let ghost before = out@;
                out.push(m);
                assert(owned(out@) == owned(before).push(*m));
            }
            i = i + 1;
        }
        assert(self.catalog().take(self.model_catalog.len() as int) == self.catalog());
        out
    }

    /// The address from which a GPT4All model is downloaded; a model that is
    /// not known is an error that names it.
    pub fn get_gpt4all_download_info(&self, model_name: &str) -> (r: Result<String, String>)
        ensures
            match r {
                Ok(url) => gpt4all_address(model_name@) == Some(url@),
                Err(message) => gpt4all_address(model_name@) is None && message@
                    == "Unknown GPT4All model: "@ + model_name@,
            },
    {
        if same_text(model_name, "orca-mini-3b") {
            Ok("https://gpt4all.io/models/orca-mini-3b-gguf2-q4_0.gguf".to_owned())
        } else if same_text(model_name, "vicuna-7b") {
            Ok("https://gpt4all.io/models/vicuna-7b-q4_0.gguf".to_owned())
        } else if same_text(model_name, "falcon-7b") {
            Ok("https://gpt4all.io/models/falcon-7b-q4_0.gguf".to_owned())
        } else {
            Err(join2("Unknown GPT4All model: ", model_name))
        }
    }

    /// The warnings for a model on a machine with the given memory and disk
    /// space.
    pub fn generate_compatibility_warnings(
        model: &DownloadableModel,
        available_memory: u64,
        available_disk: u64,
    ) -> (out: Vec<String>)
        ensures
            texts(out@) == warnings_for(*model, available_memory, available_disk),
    {
        let mut out: Vec<String> = Vec::new();
        assert(texts(out@) == Seq::<Seq<char>>::empty());
        if available_memory < model.requirements.recommended_memory_mb {
            let recommended = decimal(model.requirements.recommended_memory_mb);
            let available = decimal(available_memory);
            let head = join3("推奨メモリ容量 ", recommended.as_str(), "MB に対して利用可能メモリが ");
            let ghost before = out@;
            out.push(
                join3(
                    head.as_str(),
                    available.as_str(),
                    "MB です。パフォーマンスが低下する可能性があります。",
                ),
            );
            assert(texts(out@) == texts(before).push(out@.last()@));
        }
        let twice: u128 = (model.requirements.disk_space_mb as u128) * 2;
        if (available_disk as u128) < twice {
            let wanted = decimal_wide(twice);
            let ghost before = out@;
            out.push(
                join3(
                    "ディスク容量に余裕がありません。",
                    wanted.as_str(),
                    "MB 以上の空き容量を確保することを推奨します。",
                ),
            );
            assert(texts(out@) == texts(before).push(out@.last()@));
        }
        if model.requirements.gpu_required {
            let ghost before = out@;
            out.push("このモデルはGPUアクセラレーションを推奨します。".to_owned());
            assert(texts(out@) == texts(before).push(out@.last()@));
        }
        out
    }

    /// Checks the model `model_id` against a machine of the assumed memory
    /// and disk space that runs `platform`. A model that is not in the
    /// catalog is an error that names it.
    pub fn check_system_requirements(&self, model_id: &str, platform: &str) -> (r: Result<
        SystemCompatibility,
        String,
    >)
        ensures
            self.wf(),
            match r {
                Ok(c) => exists|i: int|
                    0 <= i < self.catalog().len() && fits(
                        c,
                        #[trigger] self.catalog()[i],
                        model_id@,
                        platform@,
                    ),
                Err(message) => message@ == "Model not found: "@ + model_id@ && forall|i: int|
                    0 <= i < self.catalog().len() ==> (#[trigger] self.catalog()[i]).id@
                        != model_id@,
            },
    {
        proof {
            use_type_invariant(self);
        }
        let mut i: usize = 0;
        while i < self.model_catalog.len()
            invariant
                i <= self.model_catalog.len(),
                self.wf(),
                forall|k: int| 0 <= k < i ==> (#[trigger] self.catalog()[k]).id@ != model_id@,
            decreases self.model_catalog.len() - i,
        {
            let model = &self.model_catalog[i];
            if same_text(model.id.as_str(), model_id) {
                let warnings = ModelDownloader::generate_compatibility_warnings(
                    model,
                    AVAILABLE_MEMORY_MB,
                    AVAILABLE_DISK_MB,
                );
                let c = SystemCompatibility {
                    model_id: model_id.to_owned(),
                    memory_compatible: AVAILABLE_MEMORY_MB >= model.requirements.min_memory_mb,
                    disk_compatible: AVAILABLE_DISK_MB >= model.requirements.disk_space_mb,
                    platform_compatible: has_text(&model.requirements.supported_platforms, platform),
                    available_memory_mb: AVAILABLE_MEMORY_MB,
                    required_memory_mb: model.requirements.min_memory_mb,
                    available_disk_mb: AVAILABLE_DISK_MB,
                    required_disk_mb: model.requirements.disk_space_mb,
                    warnings,
                };
                assert(fits(c, self.catalog()[i as int], model_id@, platform@));
                return Ok(c);
            }
            i = i + 1;
        }
        Err(join2("Model not found: ", model_id))
    }

    /// The progress with which the download of an Ollama model begins, given
    /// whether the Ollama service answers. Without the service nothing can
    /// be downloaded: a connectivity error.
    pub fn start_download_ollama(&self, model_name: &str, service_alive: bool) -> (r: AppResult<
        DownloadProgress,
    >)
        ensures
            r is Ok <==> service_alive,
            r matches Err(e) ==> e is ConnectivityError,
            r matches Ok(p) ==> ({
                &&& p.model_id@ == "ollama:"@ + model_name@
                &&& p.status == DownloadStatus::Downloading
                &&& p.progress == 0
                &&& p.downloaded_bytes == 0
                &&& p.speed_bps is None
                &&& p.eta_seconds is None
                &&& p.error_message is None
                &&& match p.total_bytes {
                    Some(bytes) => exists|i: int|
                        0 <= i < self.catalog().len() && (#[trigger] self.catalog()[i]).id@
                            == p.model_id@ && self.catalog()[i].file_size == Some(bytes),
                    None => forall|i: int|
                        0 <= i < self.catalog().len() && (#[trigger] self.catalog()[i]).id@
                            == p.model_id@ ==> self.catalog()[i].file_size is None,
                }
            }),
    {
        if !service_alive {
            return Err(
                AppError::ConnectivityError {
                    message: "Ollama is not running. Please start Ollama first.".to_owned(),
                },
            );
        }
        let model_id = join2("ollama:", model_name);
        let mut total_bytes: Option<u64> = None;
        let mut i: usize = 0;
        while i < self.model_catalog.len() && total_bytes.is_none()
            invariant
                i <= self.model_catalog.len(),
                match total_bytes {
                    Some(bytes) => exists|k: int|
                        0 <= k < self.catalog().len() && (#[trigger] self.catalog()[k]).id@
                            == model_id@ && self.catalog()[k].file_size == Some(bytes),
                    None => forall|k: int|
                        0 <= k < i && (#[trigger] self.catalog()[k]).id@ == model_id@
                            ==> self.catalog()[k].file_size is None,
                },
            decreases self.model_catalog.len() - i,
        {
            let m = &self.model_catalog[i];
            if same_text(m.id.as_str(), model_id.as_str()) {
                total_bytes = m.file_size;
            }
            i = i + 1;
        }
        Ok(
            DownloadProgress {
                model_id,
                status: DownloadStatus::Downloading,
                progress: 0,
                downloaded_bytes: 0,
                total_bytes,
                speed_bps: None,
                eta_seconds: None,
                error_message: None,
            },
        )
    }
}

/// The compatibility `c` is that of `model`, asked for as `model_id`, on a
/// machine of the assumed memory and disk space that runs `platform`.
pub open spec fn fits(
    c: SystemCompatibility,
    model: DownloadableModel,
    model_id: Seq<char>,
    platform: Seq<char>,
) -> bool {
    &&& model.id@ == model_id
    &&& c.model_id@ == model_id
    &&& c.memory_compatible == (AVAILABLE_MEMORY_MB >= model.requirements.min_memory_mb)
    &&& c.disk_compatible == (AVAILABLE_DISK_MB >= model.requirements.disk_space_mb)
    &&& c.platform_compatible == texts(model.requirements.supported_platforms@).contains(platform)
    &&& c.available_memory_mb == AVAILABLE_MEMORY_MB
    &&& c.required_memory_mb == model.requirements.min_memory_mb
    &&& c.available_disk_mb == AVAILABLE_DISK_MB
    &&& c.required_disk_mb == model.requirements.disk_space_mb
    &&& texts(c.warnings@) == warnings_for(model, AVAILABLE_MEMORY_MB, AVAILABLE_DISK_MB)
}

impl Default for ModelDownloader {
    fn default() -> (d: Self)
        ensures
            d.wf(),
    {
        ModelDownloader::new()
    }
}

} // verus!
