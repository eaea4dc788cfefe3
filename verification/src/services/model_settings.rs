//! The user's choice of language models: a default, a model per use, and
//! preferences per model.
//!
//! The two tables are lists of entries, read by key: the first entry with a
//! key is the one that counts, and writing a key replaces that entry.

use crate::errors::{AppError, AppResult};
use crate::models::LLMConfig;
use crate::text::{chars_of, contains_chars, contains_seq, decimal, decimal_seq, same_text};
use vstd::prelude::*;
use vstd::string::StringExecFns;

verus! {

/// What the user prefers of one model.
#[derive(Debug, Clone, PartialEq, Eq)]
pub struct ModelPreference {
    pub model_id: String,
    pub custom_config: Option<LLMConfig>,
    pub enabled: bool,
    /// From 1 to 10; higher is better.
    pub priority: u8,
    pub notes: Option<String>,
}

/// What matters most to the user when a model is chosen.
#[derive(Debug, Clone, Copy, PartialEq, Eq, Structural)]
pub enum PerformancePriority {
    Speed,
    Quality,
    Balance,
    Memory,
}

/// The model that is used for one use.
#[derive(Debug, Clone, PartialEq, Eq)]
pub struct UseCaseDefault {
    pub use_case: String,
    pub model_id: String,
}

/// The preference that is kept under one key.
#[derive(Debug, Clone, PartialEq, Eq)]
pub struct PreferenceEntry {
    pub key: String,
    pub preference: ModelPreference,
}

/// The user's choice of models.
#[derive(Debug, Clone, PartialEq, Eq)]
pub struct ModelSettings {
    pub default_model: Option<String>,
    pub model_preferences: Vec<PreferenceEntry>,
    pub use_case_defaults: Vec<UseCaseDefault>,
    pub auto_switch_enabled: bool,
    pub performance_priority: PerformancePriority,
}

/// The position of the first entry for `use_case`.
pub open spec fn use_case_position(entries: Seq<UseCaseDefault>, use_case: Seq<char>) -> Option<int>
    decreases entries.len(),
{
    if entries.len() == 0 {
        None
    } else if entries[0].use_case@ == use_case {
        Some(0int)
    } else {
        match use_case_position(entries.subrange(1, entries.len() as int), use_case) {
            Some(i) => Some(i + 1),
            None => None,
        }
    }
}

/// The position of the first entry under `key`.
pub open spec fn preference_position(entries: Seq<PreferenceEntry>, key: Seq<char>) -> Option<int>
    decreases entries.len(),
{
    if entries.len() == 0 {
        None
    } else if entries[0].key@ == key {
        Some(0int)
    } else {
        match preference_position(entries.subrange(1, entries.len() as int), key) {
            Some(i) => Some(i + 1),
            None => None,
        }
    }
}

/// A position that `use_case_position` gives is that of the first entry for
/// the use; it gives none exactly when there is no entry for the use.
pub proof fn lemma_use_case_position(entries: Seq<UseCaseDefault>, use_case: Seq<char>)
    ensures
        match use_case_position(entries, use_case) {
            Some(i) => 0 <= i < entries.len() && entries[i].use_case@ == use_case && forall|j: int|
                0 <= j < i ==> (#[trigger] entries[j]).use_case@ != use_case,
            None => forall|j: int|
                0 <= j < entries.len() ==> (#[trigger] entries[j]).use_case@ != use_case,
        },
    decreases entries.len(),
{
    if entries.len() > 0 && entries[0].use_case@ != use_case {
        let rest = entries.subrange(1, entries.len() as int);
        lemma_use_case_position(rest, use_case);
        match use_case_position(rest, use_case) {
            Some(i) => {
                assert(rest[i] == entries[i + 1]);
                assert forall|j: int| 0 <= j < i + 1 implies (#[trigger] entries[j]).use_case@
                    != use_case by {
                    if j > 0 {
                        assert(rest[j - 1] == entries[j]);
                    }
                }
            },
            None => {
                assert forall|j: int| 0 <= j < entries.len() implies (#[trigger] entries[j]).use_case@
                    != use_case by {
                    if j > 0 {
                        assert(rest[j - 1] == entries[j]);
                    }
                }
            },
        }
    }
}

/// A position that `preference_position` gives is that of the first entry
/// under the key; it gives none exactly when there is no entry under it.
pub proof fn lemma_preference_position(entries: Seq<PreferenceEntry>, key: Seq<char>)
    ensures
        match preference_position(entries, key) {
            Some(i) => 0 <= i < entries.len() && entries[i].key@ == key && forall|j: int|
                0 <= j < i ==> (#[trigger] entries[j]).key@ != key,
            None => forall|j: int| 0 <= j < entries.len() ==> (#[trigger] entries[j]).key@ != key,
        },
    decreases entries.len(),
{
    if entries.len() > 0 && entries[0].key@ != key {
        let rest = entries.subrange(1, entries.len() as int);
        lemma_preference_position(rest, key);
        match preference_position(rest, key) {
            Some(i) => {
                assert(rest[i] == entries[i + 1]);
                assert forall|j: int| 0 <= j < i + 1 implies (#[trigger] entries[j]).key@
                    != key by {
                    if j > 0 {
                        assert(rest[j - 1] == entries[j]);
                    }
                }
            },
            None => {
                assert forall|j: int| 0 <= j < entries.len() implies (#[trigger] entries[j]).key@
                    != key by {
                    if j > 0 {
                        assert(rest[j - 1] == entries[j]);
                    }
                }
            },
        }
    }
}

/// A search that found the first entry for the use at `i`, or none, agrees
/// with `use_case_position`.
pub proof fn lemma_use_case_found(entries: Seq<UseCaseDefault>, use_case: Seq<char>, found: Option<int>)
    requires
        match found {
            Some(i) => 0 <= i < entries.len() && entries[i].use_case@ == use_case && forall|j: int|
                0 <= j < i ==> (#[trigger] entries[j]).use_case@ != use_case,
            None => forall|j: int|
                0 <= j < entries.len() ==> (#[trigger] entries[j]).use_case@ != use_case,
        },
    ensures
        use_case_position(entries, use_case) == found,
{
    lemma_use_case_position(entries, use_case);
    match (use_case_position(entries, use_case), found) {
        (Some(a), Some(b)) => {
            if a < b {
                assert(entries[a].use_case@ != use_case);
            } else if b < a {
                assert(entries[b].use_case@ != use_case);
            }
        },
        (Some(a), None) => {
            assert(entries[a].use_case@ != use_case);
        },
        (None, Some(b)) => {
            assert(entries[b].use_case@ != use_case);
        },
        (None, None) => {},
    }
}

/// A search that found the first entry under the key at `i`, or none, agrees
/// with `preference_position`.
pub proof fn lemma_preference_found(entries: Seq<PreferenceEntry>, key: Seq<char>, found: Option<int>)
    requires
        match found {
            Some(i) => 0 <= i < entries.len() && entries[i].key@ == key && forall|j: int|
                0 <= j < i ==> (#[trigger] entries[j]).key@ != key,
            None => forall|j: int| 0 <= j < entries.len() ==> (#[trigger] entries[j]).key@ != key,
        },
    ensures
        preference_position(entries, key) == found,
{
    lemma_preference_position(entries, key);
    match (preference_position(entries, key), found) {
        (Some(a), Some(b)) => {
            if a < b {
                assert(entries[a].key@ != key);
            } else if b < a {
                assert(entries[b].key@ != key);
            }
        },
        (Some(a), None) => {
            assert(entries[a].key@ != key);
        },
        (None, Some(b)) => {
            assert(entries[b].key@ != key);
        },
        (None, None) => {},
    }
}

/// The two models that are tried for a priority, in order.
pub open spec fn candidates_for(priority: PerformancePriority) -> (Seq<char>, Seq<char>) {
    match priority {
        PerformancePriority::Speed => ("ollama:llama3.2:1b"@, "ollama:llama3.2:3b"@),
        PerformancePriority::Quality => ("ollama:llama3.2:7b"@, "ollama:llama3.2:13b"@),
        PerformancePriority::Balance => ("ollama:llama3.2:3b"@, "ollama:llama3.2:7b"@),
        PerformancePriority::Memory => ("ollama:llama3.2:1b"@, "gpt4all:orca-mini"@),
    }
}

/// Whether the model `key` has a preference that is switched on.
pub open spec fn enabled_in(entries: Seq<PreferenceEntry>, key: Seq<char>) -> bool {
    preference_position(entries, key) matches Some(i) && entries[i].preference.enabled
}

/// Whether the model `key` has a preference.
pub open spec fn known_in(entries: Seq<PreferenceEntry>, key: Seq<char>) -> bool {
    preference_position(entries, key) is Some
}

/// The text of an optional string.
pub open spec fn optional_text(s: Option<String>) -> Option<Seq<char>> {
    match s {
        Some(t) => Some(t@),
        None => None,
    }
}

impl ModelSettings {
    /// The model for a use.
    ///
    /// First the model that is set for the use, unless it has a preference
    /// that is switched off. Then the first of the two candidates of the
    /// priority that has a preference that is switched on. Then the default
    /// model.
    pub open spec fn optimal_model(&self, use_case: Seq<char>) -> Option<Seq<char>> {
        let by_use = match use_case_position(self.use_case_defaults@, use_case) {
            Some(i) => {
                let model = self.use_case_defaults@[i].model_id@;
                if !known_in(self.model_preferences@, model) || enabled_in(
                    self.model_preferences@,
                    model,
                ) {
                    Some(model)
                } else {
                    None
                }
            },
            None => None,
        };
        let candidates = candidates_for(self.performance_priority);
        if by_use is Some {
            by_use
        } else if enabled_in(self.model_preferences@, candidates.0) {
            Some(candidates.0)
        } else if enabled_in(self.model_preferences@, candidates.1) {
            Some(candidates.1)
        } else {
            optional_text(self.default_model)
        }
    }

    fn find_use_case(&self, use_case: &str) -> (r: Option<usize>)
        ensures
            match r {
                Some(i) => use_case_position(self.use_case_defaults@, use_case@) == Some(i as int)
                    && i < self.use_case_defaults@.len(),
                None => use_case_position(self.use_case_defaults@, use_case@) is None,
            },
    {
        let mut i: usize = 0;
        while i < self.use_case_defaults.len()
            invariant
                i <= self.use_case_defaults.len(),
                forall|j: int|
                    0 <= j < i ==> (#[trigger] self.use_case_defaults@[j]).use_case@ != use_case@,
            decreases self.use_case_defaults.len() - i,
        {
            if same_text(self.use_case_defaults[i].use_case.as_str(), use_case) {
                proof {
                    lemma_use_case_found(self.use_case_defaults@, use_case@, Some(i as int));
                }
                return Some(i);
            }
            i = i + 1;
        }
        proof {
            lemma_use_case_found(self.use_case_defaults@, use_case@, None);
        }
        None
    }

    fn find_preference(&self, key: &str) -> (r: Option<usize>)
        ensures
            match r {
                Some(i) => preference_position(self.model_preferences@, key@) == Some(i as int)
                    && i < self.model_preferences@.len(),
                None => preference_position(self.model_preferences@, key@) is None,
            },
    {
        let mut i: usize = 0;
        while i < self.model_preferences.len()
            invariant
                i <= self.model_preferences.len(),
                forall|j: int| 0 <= j < i ==> (#[trigger] self.model_preferences@[j]).key@ != key@,
            decreases self.model_preferences.len() - i,
        {
            if same_text(self.model_preferences[i].key.as_str(), key) {
                proof {
                    lemma_preference_found(self.model_preferences@, key@, Some(i as int));
                }
                return Some(i);
            }
            i = i + 1;
        }
        proof {
            lemma_preference_found(self.model_preferences@, key@, None);
        }
        None
    }

    fn is_enabled(&self, key: &str) -> (b: bool)
        ensures
            b == enabled_in(self.model_preferences@, key@),
    {
        match self.find_preference(key) {
            Some(i) => self.model_preferences[i].preference.enabled,
            None => false,
        }
    }

    /// Sets the default model. Nothing else changes.
    pub fn set_default_model(&mut self, model_id: String)
        ensures
            *final(self) == (ModelSettings { default_model: Some(model_id), ..*old(self) }),
    {
        self.default_model = Some(model_id);
    }

    /// Sets the model for a use: the entry for the use is replaced, or a new
    /// entry comes last where there is none. Nothing else changes.
    pub fn set_use_case_default(&mut self, use_case: String, model_id: String)
        ensures
            final(self).use_case_defaults@ == (match use_case_position(
                old(self).use_case_defaults@,
                use_case@,
            ) {
                Some(i) => old(self).use_case_defaults@.update(
                    i,
                    UseCaseDefault { use_case, model_id },
                ),
                None => old(self).use_case_defaults@.push(UseCaseDefault { use_case, model_id }),
            }),
            final(self).default_model == old(self).default_model,
            final(self).model_preferences == old(self).model_preferences,
            final(self).auto_switch_enabled == old(self).auto_switch_enabled,
            final(self).performance_priority == old(self).performance_priority,
    {
        match self.find_use_case(use_case.as_str()) {
            Some(i) => {
                self.use_case_defaults.set(i, UseCaseDefault { use_case, model_id });
            },
            None => {
                self.use_case_defaults.push(UseCaseDefault { use_case, model_id });
            },
        }
    }

    /// Keeps a preference under the key `model_id`: the entry under the key
    /// is replaced, or a new entry comes last where there is none. Nothing
    /// else changes.
    pub fn set_model_preference(&mut self, model_id: String, preference: ModelPreference)
        ensures
            final(self).model_preferences@ == (match preference_position(
                old(self).model_preferences@,
                model_id@,
            ) {
                Some(i) => old(self).model_preferences@.update(
                    i,
                    PreferenceEntry { key: model_id, preference },
                ),
                None => old(self).model_preferences@.push(
                    PreferenceEntry { key: model_id, preference },
                ),
            }),
            final(self).default_model == old(self).default_model,
            final(self).use_case_defaults == old(self).use_case_defaults,
            final(self).auto_switch_enabled == old(self).auto_switch_enabled,
            final(self).performance_priority == old(self).performance_priority,
    {
        match self.find_preference(model_id.as_str()) {
            Some(i) => {
                self.model_preferences.set(i, PreferenceEntry { key: model_id, preference });
            },
            None => {
                self.model_preferences.push(PreferenceEntry { key: model_id, preference });
            },
        }
    }

    /// Drops the preference under the key `model_id`, if there is one.
    /// Nothing else changes.
    pub fn remove_model_preference(&mut self, model_id: &str)
        ensures
            final(self).model_preferences@ == (match preference_position(
                old(self).model_preferences@,
                model_id@,
            ) {
                Some(i) => old(self).model_preferences@.remove(i),
                None => old(self).model_preferences@,
            }),
            final(self).default_model == old(self).default_model,
            final(self).use_case_defaults == old(self).use_case_defaults,
            final(self).auto_switch_enabled == old(self).auto_switch_enabled,
            final(self).performance_priority == old(self).performance_priority,
    {
        match self.find_preference(model_id) {
            Some(i) => {
                let _ = self.model_preferences.remove(i);
            },
            None => {},
        }
    }

    /// The model for a use, as `optimal_model` says.
    pub fn get_optimal_model(&self, use_case: &str) -> (r: Option<String>)
        ensures
            optional_text(r) == self.optimal_model(use_case@),
    {
        match self.find_use_case(use_case) {
            Some(i) => {
                let model = &self.use_case_defaults[i].model_id;
                match self.find_preference(model.as_str()) {
                    Some(k) => {
                        if self.model_preferences[k].preference.enabled {
                            return Some(model.clone());
                        }
                    },
                    None => {
                        return Some(model.clone());
                    },
                }
            },
            None => {},
        }
        let first: &str = match self.performance_priority {
            PerformancePriority::Speed => "ollama:llama3.2:1b",
            PerformancePriority::Quality => "ollama:llama3.2:7b",
            PerformancePriority::Balance => "ollama:llama3.2:3b",
            PerformancePriority::Memory => "ollama:llama3.2:1b",
        };
        let second: &str = match self.performance_priority {
            PerformancePriority::Speed => "ollama:llama3.2:3b",
            PerformancePriority::Quality => "ollama:llama3.2:13b",
            PerformancePriority::Balance => "ollama:llama3.2:7b",
            PerformancePriority::Memory => "gpt4all:orca-mini",
        };
        if self.is_enabled(first) {
            return Some(first.to_owned());
        }
        if self.is_enabled(second) {
            return Some(second.to_owned());
        }
        match &self.default_model {
            Some(m) => Some(m.clone()),
            None => None,
        }
    }

    /// Puts the settings back to what they are at first.
    pub fn reset_to_defaults(&mut self)
        ensures
            is_initial(*final(self)),
    {
        *self = ModelSettings::default();
    }
}

/// The entries that are switched on, in order.
pub open spec fn enabled_entries(entries: Seq<PreferenceEntry>) -> Seq<PreferenceEntry> {
    entries.filter(|e: PreferenceEntry| e.preference.enabled)
}

/// `ranked` with `entry` set in by priority: after every entry of the same
/// or a higher priority, before the first of a lower one.
pub open spec fn ranked_with(ranked: Seq<PreferenceEntry>, entry: PreferenceEntry) -> Seq<
    PreferenceEntry,
>
    decreases ranked.len(),
{
    if ranked.len() == 0 {
        seq![entry]
    } else if ranked.last().preference.priority >= entry.preference.priority {
        ranked.push(entry)
    } else {
        ranked_with(ranked.drop_last(), entry).push(ranked.last())
    }
}

/// The entries in order of priority, highest first; entries of the same
/// priority keep their order.
pub open spec fn ranked(entries: Seq<PreferenceEntry>) -> Seq<PreferenceEntry>
    decreases entries.len(),
{
    if entries.len() == 0 {
        Seq::empty()
    } else {
        ranked_with(ranked(entries.drop_last()), entries.last())
    }
}

/// The priorities never rise along the list.
pub open spec fn falls_in_priority(list: Seq<PreferenceEntry>) -> bool {
    forall|i: int, j: int|
        0 <= i < j < list.len() ==> (#[trigger] list[i]).preference.priority >= (
        #[trigger] list[j]).preference.priority
}

/// Setting an entry into a list that falls in priority gives a list that
/// falls in priority and holds the same entries with the new one.
pub proof fn lemma_ranked_with(list: Seq<PreferenceEntry>, entry: PreferenceEntry)
    requires
        falls_in_priority(list),
    ensures
        falls_in_priority(ranked_with(list, entry)),
        ranked_with(list, entry).to_multiset() == list.to_multiset().insert(entry),
        ranked_with(list, entry).len() == list.len() + 1,
    decreases list.len(),
{
    broadcast use vstd::seq_lib::group_to_multiset_ensures;

    if list.len() == 0 {
        assert(seq![entry] == Seq::<PreferenceEntry>::empty().push(entry));
    } else if list.last().preference.priority >= entry.preference.priority {
    } else {
        let head = list.drop_last();
        assert forall|i: int, j: int| 0 <= i < j < head.len() implies (
        #[trigger] head[i]).preference.priority >= (#[trigger] head[j]).preference.priority by {
            assert(head[i] == list[i] && head[j] == list[j]);
        }
        lemma_ranked_with(head, entry);
        let inner = ranked_with(head, entry);
        let out = inner.push(list.last());
        assert(list == head.push(list.last()));
        assert forall|i: int, j: int| 0 <= i < j < out.len() implies (
        #[trigger] out[i]).preference.priority >= (#[trigger] out[j]).preference.priority by {
            if j == out.len() - 1 {
                assert(inner.to_multiset().count(inner[i]) > 0);
                if inner[i] == entry {
                } else {
                    assert(head.to_multiset().count(inner[i]) > 0);
                    let k = choose|k: int| 0 <= k < head.len() && head[k] == inner[i];
                    assert(head[k] == list[k]);
                    assert(list[k].preference.priority >= list[list.len() - 1].preference.priority);
                }
            } else {
                assert(out[i] == inner[i] && out[j] == inner[j]);
            }
        }
    }
}

/// The ranked list falls in priority and holds the same entries as the list
/// it was made from.
pub proof fn law_ranking(entries: Seq<PreferenceEntry>)
    ensures
        falls_in_priority(ranked(entries)),
        ranked(entries).to_multiset() == entries.to_multiset(),
        ranked(entries).len() == entries.len(),
    decreases entries.len(),
{
    broadcast use vstd::seq_lib::group_to_multiset_ensures;

    if entries.len() > 0 {
        law_ranking(entries.drop_last());
        lemma_ranked_with(ranked(entries.drop_last()), entries.last());
        assert(entries == entries.drop_last().push(entries.last()));
    }
}

/// The keys of a list of entries.
pub open spec fn keys_of(entries: Seq<PreferenceEntry>) -> Seq<Seq<char>> {
    entries.map_values(|e: PreferenceEntry| e.key@)
}

/// The complaint about a default model without a colon.
pub open spec fn default_complaint(model: Seq<char>) -> Seq<char> {
    "Invalid default model format: "@ + model
}

/// The complaint about the model of a use without a colon.
pub open spec fn use_case_complaint(entry: UseCaseDefault) -> Seq<char> {
    "Invalid model format for use case '"@ + entry.use_case@ + "': "@ + entry.model_id@
}

/// The complaint about a key without a colon.
pub open spec fn key_complaint(key: Seq<char>) -> Seq<char> {
    "Invalid model ID format: "@ + key
}

/// The complaint about a priority above ten.
pub open spec fn priority_complaint(entry: PreferenceEntry) -> Seq<char> {
    "Invalid priority for model '"@ + entry.key@ + "': "@ + decimal_seq(
        entry.preference.priority as nat,
    ) + " (must be 1-10)"@
}

/// The complaints about the models for the uses: one for each whose model
/// has no colon, in order.
pub open spec fn use_case_complaints(entries: Seq<UseCaseDefault>) -> Seq<Seq<char>>
    decreases entries.len(),
{
    if entries.len() == 0 {
        Seq::empty()
    } else {
        use_case_complaints(entries.drop_last()) + (if contains_seq(
            entries.last().model_id@,
            seq![':'],
        ) {
            Seq::<Seq<char>>::empty()
        } else {
            seq![use_case_complaint(entries.last())]
        })
    }
}

/// The complaints about the preferences: for each, in order, one where its
/// key has no colon and one where its priority is above ten.
pub open spec fn preference_complaints(entries: Seq<PreferenceEntry>) -> Seq<Seq<char>>
    decreases entries.len(),
{
    if entries.len() == 0 {
        Seq::empty()
    } else {
        preference_complaints(entries.drop_last()) + (if contains_seq(
            entries.last().key@,
            seq![':'],
        ) {
            Seq::<Seq<char>>::empty()
        } else {
            seq![key_complaint(entries.last().key@)]
        }) + (if entries.last().preference.priority > 10 {
            seq![priority_complaint(entries.last())]
        } else {
            Seq::<Seq<char>>::empty()
        })
    }
}

/// Everything that is wrong with the settings: the complaint about the
/// default model, then those about the uses, then those about the
/// preferences. Sound settings have none.
pub open spec fn complaints(s: ModelSettings) -> Seq<Seq<char>> {
    (match s.default_model {
        Some(m) => if contains_seq(m@, seq![':']) {
            Seq::<Seq<char>>::empty()
        } else {
            seq![default_complaint(m@)]
        },
        None => Seq::<Seq<char>>::empty(),
    }) + use_case_complaints(s.use_case_defaults@) + preference_complaints(s.model_preferences@)
}

fn has_colon(s: &str) -> (b: bool)
    ensures
        b == contains_seq(s@, seq![':']),
{
    let v = chars_of(s);
    let mut colon: Vec<char> = Vec::new();
    colon.push(':');
    assert(colon@ == seq![':']);
    contains_chars(&v, &colon)
}

impl ModelSettings {
    /// The keys of the preferences that are switched on, in order of
    /// priority, highest first.
    pub fn get_enabled_models_by_priority(&self) -> (out: Vec<String>)
        ensures
            crate::text::texts(out@) == keys_of(ranked(enabled_entries(self.model_preferences@))),
    {
        let mut keys: Vec<String> = Vec::new();
        let mut priorities: Vec<u8> = Vec::new();
        let ghost mut list: Seq<PreferenceEntry> = Seq::empty();
        let mut i: usize = 0;
        assert(self.model_preferences@.take(0) == Seq::<PreferenceEntry>::empty());
        assert(crate::text::texts(keys@) == keys_of(list));
        assert(enabled_entries(Seq::<PreferenceEntry>::empty()) == Seq::<PreferenceEntry>::empty());
        while i < self.model_preferences.len()
            invariant
                i <= self.model_preferences.len(),
                list == ranked(enabled_entries(self.model_preferences@.take(i as int))),
                crate::text::texts(keys@) == keys_of(list),
                keys@.len() == list.len(),
                priorities@.len() == list.len(),
                forall|k: int|
                    0 <= k < list.len() ==> priorities@[k] == (#[trigger] list[k]).preference.priority,
            decreases self.model_preferences.len() - i,
        {
            let entry = &self.model_preferences[i];
            proof {
                let next = self.model_preferences@.take(i + 1);
                assert(next.drop_last() == self.model_preferences@.take(i as int));
                assert(next.last() == *entry);
                reveal(Seq::filter);
                if entry.preference.enabled {
                    let now = enabled_entries(next);
                    assert(now == enabled_entries(next.drop_last()).push(*entry));
                    assert(now.drop_last() == enabled_entries(next.drop_last()));
                    assert(now.last() == *entry);
                }
            }
            if entry.preference.enabled {
                let mut at: usize = keys.len();
                proof {
                    assert(list.take(at as int) == list);
                    assert(list.skip(at as int) == Seq::<PreferenceEntry>::empty());
                    assert(ranked_with(list, *entry) + Seq::<PreferenceEntry>::empty()
                        == ranked_with(list, *entry));
                }
                while at > 0 && priorities[at - 1] < entry.preference.priority
                    invariant
                        at <= keys@.len(),
                        keys@.len() == list.len(),
                        priorities@.len() == list.len(),
                        forall|k: int|
                            0 <= k < list.len() ==> priorities@[k] == (
                            #[trigger] list[k]).preference.priority,
                        ranked_with(list, *entry) == ranked_with(list.take(at as int), *entry)
                            + list.skip(at as int),
                    decreases at,
                {
                    proof {
                        let head = list.take(at as int);
                        assert(head.last() == list[at - 1]);
                        assert(head.drop_last() == list.take(at - 1));
                        assert(ranked_with(head.drop_last(), *entry).push(head.last())
                            + list.skip(at as int) == ranked_with(list.take(at - 1), *entry)
                            + list.skip(at - 1));
                    }
                    at = at - 1;
                }
                proof {
                    let head = list.take(at as int);
                    if at > 0 {
                        assert(head.last() == list[at - 1]);
                    }
                    assert(ranked_with(head, *entry) == head.push(*entry));
                    let merged = head.push(*entry) + list.skip(at as int);
                    assert(merged == list.take(at as int) + seq![*entry] + list.skip(at as int));
                    assert(keys_of(merged) == keys_of(list).take(at as int) + seq![entry.key@]
                        + keys_of(list).skip(at as int));
                    list = ranked_with(list, *entry);
                }
                let ghost old_keys = keys@;
                let ghost old_priorities = priorities@;
                keys.insert(at, entry.key.clone());
                priorities.insert(at, entry.preference.priority);
                proof {
                    assert(keys@ == old_keys.take(at as int) + seq![entry.key] + old_keys.skip(
                        at as int,
                    ));
                    assert(crate::text::texts(keys@) == crate::text::texts(old_keys).take(at as int)
                        + seq![entry.key@] + crate::text::texts(old_keys).skip(at as int));
                }
            }
            i = i + 1;
        }
        assert(self.model_preferences@.take(self.model_preferences.len() as int)
            == self.model_preferences@);
        keys
    }

    /// Everything that is wrong with the settings, as `complaints` says.
    pub fn validate(&self) -> (out: Vec<String>)
        ensures
            crate::text::texts(out@) == complaints(*self),
    {
        let mut out: Vec<String> = Vec::new();
        assert(crate::text::texts(out@) == Seq::<Seq<char>>::empty());
        match &self.default_model {
            Some(m) => {
                if !has_colon(m.as_str()) {
                    out.push(crate::text::join2("Invalid default model format: ", m.as_str()));
                    assert(crate::text::texts(out@) == seq![default_complaint(m@)]);
                }
            },
            None => {},
        }
        let ghost head = crate::text::texts(out@);
        let mut i: usize = 0;
        assert(self.use_case_defaults@.take(0) == Seq::<UseCaseDefault>::empty());
        assert(head + Seq::<Seq<char>>::empty() == head);
        while i < self.use_case_defaults.len()
            invariant
                i <= self.use_case_defaults.len(),
                crate::text::texts(out@) == head + use_case_complaints(
                    self.use_case_defaults@.take(i as int),
                ),
            decreases self.use_case_defaults.len() - i,
        {
            let entry = &self.use_case_defaults[i];
            proof {
                let next = self.use_case_defaults@.take(i + 1);
                assert(next.drop_last() == self.use_case_defaults@.take(i as int));
                assert(next.last() == *entry);
            }
            let ghost before = crate::text::texts(out@);
            if !has_colon(entry.model_id.as_str()) {
                let mut message = "Invalid model format for use case '".to_owned();
                message.append(entry.use_case.as_str());
                message.append("': ");
                message.append(entry.model_id.as_str());
                out.push(message);
                assert(crate::text::texts(out@) == before + seq![use_case_complaint(*entry)]);
            } else {
                assert(crate::text::texts(out@) == before + Seq::<Seq<char>>::empty());
            }
            i = i + 1;
        }
        assert(self.use_case_defaults@.take(self.use_case_defaults.len() as int)
            == self.use_case_defaults@);
        let ghost middle = crate::text::texts(out@);
        let mut k: usize = 0;
        assert(self.model_preferences@.take(0) == Seq::<PreferenceEntry>::empty());
        assert(middle + Seq::<Seq<char>>::empty() == middle);
        while k < self.model_preferences.len()
            invariant
                k <= self.model_preferences.len(),
                crate::text::texts(out@) == middle + preference_complaints(
                    self.model_preferences@.take(k as int),
                ),
            decreases self.model_preferences.len() - k,
        {
            let entry = &self.model_preferences[k];
            proof {
                let next = self.model_preferences@.take(k + 1);
                assert(next.drop_last() == self.model_preferences@.take(k as int));
                assert(next.last() == *entry);
            }
            let ghost before = crate::text::texts(out@);
            if !has_colon(entry.key.as_str()) {
                out.push(crate::text::join2("Invalid model ID format: ", entry.key.as_str()));
                assert(crate::text::texts(out@) == before + seq![key_complaint(entry.key@)]);
            } else {
                assert(crate::text::texts(out@) == before + Seq::<Seq<char>>::empty());
            }
            let ghost between = crate::text::texts(out@);
            if entry.preference.priority > 10 {
                let mut message = "Invalid priority for model '".to_owned();
                message.append(entry.key.as_str());
                message.append("': ");
                message.append(decimal(entry.preference.priority as u64).as_str());
                message.append(" (must be 1-10)");
                out.push(message);
                assert(crate::text::texts(out@) == between + seq![priority_complaint(*entry)]);
            } else {
                assert(crate::text::texts(out@) == between + Seq::<Seq<char>>::empty());
            }
            k = k + 1;
        }
        assert(self.model_preferences@.take(self.model_preferences.len() as int)
            == self.model_preferences@);
        out
    }

    /// Takes over the settings of `other`: its default model where it has
    /// one, its models for uses and its preferences, each written over the
    /// entry with the same key or added at the end, and its switch and
    /// priority.
    pub fn merge_with(&mut self, other: ModelSettings)
        ensures
            final(self).default_model == (if other.default_model is Some {
                other.default_model
            } else {
                old(self).default_model
            }),
            final(self).use_case_defaults@ == merged_use_cases(
                old(self).use_case_defaults@,
                other.use_case_defaults@,
            ),
            final(self).model_preferences@ == merged_preferences(
                old(self).model_preferences@,
                other.model_preferences@,
            ),
            final(self).auto_switch_enabled == other.auto_switch_enabled,
            final(self).performance_priority == other.performance_priority,
    {
        let ModelSettings {
            default_model,
            model_preferences,
            use_case_defaults,
            auto_switch_enabled,
            performance_priority,
        } = other;
        if default_model.is_some() {
            self.default_model = default_model;
        }
        let mut uses = use_case_defaults;
        let ghost all_uses = uses@;
        let ghost mut taken: int = 0;
        assert(all_uses.take(0) == Seq::<UseCaseDefault>::empty());
        while uses.len() > 0
            invariant
                0 <= taken <= all_uses.len(),
                uses@ == all_uses.skip(taken),
                self.use_case_defaults@ == merged_use_cases(
                    old(self).use_case_defaults@,
                    all_uses.take(taken),
                ),
                self.default_model == (if default_model is Some {
                    default_model
                } else {
                    old(self).default_model
                }),
                self.model_preferences == old(self).model_preferences,
            decreases uses.len(),
        {
            let entry = uses.remove(0);
            proof {
                let rest = all_uses.skip(taken);
                assert(rest[0] == all_uses[taken]);
                assert(rest.remove(0) == all_uses.skip(taken + 1));
                let next = all_uses.take(taken + 1);
                assert(next.drop_last() == all_uses.take(taken));
                assert(next.last() == entry);
                taken = taken + 1;
            }
            self.set_use_case_default(entry.use_case, entry.model_id);
        }
        assert(all_uses.take(all_uses.len() as int) == all_uses);
        let mut preferences = model_preferences;
        let ghost all_preferences = preferences@;
        let ghost mut used: int = 0;
        assert(all_preferences.take(0) == Seq::<PreferenceEntry>::empty());
        while preferences.len() > 0
            invariant
                0 <= used <= all_preferences.len(),
                preferences@ == all_preferences.skip(used),
                self.model_preferences@ == merged_preferences(
                    old(self).model_preferences@,
                    all_preferences.take(used),
                ),
                self.default_model == (if default_model is Some {
                    default_model
                } else {
                    old(self).default_model
                }),
                self.use_case_defaults@ == merged_use_cases(
                    old(self).use_case_defaults@,
                    all_uses,
                ),
            decreases preferences.len(),
        {
            let entry = preferences.remove(0);
            proof {
                let rest = all_preferences.skip(used);
                assert(rest[0] == all_preferences[used]);
                assert(rest.remove(0) == all_preferences.skip(used + 1));
                let next = all_preferences.take(used + 1);
                assert(next.drop_last() == all_preferences.take(used));
                assert(next.last() == entry);
                used = used + 1;
            }
            self.set_model_preference(entry.key, entry.preference);
        }
        assert(all_preferences.take(all_preferences.len() as int) == all_preferences);
        self.auto_switch_enabled = auto_switch_enabled;
        self.performance_priority = performance_priority;
    }
}

/// `entries` with `entry` written by its use: over the first entry for the
/// use, or at the end.
pub open spec fn with_use_case(entries: Seq<UseCaseDefault>, entry: UseCaseDefault) -> Seq<
    UseCaseDefault,
> {
    match use_case_position(entries, entry.use_case@) {
        Some(i) => entries.update(i, entry),
        None => entries.push(entry),
    }
}

/// `entries` with `entry` written by its key: over the first entry under the
/// key, or at the end.
pub open spec fn with_preference(entries: Seq<PreferenceEntry>, entry: PreferenceEntry) -> Seq<
    PreferenceEntry,
> {
    match preference_position(entries, entry.key@) {
        Some(i) => entries.update(i, entry),
        None => entries.push(entry),
    }
}

/// `entries` with each of `others` written by its use, in order.
pub open spec fn merged_use_cases(
    entries: Seq<UseCaseDefault>,
    others: Seq<UseCaseDefault>,
) -> Seq<UseCaseDefault>
    decreases others.len(),
{
    if others.len() == 0 {
        entries
    } else {
        with_use_case(merged_use_cases(entries, others.drop_last()), others.last())
    }
}

/// `entries` with each of `others` written by its key, in order.
pub open spec fn merged_preferences(
    entries: Seq<PreferenceEntry>,
    others: Seq<PreferenceEntry>,
) -> Seq<PreferenceEntry>
    decreases others.len(),
{
    if others.len() == 0 {
        entries
    } else {
        with_preference(merged_preferences(entries, others.drop_last()), others.last())
    }
}

/// The settings at first: a small model as default and for summaries and
/// Japanese, the smallest for speed, a larger one for quality; no
/// preferences, no switching, and balance as priority.
pub open spec fn is_initial(s: ModelSettings) -> bool {
    &&& optional_text(s.default_model) == Some("ollama:llama3.2:3b"@)
    &&& s.model_preferences@.len() == 0
    &&& s.use_case_defaults@.len() == 4
    &&& s.use_case_defaults@[0].use_case@ == "summarization"@
    &&& s.use_case_defaults@[0].model_id@ == "ollama:llama3.2:3b"@
    &&& s.use_case_defaults@[1].use_case@ == "japanese"@
    &&& s.use_case_defaults@[1].model_id@ == "ollama:llama3.2:3b"@
    &&& s.use_case_defaults@[2].use_case@ == "speed"@
    &&& s.use_case_defaults@[2].model_id@ == "ollama:llama3.2:1b"@
    &&& s.use_case_defaults@[3].use_case@ == "quality"@
    &&& s.use_case_defaults@[3].model_id@ == "ollama:llama3.2:7b"@
    &&& !s.auto_switch_enabled
    &&& s.performance_priority == PerformancePriority::Balance
}

impl Default for ModelSettings {
    fn default() -> (s: Self)
        ensures
            is_initial(s),
    {
        let mut use_case_defaults: Vec<UseCaseDefault> = Vec::new();
        use_case_defaults.push(
            UseCaseDefault {
                use_case: "summarization".to_owned(),
                model_id: "ollama:llama3.2:3b".to_owned(),
            },
        );
        use_case_defaults.push(
            UseCaseDefault {
                use_case: "japanese".to_owned(),
                model_id: "ollama:llama3.2:3b".to_owned(),
            },
        );
        use_case_defaults.push(
            UseCaseDefault { use_case: "speed".to_owned(), model_id: "ollama:llama3.2:1b".to_owned() },
        );
        use_case_defaults.push(
            UseCaseDefault {
                use_case: "quality".to_owned(),
                model_id: "ollama:llama3.2:7b".to_owned(),
            },
        );
        ModelSettings {
            default_model: Some("ollama:llama3.2:3b".to_owned()),
            model_preferences: Vec::new(),
            use_case_defaults,
            auto_switch_enabled: false,
            performance_priority: PerformancePriority::Balance,
        }
    }
}

/// The settings with the file that they are kept in.
#[derive(Debug, Clone, PartialEq, Eq)]
pub struct ModelSettingsManager {
    settings: ModelSettings,
    settings_path: String,
}

impl ModelSettingsManager {
    /// The settings that are held.
    pub closed spec fn settings(&self) -> ModelSettings {
        self.settings
    }

    /// The file that the settings are kept in.
    pub closed spec fn path(&self) -> Seq<char> {
        self.settings_path@
    }

    /// A manager with the settings as they are at first.
    pub fn new(settings_path: String) -> (m: Self)
        ensures
            is_initial(m.settings()),
            m.path() == settings_path@,
    {
        ModelSettingsManager { settings: ModelSettings::default(), settings_path }
    }

    /// The settings that are held.
    pub fn get_settings(&self) -> (s: &ModelSettings)
        ensures
            *s == self.settings(),
    {
        &self.settings
    }

    /// The file that the settings are kept in.
    pub fn get_settings_path(&self) -> (p: &String)
        ensures
            p@ == self.path(),
    {
        &self.settings_path
    }

    /// Puts other settings in the place of those that are held.
    pub fn replace_settings(&mut self, settings: ModelSettings)
        ensures
            final(self).settings() == settings,
            final(self).path() == old(self).path(),
    {
        self.settings = settings;
    }

    /// The model for a use, by the settings that are held.
    pub fn get_optimal_model(&self, use_case: &str) -> (r: Option<String>)
        ensures
            optional_text(r) == self.settings().optimal_model(use_case@),
    {
        self.settings.get_optimal_model(use_case)
    }

    /// Takes new settings where they differ from those that are held;
    /// `differs` says whether their written forms differ. The result says
    /// whether the settings were taken and have to be saved.
    pub fn auto_save_if_changed(&mut self, new_settings: ModelSettings, differs: bool) -> (r:
        AppResult<bool>)
        ensures
            r == Ok::<bool, AppError>(differs),
            final(self).settings() == (if differs {
                new_settings
            } else {
                old(self).settings()
            }),
            final(self).path() == old(self).path(),
    {
        if differs {
            self.settings = new_settings;
        }
        Ok(differs)
    }
}

} // verus!
