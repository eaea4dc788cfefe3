//! What the store of recordings keeps as text: the status of a
//! transcription, instants, tags, and the statement of a search.
//!
//! The store itself is the caller's; nothing here opens a database.

use crate::errors::{AppError, AppResult};
use crate::models::{RecordingQuery, SortBy, SortOrder, TranscriptionStatus};
use crate::platform::{
    json_leaf_at, json_of_strings, parse_rfc3339, read_json, rfc3339_millis, rfc3339_of,
    strings_to_json, to_rfc3339, JsonLeaf, JsonLeafView,
};
use crate::text::{
    chars_of, decimal, decimal_seq, decimal_wide, is_before, join2, join3, lemma_before_irreflexive,
    lemma_before_total, lemma_before_transitive, matches_at, same_text, signed_decimal,
    signed_decimal_seq, slice_chars, starts_with_seq, string_of, text_before, texts,
};
use vstd::prelude::*;
use vstd::string::StringExecFns;

verus! {

/// What stands before the reason in the text of a failed transcription.
pub const FAILED_PREFIX: &'static str = "failed:";

/// The statement that finds every recording.
pub const SEARCH_BASE: &'static str =
    "SELECT id, filename, file_path, title, description, category, tags, duration, file_size, sample_rate, channels, created_at, updated_at 
             FROM recordings WHERE 1=1";

/// The text that the store keeps for a status. A failed transcription keeps
/// its reason after the prefix.
pub open spec fn status_text(status: TranscriptionStatus) -> Seq<char> {
    match status {
        TranscriptionStatus::Pending => "pending"@,
        TranscriptionStatus::Processing => "processing"@,
        TranscriptionStatus::Completed => "completed"@,
        TranscriptionStatus::Failed(reason) => FAILED_PREFIX@ + reason@,
    }
}

/// A status as the laws see it: its kind, and the reason of a failure as a
/// sequence of characters.
pub enum StatusView {
    Pending,
    Processing,
    Completed,
    Failed(Seq<char>),
}

/// The view of a status.
pub open spec fn status_view(status: TranscriptionStatus) -> StatusView {
    match status {
        TranscriptionStatus::Pending => StatusView::Pending,
        TranscriptionStatus::Processing => StatusView::Processing,
        TranscriptionStatus::Completed => StatusView::Completed,
        TranscriptionStatus::Failed(reason) => StatusView::Failed(reason@),
    }
}

/// The status that a text of the store stands for. A text that begins with
/// the prefix is a failure with the rest as its reason; a text that is none
/// of the three words is a failure of unknown status.
pub open spec fn status_of(text: Seq<char>) -> StatusView {
    if starts_with_seq(text, FAILED_PREFIX@) {
        StatusView::Failed(text.subrange(FAILED_PREFIX@.len() as int, text.len() as int))
    } else if text == "pending"@ {
        StatusView::Pending
    } else if text == "processing"@ {
        StatusView::Processing
    } else if text == "completed"@ {
        StatusView::Completed
    } else {
        StatusView::Failed("Unknown status"@)
    }
}

/// The text that the store keeps for a status.
pub fn encode_status(status: &TranscriptionStatus) -> (out: String)
    ensures
        out@ == status_text(*status),
{
    match status {
        TranscriptionStatus::Pending => "pending".to_owned(),
        TranscriptionStatus::Processing => "processing".to_owned(),
        TranscriptionStatus::Completed => "completed".to_owned(),
        TranscriptionStatus::Failed(reason) => join2(FAILED_PREFIX, reason.as_str()),
    }
}

/// The status that a text of the store stands for.
pub fn decode_status(text: &str) -> (status: TranscriptionStatus)
    ensures
        status_view(status) == status_of(text@),
{
    let v = chars_of(text);
    let prefix = chars_of(FAILED_PREFIX);
    if matches_at(&v, &prefix, 0) {
        let reason = slice_chars(&v, prefix.len(), v.len());
        TranscriptionStatus::Failed(string_of(&reason))
    } else if same_text(text, "pending") {
        TranscriptionStatus::Pending
    } else if same_text(text, "processing") {
        TranscriptionStatus::Processing
    } else if same_text(text, "completed") {
        TranscriptionStatus::Completed
    } else {
        TranscriptionStatus::Failed("Unknown status".to_owned())
    }
}

/// Every status is read back from its text as it was written, the reason of
/// a failure included, whatever the reason holds.
pub proof fn law_status_round_trip(status: TranscriptionStatus)
    ensures
        status_of(status_text(status)) == status_view(status),
{
    reveal_strlit("failed:");
    reveal_strlit("pending");
    reveal_strlit("processing");
    reveal_strlit("completed");
    let text = status_text(status);
    let prefix = FAILED_PREFIX@;
    match status {
        TranscriptionStatus::Pending => {
            assert(text[0] == 'p');
            assert(!starts_with_seq(text, prefix)) by {
                if starts_with_seq(text, prefix) {
                    assert(text.subrange(0, 7)[0] == prefix[0]);
                }
            }
        },
        TranscriptionStatus::Processing => {
            assert(text[0] == 'p');
            assert(text.len() == 10);
            assert(!starts_with_seq(text, prefix)) by {
                if starts_with_seq(text, prefix) {
                    assert(text.subrange(0, 7)[0] == prefix[0]);
                }
            }
            assert(text != "pending"@);
        },
        TranscriptionStatus::Completed => {
            assert(text[0] == 'c');
            assert(text.len() == 9);
            assert(!starts_with_seq(text, prefix)) by {
                if starts_with_seq(text, prefix) {
                    assert(text.subrange(0, 7)[0] == prefix[0]);
                }
            }
            assert(text != "pending"@);
            assert(text != "processing"@);
        },
        TranscriptionStatus::Failed(reason) => {
            assert(text.subrange(0, prefix.len() as int) == prefix);
            assert(text.subrange(prefix.len() as int, text.len() as int) == reason@);
        },
    }
}

/// The text that the store keeps for an instant: its form of RFC 3339.
pub fn timestamp_to_text(millis: i64) -> (out: Option<String>)
    ensures
        out is Some <==> rfc3339_of(millis as int) is Some,
        out matches Some(s) ==> rfc3339_of(millis as int) == Some(s@),
{
    to_rfc3339(millis)
}

/// The instant that a text of the store stands for.
pub fn timestamp_from_text(text: &str) -> (out: Option<i64>)
    ensures
        out is Some <==> rfc3339_millis(text@) is Some,
        out matches Some(m) ==> rfc3339_millis(text@) == Some(m as int),
{
    parse_rfc3339(text)
}

/// The text that the store keeps for a list of tags: a JSON list.
pub fn tags_to_json(tags: &Vec<String>) -> (out: String)
    ensures
        out@ == json_of_strings(texts(tags@)),
{
    strings_to_json(tags)
}

/// The pointer to item `i` of a JSON list.
pub open spec fn item_pointer(i: nat) -> Seq<char> {
    seq!['/'] + decimal_seq(i)
}

/// The tags that a text of the store stands for: the strings of the JSON
/// list, in order; no tags where the text is no JSON list or an item is no
/// string.
pub open spec fn json_tags(text: Seq<char>) -> Seq<Seq<char>> {
    match json_leaf_at(text, Seq::empty()) {
        JsonLeafView::List(n) => if forall|i: nat|
            i < n ==> json_leaf_at(text, #[trigger] item_pointer(i)) is Text {
            Seq::new(n, |i: int| json_leaf_at(text, item_pointer(i as nat))->Text_0)
        } else {
            Seq::empty()
        },
        _ => Seq::empty(),
    }
}

/// The tags that a text of the store stands for.
pub fn tags_from_json(text: &str) -> (out: Vec<String>)
    ensures
        texts(out@) == json_tags(text@),
{
    proof {
        reveal_strlit("");
        assert(""@ =~= Seq::<char>::empty());
    }
    let n: usize = match read_json(text, "") {
        JsonLeaf::List(n) => n,
        _ => {
            let none: Vec<String> = Vec::new();
            assert(texts(none@) == Seq::<Seq<char>>::empty());
            return none;
        },
    };
    let mut out: Vec<String> = Vec::new();
    let mut i: usize = 0;
    while i < n
        invariant
            i <= n,
            json_leaf_at(text@, Seq::empty()) == JsonLeafView::List(n as nat),
            out@.len() == i,
            forall|k: nat| k < i ==> json_leaf_at(text@, #[trigger] item_pointer(k)) is Text,
            forall|k: int|
                0 <= k < i ==> (#[trigger] out@[k])@ == json_leaf_at(
                    text@,
                    item_pointer(k as nat),
                )->Text_0,
        decreases n - i,
    {
        let mut pointer = "/".to_owned();
        pointer.append(decimal(i as u64).as_str());
        proof {
            reveal_strlit("/");
            assert("/"@ =~= seq!['/']);
        }
        match read_json(text, pointer.as_str()) {
            JsonLeaf::Text(t) => {
                out.push(t);
            },
            _ => {
                let none: Vec<String> = Vec::new();
                assert(texts(none@) == Seq::<Seq<char>>::empty());
                assert(!(json_leaf_at(text@, item_pointer(i as nat)) is Text));
                return none;
            },
        }
        i = i + 1;
    }
    assert(texts(out@) =~= json_tags(text@));
    out
}

/// Each text comes before all that follow it, so none stands twice.
pub open spec fn increasing(items: Seq<Seq<char>>) -> bool {
    forall|i: int, j: int| 0 <= i < j < items.len() ==> text_before(items[i], items[j])
}

/// Some text of `rows` holds the tag.
pub open spec fn is_tag_of(rows: Seq<Seq<char>>, tag: Seq<char>) -> bool {
    exists|i: int| 0 <= i < rows.len() && json_tags(#[trigger] rows[i]).contains(tag)
}

/// Puts a tag at its place in an ordered list, unless it stands there.
fn insert_tag(tags: &mut Vec<String>, tag: String)
    requires
        increasing(texts(old(tags)@)),
    ensures
        increasing(texts(final(tags)@)),
        forall|t: Seq<char>| #[trigger]
            texts(final(tags)@).contains(t) <==> (texts(old(tags)@).contains(t) || t == tag@),
{
    let ghost before = texts(tags@);
    let mut i: usize = 0;
    while i < tags.len() && is_before(tags[i].as_str(), tag.as_str())
        invariant
            *tags == *old(tags),
            before == texts(tags@),
            i <= tags.len(),
            forall|k: int| 0 <= k < i ==> text_before(#[trigger] before[k], tag@),
        decreases tags.len() - i,
    {
        i = i + 1;
    }
    if i < tags.len() && same_text(tags[i].as_str(), tag.as_str()) {
        assert(before[i as int] == tag@);
        return;
    }
    proof {
        if i < before.len() {
            lemma_before_total(before[i as int], tag@);
        }
        assert forall|k: int| i <= k < before.len() implies text_before(tag@, #[trigger] before[k]) by {
            if k > i {
                lemma_before_transitive(tag@, before[i as int], before[k]);
            }
        }
        assert forall|k: int| 0 <= k < before.len() implies #[trigger] before[k] != tag@ by {
            lemma_before_irreflexive(tag@);
        }
    }
    let ghost added = tag@;
    tags.insert(i, tag);
    proof {
        let after = texts(tags@);
        assert(after =~= before.insert(i as int, added));
        assert forall|t: Seq<char>| after.contains(t) <==> (before.contains(t) || t == added) by {
            if after.contains(t) {
                let k = choose|k: int| 0 <= k < after.len() && after[k] == t;
                if k < i {
                    assert(before[k] == t);
                } else if k > i {
                    assert(before[k - 1] == t);
                }
            }
            if before.contains(t) {
                let k = choose|k: int| 0 <= k < before.len() && before[k] == t;
                if k < i {
                    assert(after[k] == t);
                } else {
                    assert(after[k + 1] == t);
                }
            }
            if t == added {
                assert(after[i as int] == t);
            }
        }
    }
}

/// Every tag that the texts of `rows` hold, once each and in order. A text
/// that is no JSON list of strings holds none.
pub fn all_tags(rows: &Vec<String>) -> (out: Vec<String>)
    ensures
        increasing(texts(out@)),
        forall|t: Seq<char>| texts(out@).contains(t) <==> is_tag_of(texts(rows@), t),
{
    let mut out: Vec<String> = Vec::new();
    let mut i: usize = 0;
    while i < rows.len()
        invariant
            i <= rows.len(),
            increasing(texts(out@)),
            forall|t: Seq<char>| #[trigger]
                texts(out@).contains(t) <==> is_tag_of(texts(rows@).take(i as int), t),
        decreases rows.len() - i,
    {
        let found = tags_from_json(rows[i].as_str());
        let ghost start = texts(out@);
        let ghost row = texts(rows@)[i as int];
        let mut j: usize = 0;
        while j < found.len()
            invariant
                j <= found.len(),
                i < rows.len(),
                row == texts(rows@)[i as int],
                increasing(texts(out@)),
                texts(found@) == json_tags(row),
                forall|t: Seq<char>| #[trigger]
                    start.contains(t) <==> is_tag_of(texts(rows@).take(i as int), t),
                forall|t: Seq<char>| #[trigger]
                    texts(out@).contains(t) <==> (start.contains(t) || json_tags(row).take(
                        j as int,
                    ).contains(t)),
            decreases found.len() - j,
        {
            let ghost held = texts(out@);
            let tag = found[j].clone();
            insert_tag(&mut out, tag);
            proof {
                let tags = json_tags(row);
                let seen = tags.take(j as int);
                let next = tags.take(j + 1);
                assert(texts(found@)[j as int] == found@[j as int]@);
                assert forall|t: Seq<char>|
                    texts(out@).contains(t) <==> (start.contains(t) || next.contains(t)) by {
                    assert(texts(out@).contains(t) <==> (held.contains(t) || t == tags[j as int]));
                    assert(held.contains(t) <==> (start.contains(t) || seen.contains(t)));
                    if next.contains(t) {
                        let k = choose|k: int| 0 <= k < next.len() && next[k] == t;
                        if k < j {
                            assert(seen[k] == t);
                        }
                    }
                    if seen.contains(t) {
                        let k = choose|k: int| 0 <= k < seen.len() && seen[k] == t;
                        assert(next[k] == t);
                    }
                    if t == tags[j as int] {
                        assert(next[j as int] == t);
                    }
                }
            }
            j = j + 1;
        }
        proof {
            let all = texts(rows@);
            assert(json_tags(row).take(found.len() as int) =~= json_tags(row));
            let seen = all.take(i as int);
            let next = all.take(i + 1);
            assert forall|t: Seq<char>| texts(out@).contains(t) <==> is_tag_of(next, t) by {
                assert(texts(out@).contains(t) <==> (start.contains(t) || json_tags(row).contains(
                    t,
                )));
                assert(start.contains(t) <==> is_tag_of(seen, t));
                if is_tag_of(next, t) {
                    let k = choose|k: int|
                        0 <= k < next.len() && json_tags(#[trigger] next[k]).contains(t);
                    if k < i {
                        assert(json_tags(seen[k]).contains(t));
                    }
                }
                if is_tag_of(seen, t) {
                    let k = choose|k: int|
                        0 <= k < seen.len() && json_tags(#[trigger] seen[k]).contains(t);
                    assert(json_tags(next[k]).contains(t));
                }
                if json_tags(row).contains(t) {
                    assert(json_tags(next[i as int]).contains(t));
                }
            }
        }
        i = i + 1;
    }
    assert(texts(rows@).take(rows.len() as int) =~= texts(rows@));
    out
}

/// A value that takes the place of a mark in a statement.
#[derive(Debug, Clone, PartialEq, Eq)]
pub enum SqlParam {
    Text(String),
    Integer(i64),
}

/// A `SqlParam` with its text as a sequence of characters.
pub enum ParamView {
    Text(Seq<char>),
    Integer(i64),
}

impl View for SqlParam {
    type V = ParamView;

    open spec fn view(&self) -> ParamView {
        match self {
            SqlParam::Text(t) => ParamView::Text(t@),
            SqlParam::Integer(n) => ParamView::Integer(*n),
        }
    }
}

/// A statement with marks and the values for them, in the order of the
/// marks.
#[derive(Debug, Clone, PartialEq, Eq)]
pub struct SearchStatement {
    pub sql: String,
    pub params: Vec<SqlParam>,
}

/// A statement as the contracts see it.
pub struct StatementView {
    pub sql: Seq<char>,
    pub params: Seq<ParamView>,
}

impl View for SearchStatement {
    type V = StatementView;

    open spec fn view(&self) -> StatementView {
        StatementView { sql: self.sql@, params: self.params@.map_values(|p: SqlParam| p@) }
    }
}

/// The mark for the next value of a statement: a question mark and the
/// number of the value, counted from one.
pub open spec fn next_mark(s: StatementView) -> Seq<char> {
    seq!['?'] + decimal_seq(s.params.len() + 1)
}

/// The statement with one condition more: `before`, the mark, `after`, and
/// the value.
pub open spec fn with_condition(
    s: StatementView,
    before: Seq<char>,
    after: Seq<char>,
    value: ParamView,
) -> StatementView {
    StatementView { sql: s.sql + before + next_mark(s) + after, params: s.params.push(value) }
}

/// The statement with the condition on the text that is searched for: the
/// text may stand anywhere in the file name, the title or the description.
pub open spec fn with_search_text(s: StatementView, text: Option<String>) -> StatementView {
    match text {
        Some(t) => {
            let pattern = ParamView::Text("%"@ + t@ + "%"@);
            with_condition(
                with_condition(
                    with_condition(s, " AND (filename LIKE "@, Seq::empty(), pattern),
                    " OR title LIKE "@,
                    Seq::empty(),
                    pattern,
                ),
                " OR description LIKE "@,
                ")"@,
                pattern,
            )
        },
        None => s,
    }
}

/// The statement with one condition for each tag.
pub open spec fn with_tags(s: StatementView, tags: Seq<String>) -> StatementView
    decreases tags.len(),
{
    if tags.len() == 0 {
        s
    } else {
        with_condition(
            with_tags(s, tags.drop_last()),
            " AND tags LIKE "@,
            Seq::empty(),
            ParamView::Text("%\""@ + tags.last()@ + "\""@),
        )
    }
}

/// The statement with a condition on a text that may be missing.
pub open spec fn with_text_bound(
    s: StatementView,
    before: Seq<char>,
    bound: Option<Seq<char>>,
) -> StatementView {
    match bound {
        Some(b) => with_condition(s, before, Seq::empty(), ParamView::Text(b)),
        None => s,
    }
}

/// The statement with a condition on a number that may be missing.
pub open spec fn with_number_bound(
    s: StatementView,
    before: Seq<char>,
    bound: Option<i64>,
) -> StatementView {
    match bound {
        Some(b) => with_condition(s, before, Seq::empty(), ParamView::Integer(b)),
        None => s,
    }
}

/// The column that an order is taken by.
pub open spec fn sort_column(sort_by: SortBy) -> Seq<char> {
    match sort_by {
        SortBy::CreatedAt => "created_at"@,
        SortBy::UpdatedAt => "updated_at"@,
        SortBy::Filename => "filename"@,
        SortBy::Duration => "duration"@,
        SortBy::FileSize => "file_size"@,
    }
}

/// The word for the direction of an order.
pub open spec fn sort_direction(sort_order: SortOrder) -> Seq<char> {
    match sort_order {
        SortOrder::Asc => "ASC"@,
        SortOrder::Desc => "DESC"@,
    }
}

/// The end of the statement: the order, and the limit with the offset. An
/// offset counts only where there is a limit.
pub open spec fn statement_ending(query: RecordingQuery) -> Seq<char> {
    " ORDER BY "@ + sort_column(query.sort_by) + " "@ + sort_direction(query.sort_order) + (
    match query.limit {
        Some(limit) => " LIMIT "@ + signed_decimal_seq(limit as int) + (match query.offset {
            Some(offset) => " OFFSET "@ + signed_decimal_seq(offset as int),
            None => Seq::empty(),
        }),
        None => Seq::empty(),
    })
}

/// The text of an optional string.
pub open spec fn optional_text(s: Option<String>) -> Option<Seq<char>> {
    match s {
        Some(t) => Some(t@),
        None => None,
    }
}

/// The instant of a bound as the store keeps it.
pub open spec fn bound_text(bound: Option<i64>) -> Option<Seq<char>> {
    match bound {
        Some(b) => rfc3339_of(b as int),
        None => None,
    }
}

/// The bounds on the date can be written: each that is there lies inside the
/// calendar.
pub open spec fn dates_can_be_written(query: RecordingQuery) -> bool {
    &&& query.date_from matches Some(d) ==> rfc3339_of(d as int) is Some
    &&& query.date_to matches Some(d) ==> rfc3339_of(d as int) is Some
}

/// The statement of a search: the statement that finds every recording, with
/// the conditions of the search in the order text, category, tags, dates,
/// durations, and with the ending.
pub open spec fn search_statement(query: RecordingQuery) -> StatementView {
    let base = StatementView { sql: SEARCH_BASE@, params: Seq::empty() };
    let a = with_search_text(base, query.search_text);
    let b = with_text_bound(a, " AND category = "@, optional_text(query.category));
    let c = with_tags(b, query.tags@);
    let d = with_text_bound(c, " AND created_at >= "@, bound_text(query.date_from));
    let e = with_text_bound(d, " AND created_at <= "@, bound_text(query.date_to));
    let f = with_number_bound(e, " AND duration >= "@, query.min_duration);
    let g = with_number_bound(f, " AND duration <= "@, query.max_duration);
    StatementView { sql: g.sql + statement_ending(query), params: g.params }
}

fn add_condition(s: &mut SearchStatement, before: &str, after: &str, value: SqlParam)
    ensures
        final(s)@ == with_condition(old(s)@, before@, after@, value@),
{
    let number = decimal_wide(s.params.len() as u128 + 1);
    proof {
        reveal_strlit("?");
        assert("?"@ =~= seq!['?']);
    }
    s.sql.append(before);
    s.sql.append("?");
    s.sql.append(number.as_str());
    s.sql.append(after);
    s.params.push(value);
    assert(s.params@.map_values(|p: SqlParam| p@) == old(s).params@.map_values(
        |p: SqlParam| p@,
    ).push(value@));
    assert(s.sql@ == old(s).sql@ + before@ + next_mark(old(s)@) + after@);
}

fn add_search_text(s: &mut SearchStatement, text: &Option<String>)
    ensures
        final(s)@ == with_search_text(old(s)@, *text),
{
    proof {
        reveal_strlit("");
        assert(""@ =~= Seq::<char>::empty());
    }
    match text {
        Some(t) => {
            let pattern = join3("%", t.as_str(), "%");
            add_condition(s, " AND (filename LIKE ", "", SqlParam::Text(pattern.clone()));
            add_condition(s, " OR title LIKE ", "", SqlParam::Text(pattern.clone()));
            add_condition(s, " OR description LIKE ", ")", SqlParam::Text(pattern));
        },
        None => {},
    }
}

fn add_text_condition(s: &mut SearchStatement, before: &str, bound: Option<String>)
    ensures
        final(s)@ == with_text_bound(
            old(s)@,
            before@,
            match bound {
                Some(b) => Some(b@),
                None => None,
            },
        ),
{
    proof {
        reveal_strlit("");
        assert(""@ =~= Seq::<char>::empty());
    }
    match bound {
        Some(b) => {
            add_condition(s, before, "", SqlParam::Text(b));
        },
        None => {},
    }
}

fn add_number_condition(s: &mut SearchStatement, before: &str, bound: Option<i64>)
    ensures
        final(s)@ == with_number_bound(old(s)@, before@, bound),
{
    proof {
        reveal_strlit("");
        assert(""@ =~= Seq::<char>::empty());
    }
    match bound {
        Some(b) => {
            add_condition(s, before, "", SqlParam::Integer(b));
        },
        None => {},
    }
}

fn add_tags(s: &mut SearchStatement, tags: &Vec<String>)
    ensures
        final(s)@ == with_tags(old(s)@, tags@),
{
    proof {
        reveal_strlit("");
        assert(""@ =~= Seq::<char>::empty());
    }
    let mut i: usize = 0;
    assert(tags@.take(0) == Seq::<String>::empty());
    while i < tags.len()
        invariant
            i <= tags.len(),
            ""@ == Seq::<char>::empty(),
            s@ == with_tags(old(s)@, tags@.take(i as int)),
        decreases tags.len() - i,
    {
        proof {
            let next = tags@.take(i + 1);
            assert(next.drop_last() == tags@.take(i as int));
            assert(next.last() == tags@[i as int]);
        }
        let pattern = join3("%\"", tags[i].as_str(), "\"");
        add_condition(s, " AND tags LIKE ", "", SqlParam::Text(pattern));
        i = i + 1;
    }
    assert(tags@.take(tags.len() as int) == tags@);
}

fn ending_of(query: &RecordingQuery) -> (ending: String)
    ensures
        ending@ == statement_ending(*query),
{
    let column: &str = match query.sort_by {
        SortBy::CreatedAt => "created_at",
        SortBy::UpdatedAt => "updated_at",
        SortBy::Filename => "filename",
        SortBy::Duration => "duration",
        SortBy::FileSize => "file_size",
    };
    let direction: &str = match query.sort_order {
        SortOrder::Asc => "ASC",
        SortOrder::Desc => "DESC",
    };
    let mut ending = " ORDER BY ".to_owned();
    ending.append(column);
    ending.append(" ");
    ending.append(direction);
    let ghost head = ending@;
    match query.limit {
        Some(limit) => {
            ending.append(" LIMIT ");
            ending.append(signed_decimal(limit as i64).as_str());
            let ghost limited = ending@;
            match query.offset {
                Some(offset) => {
                    ending.append(" OFFSET ");
                    ending.append(signed_decimal(offset as i64).as_str());
                    assert(ending@ == head + (" LIMIT "@ + signed_decimal_seq(limit as int) + (
                    " OFFSET "@ + signed_decimal_seq(offset as int))));
                },
                None => {
                    assert(ending@ == head + (" LIMIT "@ + signed_decimal_seq(limit as int)
                        + Seq::<char>::empty()));
                },
            }
        },
        None => {
            assert(ending@ == head + Seq::<char>::empty());
        },
    }
    ending
}

fn instant_text(bound: Option<i64>) -> (r: Option<Option<String>>)
    ensures
        r is Some <==> (bound matches Some(b) ==> rfc3339_of(b as int) is Some),
        r matches Some(t) ==> (match t {
            Some(s) => Some(s@),
            None => None,
        }) == bound_text(bound),
{
    match bound {
        Some(d) => match to_rfc3339(d) {
            Some(t) => Some(Some(t)),
            None => None,
        },
        None => Some(None),
    }
}

/// The statement of a search. A bound on the date that lies outside the
/// calendar cannot be written: a validation error. Every other search has
/// the statement that `search_statement` describes.
pub fn search_recordings(query: &RecordingQuery) -> (r: AppResult<SearchStatement>)
    ensures
        r is Ok <==> dates_can_be_written(*query),
        r matches Ok(s) ==> s@ == search_statement(*query),
        r matches Err(e) ==> e is ValidationError,
{
    let date_from = match instant_text(query.date_from) {
        Some(t) => t,
        None => {
            return Err(AppError::ValidationError { message: "Invalid date_from".to_owned() });
        },
    };
    let date_to = match instant_text(query.date_to) {
        Some(t) => t,
        None => {
            return Err(AppError::ValidationError { message: "Invalid date_to".to_owned() });
        },
    };
    let mut s = SearchStatement { sql: SEARCH_BASE.to_owned(), params: Vec::new() };
    assert(s@.params == Seq::<ParamView>::empty());
    add_search_text(&mut s, &query.search_text);
    add_text_condition(&mut s, " AND category = ", query.category.clone());
    add_tags(&mut s, &query.tags);
    add_text_condition(&mut s, " AND created_at >= ", date_from);
    add_text_condition(&mut s, " AND created_at <= ", date_to);
    add_number_condition(&mut s, " AND duration >= ", query.min_duration);
    add_number_condition(&mut s, " AND duration <= ", query.max_duration);
    let ending = ending_of(query);
    let ghost params = s@.params;
    s.sql.append(ending.as_str());
    assert(s@.params == params);
    Ok(s)
}

} // verus!
