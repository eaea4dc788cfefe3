//! The commands on recordings, as far as they decide anything: the search
//! that a request stands for, the report of a recording, and the files that
//! belong to no recording.

use crate::models::{Recording, RecordingQuery, SortBy, SortOrder, Transcription};
use crate::platform::{format_utc, formatted_utc, parse_rfc3339, rfc3339_millis, READABLE_STAMP};
use crate::text::{decimal, decimal_seq, same_text, signed_decimal, signed_decimal_seq, texts};
use vstd::prelude::*;
use vstd::string::StringExecFns;

verus! {

/// The column that a word of a request names; the time of creation for a
/// word that names none.
pub open spec fn sort_by_named(word: Option<Seq<char>>) -> SortBy {
    if word == Some("updated_at"@) {
        SortBy::UpdatedAt
    } else if word == Some("filename"@) {
        SortBy::Filename
    } else if word == Some("duration"@) {
        SortBy::Duration
    } else if word == Some("file_size"@) {
        SortBy::FileSize
    } else {
        SortBy::CreatedAt
    }
}

/// The direction that a word of a request names; descending for a word that
/// names none.
pub open spec fn sort_order_named(word: Option<Seq<char>>) -> SortOrder {
    if word == Some("asc"@) {
        SortOrder::Asc
    } else {
        SortOrder::Desc
    }
}

/// The text of an optional string.
pub open spec fn optional_text(s: Option<String>) -> Option<Seq<char>> {
    match s {
        Some(t) => Some(t@),
        None => None,
    }
}

/// The instant that the text of a date in a request stands for.
pub open spec fn date_named(text: Option<String>) -> Option<Option<int>> {
    match text {
        Some(t) => match rfc3339_millis(t@) {
            Some(m) => Some(Some(m)),
            None => None,
        },
        None => Some(None),
    }
}

fn parse_date(text: &Option<String>) -> (r: Option<Option<i64>>)
    ensures
        r is Some <==> date_named(*text) is Some,
        r matches Some(d) ==> date_named(*text) == Some(
            match d {
                Some(m) => Some(m as int),
                None => None,
            },
        ),
{
    match text {
        Some(t) => match parse_rfc3339(t.as_str()) {
            Some(m) => Some(Some(m)),
            None => None,
        },
        None => Some(None),
    }
}

/// The search that a request stands for.
///
/// A date that is not in the form of RFC 3339 is an error that names the
/// field. Otherwise the texts, the bounds and the tags are taken as they
/// are; the order falls back to the newest first, the limit to 50 and the
/// offset to none.
pub fn search_recordings(
    search_text: Option<String>,
    category: Option<String>,
    tags: Option<Vec<String>>,
    date_from: Option<String>,
    date_to: Option<String>,
    min_duration: Option<i64>,
    max_duration: Option<i64>,
    sort_by: Option<String>,
    sort_order: Option<String>,
    limit: Option<i32>,
    offset: Option<i32>,
) -> (r: Result<RecordingQuery, String>)
    ensures
        r is Ok <==> date_named(date_from) is Some && date_named(date_to) is Some,
        r matches Err(message) ==> message@ == (if date_named(date_from) is None {
            "Invalid date_from format"@
        } else {
            "Invalid date_to format"@
        }),
        r matches Ok(q) ==> ({
            &&& q.search_text == search_text
            &&& q.category == category
            &&& q.tags@ == (match tags {
                Some(t) => t@,
                None => Seq::empty(),
            })
            &&& date_named(date_from) == Some(
                match q.date_from {
                    Some(m) => Some(m as int),
                    None => None,
                },
            )
            &&& date_named(date_to) == Some(
                match q.date_to {
                    Some(m) => Some(m as int),
                    None => None,
                },
            )
            &&& q.min_duration == min_duration
            &&& q.max_duration == max_duration
            &&& q.limit == Some(
                match limit {
                    Some(l) => l,
                    None => 50i32,
                },
            )
            &&& q.offset == Some(
                match offset {
                    Some(o) => o,
                    None => 0i32,
                },
            )
            &&& q.sort_by == sort_by_named(optional_text(sort_by))
            &&& q.sort_order == sort_order_named(optional_text(sort_order))
        }),
{
    let date_from_parsed = match parse_date(&date_from) {
        Some(d) => d,
        None => {
            return Err("Invalid date_from format".to_owned());
        },
    };
    let date_to_parsed = match parse_date(&date_to) {
        Some(d) => d,
        None => {
            return Err("Invalid date_to format".to_owned());
        },
    };
    let sort_by_parsed = match &sort_by {
        Some(word) => {
            if same_text(word.as_str(), "updated_at") {
                SortBy::UpdatedAt
            } else if same_text(word.as_str(), "filename") {
                SortBy::Filename
            } else if same_text(word.as_str(), "duration") {
                SortBy::Duration
            } else if same_text(word.as_str(), "file_size") {
                SortBy::FileSize
            } else {
                SortBy::CreatedAt
            }
        },
        None => SortBy::CreatedAt,
    };
    let sort_order_parsed = match &sort_order {
        Some(word) => {
            if same_text(word.as_str(), "asc") {
                SortOrder::Asc
            } else {
                SortOrder::Desc
            }
        },
        None => SortOrder::Desc,
    };
    let tags = match tags {
        Some(t) => t,
        None => Vec::new(),
    };
    Ok(
        RecordingQuery {
            search_text,
            category,
            tags,
            date_from: date_from_parsed,
            date_to: date_to_parsed,
            min_duration,
            max_duration,
            limit: Some(
                match limit {
                    Some(l) => l,
                    None => 50,
                },
            ),
            offset: Some(
                match offset {
                    Some(o) => o,
                    None => 0,
                },
            ),
            sort_by: sort_by_parsed,
            sort_order: sort_order_parsed,
        },
    )
}

/// The recording with the fields of a request written over its own: each
/// field that the request names takes the place of the old one.
pub fn update_recording_metadata(
    recording: Recording,
    title: Option<String>,
    description: Option<String>,
    category: Option<String>,
    tags: Option<Vec<String>>,
) -> (r: Recording)
    ensures
        r == (Recording {
            title: if title is Some {
                title
            } else {
                recording.title
            },
            description: if description is Some {
                description
            } else {
                recording.description
            },
            category: if category is Some {
                category
            } else {
                recording.category
            },
            tags: match tags {
                Some(t) => t,
                None => recording.tags,
            },
            ..recording
        }),
{
    let mut r = recording;
    match title {
        Some(t) => {
            r.title = Some(t);
        },
        None => {},
    }
    match description {
        Some(d) => {
            r.description = Some(d);
        },
        None => {},
    }
    match category {
        Some(c) => {
            r.category = Some(c);
        },
        None => {},
    }
    match tags {
        Some(t) => {
            r.tags = t;
        },
        None => {},
    }
    r
}

/// Whether some recording has its file at `path`.
pub open spec fn is_referenced(recordings: Seq<Recording>, path: Seq<char>) -> bool {
    exists|i: int| 0 <= i < recordings.len() && (#[trigger] recordings[i]).file_path@ == path
}

/// The files among `files` that belong to no recording, in order.
pub fn cleanup_orphaned_files(files: &Vec<String>, recordings: &Vec<Recording>) -> (out: Vec<
    String,
>)
    ensures
        out@ == files@.filter(|f: String| !is_referenced(recordings@, f@)),
{
    let mut out: Vec<String> = Vec::new();
    let mut i: usize = 0;
    assert(files@.take(0).filter(|f: String| !is_referenced(recordings@, f@)) == Seq::<
        String,
    >::empty());
    while i < files.len()
        invariant
            i <= files.len(),
            out@ == files@.take(i as int).filter(|f: String| !is_referenced(recordings@, f@)),
        decreases files.len() - i,
    {
        let file = &files[i];
        let mut referenced = false;
        let mut k: usize = 0;
        while k < recordings.len()
            invariant
                k <= recordings.len(),
                referenced <==> exists|j: int|
                    0 <= j < k && (#[trigger] recordings@[j]).file_path@ == file@,
            decreases recordings.len() - k,
        {
            if same_text(recordings[k].file_path.as_str(), file.as_str()) {
                referenced = true;
            }
            k = k + 1;
        }
        proof {
            assert(files@.take(i + 1).drop_last() == files@.take(i as int));
            reveal(Seq::filter);
        }
        if !referenced {
            out.push(file.clone());
        }
        i = i + 1;
    }
    assert(files@.take(files.len() as int) == files@);
    out
}

/// A confidence in thousandths as a number with two places, cut, not
/// rounded: `0.85` for 850.
pub open spec fn confidence_text(permille: u16) -> Seq<char> {
    decimal_seq((permille / 1000) as nat) + "."@ + decimal_seq(((permille % 1000) / 100) as nat)
        + decimal_seq(((permille % 100) / 10) as nat)
}

/// The tags of a recording in one line, with a comma and a space between
/// them.
pub open spec fn joined_tags(tags: Seq<String>) -> Seq<char>
    decreases tags.len(),
{
    if tags.len() == 0 {
        Seq::empty()
    } else if tags.len() == 1 {
        tags[0]@
    } else {
        joined_tags(tags.drop_last()) + ", "@ + tags.last()@
    }
}

/// The head of the report of a recording: its file name and time of
/// creation, then one line for each of title, description, category, tags
/// and length that it has.
pub open spec fn report_head(recording: Recording, created: Seq<char>) -> Seq<char> {
    "=== Recording: "@ + recording.filename@ + " ===\n"@ + "Created: "@ + created + "\n"@ + (
    match recording.title {
        Some(t) => "Title: "@ + t@ + "\n"@,
        None => Seq::empty(),
    }) + (match recording.description {
        Some(d) => "Description: "@ + d@ + "\n"@,
        None => Seq::empty(),
    }) + (match recording.category {
        Some(c) => "Category: "@ + c@ + "\n"@,
        None => Seq::empty(),
    }) + (if recording.tags@.len() > 0 {
        "Tags: "@ + joined_tags(recording.tags@) + "\n"@
    } else {
        Seq::empty()
    }) + (match recording.duration {
        Some(d) => "Duration: "@ + signed_decimal_seq(d as int) + "s\n"@,
        None => Seq::empty(),
    })
}

/// The part of the report for one transcription: a line with its language
/// and confidence, then its text.
pub open spec fn report_entry(t: Transcription) -> Seq<char> {
    "\n--- "@ + t.language@ + " (Confidence: "@ + confidence_text(
        match t.confidence {
            Some(c) => c,
            None => 0u16,
        },
    ) + ") ---\n"@ + t.text@ + "\n"@
}

/// The parts of the report for the transcriptions, in order.
pub open spec fn report_entries(transcriptions: Seq<Transcription>) -> Seq<char>
    decreases transcriptions.len(),
{
    if transcriptions.len() == 0 {
        Seq::empty()
    } else {
        report_entries(transcriptions.drop_last()) + report_entry(transcriptions.last())
    }
}

/// The report of a recording with its transcriptions.
pub open spec fn report(
    recording: Recording,
    created: Seq<char>,
    transcriptions: Seq<Transcription>,
) -> Seq<char> {
    report_head(recording, created) + "\n=== Transcriptions ===\n"@ + report_entries(
        transcriptions,
    )
}

fn join_tags(tags: &Vec<String>) -> (out: String)
    ensures
        out@ == joined_tags(tags@),
{
    let mut out = String::new();
    let mut i: usize = 0;
    assert(tags@.take(0) == Seq::<String>::empty());
    while i < tags.len()
        invariant
            i <= tags.len(),
            out@ == joined_tags(tags@.take(i as int)),
        decreases tags.len() - i,
    {
        proof {
            let next = tags@.take(i + 1);
            assert(next.drop_last() == tags@.take(i as int));
            assert(next.last() == tags@[i as int]);
            if i == 0 {
                assert(next[0] == tags@[0]);
                assert(Seq::<char>::empty() + tags@[0]@ == tags@[0]@);
            }
        }
        if i > 0 {
            out.append(", ");
        }
        out.append(tags[i].as_str());
        i = i + 1;
    }
    assert(tags@.take(tags.len() as int) == tags@);
    out
}

fn confidence_of(permille: u16) -> (out: String)
    ensures
        out@ == confidence_text(permille),
{
    let mut out = decimal((permille / 1000) as u64);
    out.append(".");
    out.append(decimal(((permille % 1000) / 100) as u64).as_str());
    out.append(decimal(((permille % 100) / 10) as u64).as_str());
    out
}

fn head_of(recording: &Recording, created: &str) -> (out: String)
    ensures
        out@ == report_head(*recording, created@),
{
    let mut out = "=== Recording: ".to_owned();
    out.append(recording.filename.as_str());
    out.append(" ===\n");
    out.append("Created: ");
    out.append(created);
    out.append("\n");
    let ghost a = out@;
    match &recording.title {
        Some(t) => {
            out.append("Title: ");
            out.append(t.as_str());
            out.append("\n");
            assert(out@ == a + ("Title: "@ + t@ + "\n"@));
        },
        None => {
            assert(out@ == a + Seq::<char>::empty());
        },
    }
    let ghost b = out@;
    match &recording.description {
        Some(d) => {
            out.append("Description: ");
            out.append(d.as_str());
            out.append("\n");
            assert(out@ == b + ("Description: "@ + d@ + "\n"@));
        },
        None => {
            assert(out@ == b + Seq::<char>::empty());
        },
    }
    let ghost c = out@;
    match &recording.category {
        Some(cat) => {
            out.append("Category: ");
            out.append(cat.as_str());
            out.append("\n");
            assert(out@ == c + ("Category: "@ + cat@ + "\n"@));
        },
        None => {
            assert(out@ == c + Seq::<char>::empty());
        },
    }
    let ghost d = out@;
    if recording.tags.len() > 0 {
        let joined = join_tags(&recording.tags);
        out.append("Tags: ");
        out.append(joined.as_str());
        out.append("\n");
        assert(out@ == d + ("Tags: "@ + joined_tags(recording.tags@) + "\n"@));
    } else {
        assert(out@ == d + Seq::<char>::empty());
    }
    let ghost e = out@;
    match recording.duration {
        Some(seconds) => {
            out.append("Duration: ");
            out.append(signed_decimal(seconds).as_str());
            out.append("s\n");
            assert(out@ == e + ("Duration: "@ + signed_decimal_seq(seconds as int) + "s\n"@));
        },
        None => {
            assert(out@ == e + Seq::<char>::empty());
        },
    }
    out
}

fn entry_of(t: &Transcription) -> (out: String)
    ensures
        out@ == report_entry(*t),
{
    let confidence: u16 = match t.confidence {
        Some(c) => c,
        None => 0,
    };
    let shown = confidence_of(confidence);
    let mut out = "\n--- ".to_owned();
    out.append(t.language.as_str());
    out.append(" (Confidence: ");
    out.append(shown.as_str());
    out.append(") ---\n");
    out.append(t.text.as_str());
    out.append("\n");
    out
}

/// The report of a recording with its transcriptions, as plain text.
///
/// A format other than `text` is an error that names it; the caller writes
/// the JSON form itself. A recording whose time of creation lies outside the
/// calendar cannot be reported.
pub fn export_recording_data(
    recording: &Recording,
    transcriptions: &Vec<Transcription>,
    format: &str,
) -> (r: Result<String, String>)
    ensures
        r is Ok <==> format@ == "text"@ && formatted_utc(
            recording.created_at as int,
            READABLE_STAMP@,
        ) is Some,
        r matches Ok(text) ==> (formatted_utc(recording.created_at as int, READABLE_STAMP@)
            matches Some(created) && text@ == report(*recording, created, transcriptions@)),
        r matches Err(message) ==> message@ == (if format@ == "text"@ {
            "Recording has no valid creation time"@
        } else {
            "Unsupported export format: "@ + format@
        }),
{
    if !same_text(format, "text") {
        return Err(crate::text::join2("Unsupported export format: ", format));
    }
    let created = match format_utc(recording.created_at, READABLE_STAMP) {
        Some(c) => c,
        None => {
            return Err("Recording has no valid creation time".to_owned());
        },
    };
    let mut out = head_of(recording, created.as_str());
    out.append("\n=== Transcriptions ===\n");
    let ghost head = out@;
    let mut i: usize = 0;
    assert(transcriptions@.take(0) == Seq::<Transcription>::empty());
    assert(out@ == head + Seq::<char>::empty());
    while i < transcriptions.len()
        invariant
            i <= transcriptions.len(),
            out@ == head + report_entries(transcriptions@.take(i as int)),
        decreases transcriptions.len() - i,
    {
        proof {
            let next = transcriptions@.take(i + 1);
            assert(next.drop_last() == transcriptions@.take(i as int));
            assert(next.last() == transcriptions@[i as int]);
        }
        let entry = entry_of(&transcriptions[i]);
        let ghost before = out@;
        out.append(entry.as_str());
        assert(out@ == head + (report_entries(transcriptions@.take(i as int)) + entry@));
        i = i + 1;
    }
    assert(transcriptions@.take(transcriptions.len() as int) == transcriptions@);
    Ok(out)
}

} // verus!
